use flappy_bevy::state::{check_state_transition, GameState};

#[test]
fn episode_begins_ready() {
    assert_eq!(GameState::default(), GameState::Ready);
}

#[test]
fn no_tap_no_transition() {
    assert_eq!(check_state_transition(GameState::Ready, false, 160_000_000), None);
    assert_eq!(check_state_transition(GameState::Playing, false, 160_000_000), None);
    assert_eq!(check_state_transition(GameState::Lost, false, 64_000_000), None);
}

#[test]
fn tap_in_ready_leads_to_playing() {
    assert_eq!(
        check_state_transition(GameState::Ready, true, 160_000_000),
        Some(GameState::Playing)
    );
    assert_eq!(check_state_transition(GameState::Ready, true, 0), Some(GameState::Playing));
}

#[test]
fn tap_while_playing_is_no_transition() {
    assert_eq!(check_state_transition(GameState::Playing, true, 64_000_000), None);
}

#[test]
fn tap_in_lost_leads_to_ready_only_on_the_ground() {
    assert_eq!(check_state_transition(GameState::Lost, true, 64_000_001), None);
    assert_eq!(check_state_transition(GameState::Lost, true, 200_000_000), None);
    assert_eq!(check_state_transition(GameState::Lost, true, 64_000_000), Some(GameState::Ready));
    assert_eq!(check_state_transition(GameState::Lost, true, 0), Some(GameState::Ready));
}
