use flappy_bevy::bird::{
    bird_movement, enter_playing, exit_playing, reset_bird, Bird, BIRD_CEILING, BIRD_JUMP_SPEED,
    BIRD_MAX_FALL_SPEED, BIRD_MAX_TILT, BIRD_MIN_TILT, BIRD_OFFSET_X, BIRD_SPAWN_Y,
};
use flappy_bevy::pipes::GameData;
use flappy_bevy::state::GameState;
use flappy_bevy::GROUND_TOP;

fn resting() -> Bird {
    Bird { speed: 0, angle: 0, x: 30_000_000, y: 160_000_000 }
}

#[test]
fn new_bird_rests_at_spawn() {
    let bird = Bird::new();
    assert_eq!(bird, resting());
    assert_eq!(BIRD_OFFSET_X, 30_000_000);
    assert_eq!(BIRD_SPAWN_Y, 160_000_000);
}

#[test]
fn gravity_pulls_speed_and_position() {
    let mut bird = resting();
    bird.update(16_667, false, GameState::Playing);
    assert_eq!(bird, Bird { speed: -10_833_550, angle: 0, x: 30_000_000, y: 159_819_438 });
}

#[test]
fn jump_overrides_gravity_and_tilts_up() {
    let mut bird = resting();
    bird.update(16_667, true, GameState::Playing);
    assert_eq!(
        bird,
        Bird { speed: 230_000_000, angle: 10_000_200, x: 30_000_000, y: 163_833_410 }
    );
}

#[test]
fn tap_is_no_jump_when_lost() {
    let mut bird = resting();
    bird.update(16_667, true, GameState::Lost);
    assert_eq!(bird, Bird { speed: -10_833_550, angle: 0, x: 30_000_000, y: 159_819_438 });
}

#[test]
fn ready_holds_bird_at_rest() {
    let mut bird = Bird { speed: -5, angle: 12, x: 1, y: 99 };
    bird.update(1_000_000, true, GameState::Ready);
    assert_eq!(bird, resting());
}

#[test]
fn zero_time_step_changes_only_what_is_clamped() {
    let mut bird = Bird { speed: 5, angle: -95_000_000, x: 30_000_000, y: 20_000_000 };
    bird.update(0, false, GameState::Lost);
    assert_eq!(bird, Bird { speed: 5, angle: -90_000_000, x: 30_000_000, y: 64_000_000 });
}

#[test]
fn fall_speed_clamps_at_floor_over_two_seconds() {
    let mut bird = resting();
    let mut first_at_floor = 0;
    for tick in 1..=120 {
        let before = bird.speed;
        bird.update(16_667, false, GameState::Playing);
        assert!(bird.speed >= BIRD_MAX_FALL_SPEED);
        assert!(bird.speed >= -400_000_000);
        if before - 650 * 16_667 >= -400_000_000 {
            assert_eq!(bird.speed, before - 650 * 16_667);
        } else {
            assert_eq!(bird.speed, -400_000_000);
        }
        if bird.speed == -400_000_000 && first_at_floor == 0 {
            first_at_floor = tick;
        }
    }
    assert_eq!(first_at_floor, 37);
    assert_eq!(bird, Bird { speed: -400_000_000, angle: -90_000_000, x: 30_000_000, y: 64_000_000 });
}

#[test]
fn fall_speed_reaches_floor_on_the_step_that_would_pass_it() {
    let mut bird = Bird { speed: 0, angle: 0, x: 30_000_000, y: 300_000_000 };
    for _ in 0..36 {
        bird.update(16_667, false, GameState::Playing);
    }
    assert_eq!(bird.speed, -390_007_800);
    assert_eq!(bird.y, 179_745_206);
    bird.update(16_667, false, GameState::Playing);
    assert_eq!(bird.speed, -400_000_000);
    assert_eq!(bird.y, 173_078_406);
}

#[test]
fn ceiling_stops_the_rise() {
    let mut bird = Bird { speed: 0, angle: 0, x: 30_000_000, y: 312_000_000 };
    bird.update(16_667, true, GameState::Playing);
    assert_eq!(bird, Bird { speed: 0, angle: 0, x: 30_000_000, y: 313_000_000 });
    assert_eq!(BIRD_CEILING, 313_000_000);
}

#[test]
fn dive_tilts_nose_down() {
    let mut bird = Bird { speed: -200_000_000, angle: 10_000_000, x: 30_000_000, y: 200_000_000 };
    bird.update(100_000, false, GameState::Lost);
    assert_eq!(
        bird,
        Bird { speed: -265_000_000, angle: -38_000_000, x: 30_000_000, y: 173_500_000 }
    );
}

#[test]
fn slow_fall_leaves_tilt_unchanged() {
    let mut bird = Bird { speed: 0, angle: 7_000_000, x: 30_000_000, y: 200_000_000 };
    bird.update(100_000, false, GameState::Playing);
    assert_eq!(bird.speed, -65_000_000);
    assert_eq!(bird.angle, 7_000_000);
}

#[test]
fn update_keeps_tilt_and_height_within_limits_for_extreme_input() {
    let speeds = [i64::MIN, -1, 0, 1, 230_000_000, i64::MAX];
    let heights = [i64::MIN, 0, 64_000_000, 313_000_000, i64::MAX];
    let angles = [i64::MIN, -90_000_000, 0, 30_000_000, i64::MAX];
    let steps = [0, 1, 16_667, 1_000_000, u32::MAX];
    let states = [GameState::Ready, GameState::Playing, GameState::Lost];
    for &speed in speeds.iter() {
        for &y in heights.iter() {
            for &angle in angles.iter() {
                for &dt in steps.iter() {
                    for &state in states.iter() {
                        for &tapped in [false, true].iter() {
                            let mut bird = Bird { speed, angle, x: 30_000_000, y };
                            bird.update(dt, tapped, state);
                            assert!(BIRD_MIN_TILT <= bird.angle && bird.angle <= BIRD_MAX_TILT);
                            assert!(-90_000_000 <= bird.angle && bird.angle <= 30_000_000);
                            assert!(GROUND_TOP <= bird.y && bird.y <= BIRD_CEILING);
                            assert!(64_000_000 <= bird.y && bird.y <= 313_000_000);
                        }
                    }
                }
            }
        }
    }
}

#[test]
fn bird_movement_is_update() {
    let mut a = resting();
    let mut b = resting();
    bird_movement(GameState::Playing, true, 20_000, &mut a);
    b.update(20_000, true, GameState::Playing);
    assert_eq!(a, b);
    assert_eq!(a.speed, BIRD_JUMP_SPEED);
}

#[test]
fn reset_bird_clears_score_and_rests_bird() {
    let mut bird = Bird { speed: -400_000_000, angle: -90_000_000, x: 31_000_000, y: 64_000_000 };
    let mut data = GameData { score: 12, last_pipe_y: 200_000_000 };
    reset_bird(&mut bird, &mut data);
    assert_eq!(bird, resting());
    assert_eq!(data, GameData { score: 0, last_pipe_y: 200_000_000 });
}

#[test]
fn entering_playing_gives_the_first_flap() {
    let mut bird = resting();
    enter_playing(&mut bird);
    assert_eq!(bird, Bird { speed: 230_000_000, angle: 0, x: 30_000_000, y: 160_000_000 });
}

#[test]
fn leaving_playing_freezes_the_bird() {
    let mut bird = Bird { speed: -123, angle: 5, x: 30_000_000, y: 100_000_000 };
    exit_playing(&mut bird);
    assert_eq!(bird, Bird { speed: 0, angle: 5, x: 30_000_000, y: 100_000_000 });
}
