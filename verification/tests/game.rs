use flappy_bevy::bird::Bird;
use flappy_bevy::camera::CameraShake;
use flappy_bevy::collision::{Bodies, CollisionEvent};
use flappy_bevy::game::{enter_lost, Game, TickInput, TickReport};
use flappy_bevy::pipes::{GameData, PipePair};
use flappy_bevy::state::GameState;

const BIRD: u64 = 1;
const ZONE: u64 = 10;
const PIPE: u64 = 20;

fn registry() -> Bodies {
    let mut bodies = Bodies::new();
    bodies.birds.push(BIRD);
    bodies.score_zones.push(ZONE);
    bodies.pipe_bodies.push(PIPE);
    bodies
}

fn input(dt: u32, taps: usize, events: Vec<CollisionEvent>) -> TickInput {
    TickInput { dt, taps, events }
}

fn playing(y: i64, speed: i64, score: u16) -> Game {
    Game {
        state: GameState::Playing,
        data: GameData { score, last_pipe_y: 160_000_000 },
        bird: Bird { speed, angle: 0, x: 30_000_000, y },
        pipes: [
            PipePair { x: 200_000_000, y: 150_000_000 },
            PipePair { x: 320_000_000, y: 180_000_000 },
        ],
    }
}

fn lost(y: i64, score: u16) -> Game {
    let mut game = playing(y, 0, score);
    game.state = GameState::Lost;
    game
}

#[test]
fn new_session_is_ready() {
    fastrand::seed(1);
    let game = Game::new();
    assert_eq!(game.state, GameState::Ready);
    assert_eq!(game.data.score, 0);
    assert_eq!(game.bird, Bird { speed: 0, angle: 0, x: 30_000_000, y: 160_000_000 });
    assert_eq!(game.pipes[0].x, 200_000_000);
    assert_eq!(game.pipes[1].x, 320_000_000);
    assert!(117_000_000 <= game.pipes[0].y && game.pipes[0].y <= 220_000_000);
    assert!(game.pipes[0].y - 60_000_000 <= game.pipes[1].y);
    assert!(game.pipes[1].y <= game.pipes[0].y + 60_000_000);
    assert_eq!(game.data.last_pipe_y, game.pipes[1].y);
}

#[test]
fn new_session_repeats_with_the_seed() {
    fastrand::seed(77);
    let a = Game::new();
    fastrand::seed(77);
    let b = Game::new();
    assert_eq!(a, b);
}

#[test]
fn tap_in_ready_starts_the_flight() {
    fastrand::seed(2);
    let mut game = Game::new();
    let report = game.tick(&input(16_667, 1, Vec::new()), &registry());
    assert_eq!(game.state, GameState::Playing);
    assert_eq!(game.bird.speed, 230_000_000);
    assert!(game.bird.angle > 0);
    assert_eq!(game.bird.angle, 10_000_200);
    assert_eq!(game.bird.y, 163_833_410);
    assert_eq!(report, TickReport { started: true, reset: false, scored: 0, crashed: false });
}

#[test]
fn ready_waits_for_a_tap() {
    fastrand::seed(3);
    let mut game = Game::new();
    let before = game;
    for _ in 0..10 {
        let report = game.tick(&input(16_667, 0, vec![CollisionEvent::Started(BIRD, ZONE)]), &registry());
        assert_eq!(report, TickReport { started: false, reset: false, scored: 0, crashed: false });
    }
    assert_eq!(game, before);
}

#[test]
fn several_taps_in_a_tick_are_one() {
    fastrand::seed(4);
    let mut once = Game::new();
    let mut thrice = once;
    once.tick(&input(16_667, 1, Vec::new()), &registry());
    thrice.tick(&input(16_667, 3, Vec::new()), &registry());
    assert_eq!(once, thrice);
    assert_eq!(once.state, GameState::Playing);
}

#[test]
fn falling_for_two_seconds_never_passes_the_floor_speed() {
    let mut game = playing(160_000_000, 0, 0);
    let mut floor_seen = false;
    for _ in 0..120 {
        game.tick(&input(16_667, 0, Vec::new()), &registry());
        assert!(game.bird.speed >= -400_000_000);
        floor_seen = floor_seen || game.bird.speed == -400_000_000;
    }
    assert!(floor_seen);
    assert_eq!(game.state, GameState::Lost);
    assert_eq!(game.bird.y, 64_000_000);
}

#[test]
fn score_zone_event_adds_one_point() {
    let mut game = playing(200_000_000, 0, 3);
    let report =
        game.tick(&input(16_667, 0, vec![CollisionEvent::Started(BIRD, ZONE)]), &registry());
    assert_eq!(game.data.score, 4);
    assert_eq!(game.state, GameState::Playing);
    assert_eq!(report, TickReport { started: false, reset: false, scored: 1, crashed: false });
}

#[test]
fn simultaneous_score_events_each_count() {
    let mut game = playing(200_000_000, 0, 3);
    let events = vec![
        CollisionEvent::Started(BIRD, ZONE),
        CollisionEvent::Started(ZONE, BIRD),
        CollisionEvent::Stopped(BIRD, ZONE),
    ];
    let report = game.tick(&input(16_667, 0, events), &registry());
    assert_eq!(game.data.score, 5);
    assert_eq!(report.scored, 2);
}

#[test]
fn ground_contact_loses_in_the_same_tick() {
    // One millionth below the height at which the bird touches the ground.
    let mut game = playing(70_999_999, 0, 2);
    let report = game.tick(&input(0, 0, Vec::new()), &registry());
    assert_eq!(game.state, GameState::Lost);
    assert_eq!(game.bird.speed, 0);
    assert_eq!(game.data.score, 2);
    assert_eq!(report, TickReport { started: false, reset: false, scored: 0, crashed: true });
}

#[test]
fn ground_contact_one_pixel_below_the_threshold() {
    let mut game = playing(70_000_000, 0, 0);
    game.tick(&input(16_667, 0, Vec::new()), &registry());
    assert_eq!(game.state, GameState::Lost);
}

#[test]
fn ground_contact_is_judged_after_the_move() {
    // Above the threshold before the tick, at it afterwards.
    let mut game = playing(72_000_000, -400_000_000, 0);
    game.tick(&input(16_667, 0, Vec::new()), &registry());
    assert_eq!(game.bird.y, 72_000_000 - 6_666_800);
    assert_eq!(game.state, GameState::Lost);
    assert_eq!(game.bird.speed, 0);
}

#[test]
fn pipe_contact_loses_in_the_same_tick() {
    let mut game = playing(200_000_000, 100_000_000, 5);
    let events =
        vec![CollisionEvent::Started(PIPE, BIRD), CollisionEvent::Started(BIRD, ZONE)];
    let report = game.tick(&input(16_667, 0, events), &registry());
    assert_eq!(game.state, GameState::Lost);
    assert_eq!(game.bird.speed, 0);
    assert_eq!(game.data.score, 6);
    assert_eq!(report, TickReport { started: false, reset: false, scored: 1, crashed: true });
}

#[test]
fn playing_goes_on_without_a_crash() {
    let mut game = playing(200_000_000, 0, 0);
    let report = game.tick(&input(16_667, 1, vec![CollisionEvent::Stopped(BIRD, PIPE)]), &registry());
    assert_eq!(game.state, GameState::Playing);
    assert_eq!(game.bird.speed, 230_000_000);
    assert_eq!(game.pipes[0], PipePair { x: 198_666_640, y: 150_000_000 });
    assert_eq!(game.pipes[1], PipePair { x: 318_666_640, y: 180_000_000 });
    assert_eq!(report, TickReport { started: false, reset: false, scored: 0, crashed: false });
}

#[test]
fn tap_in_lost_is_ignored_in_mid_fall() {
    let mut game = lost(100_000_000, 7);
    let report = game.tick(&input(16_667, 1, Vec::new()), &registry());
    assert_eq!(game.state, GameState::Lost);
    assert_eq!(game.data.score, 7);
    // The bird keeps falling, and the tap is no jump.
    assert_eq!(game.bird.speed, -10_833_550);
    assert_eq!(game.bird.y, 100_000_000 - 180_562);
    assert_eq!(report, TickReport { started: false, reset: false, scored: 0, crashed: false });
}

#[test]
fn tap_in_lost_one_millionth_above_the_ground_is_ignored() {
    let mut game = lost(64_000_001, 7);
    game.tick(&input(0, 1, Vec::new()), &registry());
    assert_eq!(game.state, GameState::Lost);
}

#[test]
fn tap_in_lost_on_the_ground_starts_a_new_episode() {
    fastrand::seed(5);
    let mut game = lost(64_000_000, 7);
    game.bird.angle = -90_000_000;
    let report = game.tick(&input(16_667, 1, vec![CollisionEvent::Started(BIRD, ZONE)]), &registry());
    assert_eq!(game.state, GameState::Ready);
    assert_eq!(game.data.score, 0);
    assert_eq!(game.bird, Bird { speed: 0, angle: 0, x: 30_000_000, y: 160_000_000 });
    assert_eq!(game.pipes[0].x, 200_000_000);
    assert_eq!(game.pipes[1].x, 320_000_000);
    assert!(117_000_000 <= game.pipes[0].y && game.pipes[0].y <= 220_000_000);
    assert_eq!(game.data.last_pipe_y, game.pipes[1].y);
    assert_eq!(report, TickReport { started: false, reset: true, scored: 0, crashed: false });
}

#[test]
fn lost_without_a_tap_stays_lost_and_falls() {
    let mut game = lost(64_000_000, 7);
    let pipes = game.pipes;
    let report = game.tick(&input(16_667, 0, vec![CollisionEvent::Started(BIRD, ZONE)]), &registry());
    assert_eq!(game.state, GameState::Lost);
    assert_eq!(game.data.score, 7);
    assert_eq!(game.pipes, pipes);
    assert_eq!(game.bird.y, 64_000_000);
    assert_eq!(report, TickReport { started: false, reset: false, scored: 0, crashed: false });
}

#[test]
fn score_never_falls_within_an_episode_and_moves_only_while_playing() {
    fastrand::seed(6);
    let bodies = registry();
    let mut game = Game::new();
    let mut step: u32 = 0;
    let mut seen_playing = false;
    let mut seen_lost = false;
    while step < 2_000 {
        step += 1;
        let events = if step % 7 == 0 {
            vec![CollisionEvent::Started(BIRD, ZONE)]
        } else if step % 401 == 0 {
            vec![CollisionEvent::Started(BIRD, PIPE)]
        } else {
            Vec::new()
        };
        // No tap while lost, so that no new episode starts.
        let taps =
            if game.state != GameState::Lost && step % 25 == 1 { 1 } else { 0 };
        let before = game;
        game.tick(&input(16_667, taps, events), &bodies);
        assert!(game.data.score >= before.data.score);
        if game.data.score != before.data.score {
            assert!(before.state == GameState::Playing || (before.state == GameState::Ready && taps > 0));
            assert_eq!(game.data.score, before.data.score + 1);
        }
        assert!(-90_000_000 <= game.bird.angle && game.bird.angle <= 30_000_000);
        assert!(64_000_000 <= game.bird.y && game.bird.y <= 313_000_000);
        for pair in game.pipes.iter() {
            assert!(117_000_000 <= pair.y && pair.y <= 267_000_000);
            assert_eq!(pair.y % 1_000_000, 0);
            assert!(-30_000_000 <= pair.x && pair.x <= 320_000_000);
        }
        seen_playing = seen_playing || game.state == GameState::Playing;
        seen_lost = seen_lost || game.state == GameState::Lost;
    }
    assert!(seen_playing && seen_lost);
    assert!(game.data.score > 0);
}

#[test]
fn a_run_repeats_with_the_seed() {
    let bodies = registry();
    let mut outcomes = Vec::new();
    for _ in 0..2 {
        fastrand::seed(99);
        let mut game = Game::new();
        for step in 0..1_500u32 {
            let taps = if step % 30 == 0 { 1 } else { 0 };
            game.tick(&input(16_667, taps, Vec::new()), &bodies);
        }
        outcomes.push(game);
    }
    assert_eq!(outcomes[0], outcomes[1]);
}

#[test]
fn entering_lost_shakes_the_camera() {
    let mut shake = CameraShake::default();
    enter_lost(&mut shake);
    assert_eq!(shake.trauma, 400_000);
    enter_lost(&mut shake);
    enter_lost(&mut shake);
    assert_eq!(shake.trauma, 1_000_000);
    assert_eq!(shake.decay, 1_000_000);
}
