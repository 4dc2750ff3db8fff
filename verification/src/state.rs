//! The three game states and the transitions that a tap causes.

use vstd::prelude::*;
use crate::GROUND_TOP;

verus! {

/// The state of an episode. It changes only by the transitions named here
/// and by a crash while playing.
#[derive(Clone, Copy, Debug, PartialEq, Eq, Hash, Structural)]
pub enum GameState {
    /// Waiting for the first tap, the bird at rest at its spawn position.
    Ready,
    /// The bird flies and the pipes scroll.
    Playing,
    /// The bird has crashed and falls to the ground.
    Lost,
}

/// Whether a tap in `state`, with the bird at height `y`, starts a new
/// episode: only a lost game whose bird has reached the ground is reset.
pub open spec fn resets_on_tap(state: GameState, tapped: bool, y: int) -> bool {
    tapped && state == GameState::Lost && y <= GROUND_TOP
}

/// Whether a tap in `state` starts the flight.
pub open spec fn starts_on_tap(state: GameState, tapped: bool) -> bool {
    tapped && state == GameState::Ready
}

/// The state that a tap leads to, if it leads anywhere: from `Ready` to
/// `Playing`; from `Lost` to `Ready` once the bird lies on the ground;
/// nowhere while playing, and nowhere without a tap.
pub open spec fn transition_on_tap(state: GameState, tapped: bool, y: int) -> Option<GameState> {
    if starts_on_tap(state, tapped) {
        Some(GameState::Playing)
    } else if resets_on_tap(state, tapped, y) {
        Some(GameState::Ready)
    } else {
        None
    }
}

/// The state in force once the taps of a tick have been handled.
pub open spec fn state_after_taps(state: GameState, tapped: bool, y: int) -> GameState {
    match transition_on_tap(state, tapped, y) {
        Some(next) => next,
        None => state,
    }
}

impl Default for GameState {
    /// An episode begins in `Ready`.
    fn default() -> (state: GameState)
        ensures
            state == GameState::Ready,
    {
        GameState::Ready
    }
}

/// Decides which state, if any, the taps of this tick lead to, given the
/// current state and the height of the bird.
pub fn check_state_transition(state: GameState, tapped: bool, bird_y: i64) -> (next: Option<
    GameState,
>)
    ensures
        next == transition_on_tap(state, tapped, bird_y as int),
{
    if !tapped {
        return None;
    }
    match state {
        GameState::Ready => Some(GameState::Playing),
        GameState::Lost => {
            if bird_y <= GROUND_TOP {
                Some(GameState::Ready)
            } else {
                None
            }
        },
        GameState::Playing => None,
    }
}

} // verus!
