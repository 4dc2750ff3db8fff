//! The kinematic model of the bird.
//!
//! The bird moves only vertically. While a game is on, gravity pulls its
//! speed down to a floor, a jump sets the speed outright, the ceiling stops
//! a rise, and the tilt follows the speed: nose up while rising, nose down
//! in a fast fall.

use vstd::prelude::*;
use crate::pipes::GameData;
use crate::state::GameState;
use crate::units::{clamp, clamp_to, higher, scale_by, scaled};
use crate::{GROUND_TOP, SCREEN_MID};

verus! {

/// Radius of the bird.
pub const BIRD_RADIUS: i64 = 7_000_000;

/// Horizontal position of the bird.
pub const BIRD_OFFSET_X: i64 = 30_000_000;

/// Height at which the bird waits for the first tap.
pub const BIRD_SPAWN_Y: i64 = SCREEN_MID;

/// Highest position of the bird's centre: one radius below the top.
pub const BIRD_CEILING: i64 = 313_000_000;

/// Acceleration of the fall, in whole pixels per second per second.
pub const BIRD_GRAVITY: i64 = -650;

/// Floor of the vertical speed.
pub const BIRD_MAX_FALL_SPEED: i64 = -400_000_000;

/// Vertical speed right after a jump.
pub const BIRD_JUMP_SPEED: i64 = 230_000_000;

/// Speed below which the bird tilts nose down.
pub const BIRD_DIVE_SPEED: i64 = -110_000_000;

/// Turning rate while rising, in whole degrees per second.
pub const BIRD_TILT_UP_RATE: i64 = 600;

/// Turning rate in a dive, in whole degrees per second.
pub const BIRD_TILT_DOWN_RATE: i64 = 480;

/// Largest nose-up tilt.
pub const BIRD_MAX_TILT: i64 = 30_000_000;

/// Largest nose-down tilt.
pub const BIRD_MIN_TILT: i64 = -90_000_000;

/// The bird: its vertical speed, its tilt and its position.
#[derive(Clone, Copy, Debug, PartialEq, Eq, Structural)]
pub struct Bird {
    /// Vertical speed, upward positive.
    pub speed: i64,
    /// Tilt, nose up positive.
    pub angle: i64,
    /// Horizontal position.
    pub x: i64,
    /// Height of the centre.
    pub y: i64,
}

/// The bird at rest at its spawn position.
pub open spec fn at_rest() -> Bird {
    Bird { speed: 0, angle: 0, x: BIRD_OFFSET_X, y: BIRD_SPAWN_Y }
}

/// A tap makes the bird jump only while the game is on.
pub open spec fn jumps(tapped: bool, state: GameState) -> bool {
    tapped && state == GameState::Playing
}

/// Speed after `dt` microseconds: the jump speed on a jump, else the old
/// speed pulled down by gravity, but not below the floor.
pub open spec fn speed_after(speed: int, dt: int, jumped: bool) -> int {
    if jumped {
        BIRD_JUMP_SPEED as int
    } else {
        higher(speed + BIRD_GRAVITY * dt, BIRD_MAX_FALL_SPEED as int)
    }
}

/// Height that moving at `speed` for `dt` microseconds leads to, before the
/// ground and the ceiling are taken into account.
pub open spec fn raw_height(y: int, speed: int, dt: int) -> int {
    y + scaled(speed, dt)
}

/// Tilt after `dt` microseconds at `speed`: turned nose up while rising,
/// nose down in a dive, and kept within its limits.
pub open spec fn tilt_after(angle: int, speed: int, dt: int) -> int {
    clamp(
        if speed > 0 {
            angle + BIRD_TILT_UP_RATE * dt
        } else if speed < BIRD_DIVE_SPEED {
            angle - BIRD_TILT_DOWN_RATE * dt
        } else {
            angle
        },
        BIRD_MIN_TILT as int,
        BIRD_MAX_TILT as int,
    )
}

/// Speed kept after the move: a bird that would pass the ceiling stops.
pub open spec fn speed_kept(raw: int, speed: int) -> int {
    if raw > BIRD_CEILING {
        0
    } else {
        speed
    }
}

/// The bird after one tick of `dt` microseconds in `state`. In `Ready` it
/// is held at rest at its spawn position. Otherwise the speed changes
/// first, the position follows the new speed and is kept between the
/// ground and the ceiling, and the tilt follows the speed that is left.
pub open spec fn updated(bird: Bird, dt: int, tapped: bool, state: GameState) -> Bird {
    if state == GameState::Ready {
        at_rest()
    } else {
        let speed = speed_after(bird.speed as int, dt, jumps(tapped, state));
        let raw = raw_height(bird.y as int, speed, dt);
        let kept = speed_kept(raw, speed);
        Bird {
            speed: kept as i64,
            angle: tilt_after(bird.angle as int, kept, dt) as i64,
            x: bird.x,
            y: clamp(raw, GROUND_TOP as int, BIRD_CEILING as int) as i64,
        }
    }
}

/// The bird with its speed replaced.
pub open spec fn with_speed(bird: Bird, speed: i64) -> Bird {
    Bird { speed, angle: bird.angle, x: bird.x, y: bird.y }
}

/// Whatever the bird, the time step, the input and the state were, after an
/// update the tilt lies within its limits, the height between the ground
/// and the ceiling, and the speed is the one the rules give.
pub proof fn lemma_updated_within_limits(bird: Bird, dt: int, tapped: bool, state: GameState)
    requires
        0 <= dt,
    ensures
        BIRD_MIN_TILT <= updated(bird, dt, tapped, state).angle <= BIRD_MAX_TILT,
        GROUND_TOP <= updated(bird, dt, tapped, state).y <= BIRD_CEILING,
        state != GameState::Ready ==> updated(bird, dt, tapped, state).speed == speed_kept(
            raw_height(
                bird.y as int,
                speed_after(bird.speed as int, dt, jumps(tapped, state)),
                dt,
            ),
            speed_after(bird.speed as int, dt, jumps(tapped, state)),
        ),
        state != GameState::Ready ==> updated(bird, dt, tapped, state).speed
            >= BIRD_MAX_FALL_SPEED,
{
    if state != GameState::Ready {
        let speed = speed_after(bird.speed as int, dt, jumps(tapped, state));
        assert(BIRD_GRAVITY * dt <= 0);
        assert(BIRD_MAX_FALL_SPEED <= speed <= higher(bird.speed as int, BIRD_JUMP_SPEED as int));
    }
}

impl Bird {
    /// The bird at rest at its spawn position.
    pub fn new() -> (bird: Bird)
        ensures
            bird == at_rest(),
    {
        Bird { speed: 0, angle: 0, x: BIRD_OFFSET_X, y: BIRD_SPAWN_Y }
    }

    /// Advances the bird by one tick of `dt` microseconds. `tapped` says
    /// whether a tap arrived in this tick; it makes the bird jump only
    /// while `state` is `Playing`.
    pub fn update(&mut self, dt: u32, tapped: bool, state: GameState)
        ensures
            *final(self) == updated(*old(self), dt as int, tapped, state),
            BIRD_MIN_TILT <= final(self).angle <= BIRD_MAX_TILT,
            GROUND_TOP <= final(self).y <= BIRD_CEILING,
    {
        if state == GameState::Ready {
            *self = Bird::new();
            return ;
        }
        let jumped = tapped && state == GameState::Playing;
        let speed: i64 = if jumped {
            BIRD_JUMP_SPEED
        } else {
            let fallen: i128 = self.speed as i128 + (BIRD_GRAVITY as i128) * (dt as i128);
            if fallen < BIRD_MAX_FALL_SPEED as i128 {
                BIRD_MAX_FALL_SPEED
            } else {
                fallen as i64
            }
        };
        let raw: i128 = self.y as i128 + scale_by(speed, dt);
        let kept: i64 = if raw > BIRD_CEILING as i128 {
            0
        } else {
            speed
        };
        let turned: i128 = if kept > 0 {
            self.angle as i128 + (BIRD_TILT_UP_RATE as i128) * (dt as i128)
        } else if kept < BIRD_DIVE_SPEED {
            self.angle as i128 - (BIRD_TILT_DOWN_RATE as i128) * (dt as i128)
        } else {
            self.angle as i128
        };
        self.speed = kept;
        self.angle = clamp_to(turned, BIRD_MIN_TILT, BIRD_MAX_TILT);
        self.y = clamp_to(raw, GROUND_TOP, BIRD_CEILING);
    }
}

/// Advances the bird by one tick: nothing moves in `Ready`, a tap is a jump
/// only in `Playing`, and in `Lost` the bird keeps falling.
pub fn bird_movement(state: GameState, tapped: bool, dt: u32, bird: &mut Bird)
    ensures
        *final(bird) == updated(*old(bird), dt as int, tapped, state),
        BIRD_MIN_TILT <= final(bird).angle <= BIRD_MAX_TILT,
        GROUND_TOP <= final(bird).y <= BIRD_CEILING,
{
    bird.update(dt, tapped, state);
}

/// Starts a new episode for the bird and the score: the score returns to
/// zero and the bird to rest at its spawn position.
pub fn reset_bird(bird: &mut Bird, data: &mut GameData)
    ensures
        *final(bird) == at_rest(),
        final(data).score == 0,
        final(data).last_pipe_y == old(data).last_pipe_y,
{
    data.score = 0;
    bird.speed = 0;
    bird.angle = 0;
    bird.x = BIRD_OFFSET_X;
    bird.y = BIRD_SPAWN_Y;
}

/// The first flap: entering `Playing` sets the jump speed.
pub fn enter_playing(bird: &mut Bird)
    ensures
        *final(bird) == with_speed(*old(bird), BIRD_JUMP_SPEED),
{
    bird.speed = BIRD_JUMP_SPEED;
}

/// Leaving `Playing` freezes the bird: its speed becomes zero.
pub fn exit_playing(bird: &mut Bird)
    ensures
        *final(bird) == with_speed(*old(bird), 0),
{
    bird.speed = 0;
}

} // verus!
