//! The rules of a side-scrolling arcade game in which a bird is flown
//! through gaps between pairs of pipes: the bird's vertical motion, the
//! rolling pool of pipes and the random walk of their gaps, the reading of
//! overlap events into scoring and crashing, and the machine of the three
//! game states that ties them together.
//!
//! All quantities are fixed-point integers (see [`units`]); the vertical
//! axis points up and its origin is the bottom of the screen.

use vstd::prelude::*;

pub mod bird;
pub mod camera;
pub mod collision;
pub mod game;
pub mod input;
pub mod pipes;
pub mod rng;
pub mod state;
pub mod units;
pub mod window;

verus! {

/// Width of the playing field.
pub const GAME_WIDTH: i64 = 180_000_000;

/// Height of the playing field; the top of the screen.
pub const GAME_HEIGHT: i64 = 320_000_000;

/// Vertical midpoint of the screen.
pub const SCREEN_MID: i64 = 160_000_000;

/// Height of the centre of the ground strip.
pub const GROUND_OFFSET: i64 = 32_000_000;

/// Height of the upper edge of the ground strip.
pub const GROUND_TOP: i64 = 64_000_000;

/// Window scale used when none was saved.
pub const DEFAULT_SCALE: u8 = 2;

} // verus!
