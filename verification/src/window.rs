//! The window: its saved place and scale, and the size that follows from
//! the scale.

use vstd::prelude::*;
use crate::DEFAULT_SCALE;

verus! {

/// Width of the playing field in whole pixels.
pub const GAME_WIDTH_PIXELS: u32 = 180;

/// Height of the playing field in whole pixels.
pub const GAME_HEIGHT_PIXELS: u32 = 320;

/// Where the window was and how much it was enlarged when the program was
/// last closed.
#[derive(Clone, Copy, Debug, PartialEq, Eq)]
pub struct SavedWindowState {
    /// Position of the window on the desktop, if it was known.
    pub position: Option<(i32, i32)>,
    /// Number of screen pixels per pixel of the playing field.
    pub scale: u8,
}

/// The scale of the window in use.
#[derive(Clone, Copy, Debug, PartialEq, Eq, Structural)]
pub struct WindowScale(pub u8);

impl Default for SavedWindowState {
    /// No known position, and the default scale.
    fn default() -> (state: SavedWindowState)
        ensures
            state.position.is_none(),
            state.scale == DEFAULT_SCALE,
    {
        SavedWindowState { position: None, scale: DEFAULT_SCALE }
    }
}

/// Size of the window at `scale`: the playing field, enlarged.
pub fn window_resolution(scale: u8) -> (size: (u32, u32))
    ensures
        size.0 == GAME_WIDTH_PIXELS * scale,
        size.1 == GAME_HEIGHT_PIXELS * scale,
{
    (GAME_WIDTH_PIXELS * (scale as u32), GAME_HEIGHT_PIXELS * (scale as u32))
}

/// What is to be saved when the program is about to exit: the position of
/// the window, if it has one, with the scale in use. Nothing is saved while
/// the program runs on, nor for a window without a position.
pub fn window_state_to_save(exiting: bool, position: Option<(i32, i32)>, scale: &WindowScale) -> (saved:
    Option<SavedWindowState>)
    ensures
        saved.is_some() <==> exiting && position.is_some(),
        saved.is_some() ==> saved.unwrap().position == position && saved.unwrap().scale == scale.0,
{
    if !exiting {
        return None;
    }
    match position {
        Some(at) => Some(SavedWindowState { position: Some(at), scale: scale.0 }),
        None => None,
    }
}

} // verus!
