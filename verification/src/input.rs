//! Turning the raw input of a frame into a tap.

use vstd::prelude::*;

verus! {

/// What the input devices and the overlay report for one frame.
#[derive(Clone, Copy, Debug, PartialEq, Eq, Structural)]
pub struct TapInput {
    /// The overlay has the keyboard focus.
    pub wants_keyboard_input: bool,
    /// The overlay takes the pointer.
    pub wants_pointer_input: bool,
    /// The space bar went down in this frame.
    pub space_just_pressed: bool,
    /// The left mouse button went down in this frame.
    pub left_button_just_pressed: bool,
    /// Number of touches that began in this frame.
    pub touches_just_pressed: usize,
}

/// A frame holds a tap when a key press, a click or a touch began in it
/// that the overlay does not claim. However many began, it is one tap.
pub open spec fn is_tap(input: TapInput) -> bool {
    ||| !input.wants_keyboard_input && input.space_just_pressed
    ||| !input.wants_pointer_input && input.left_button_just_pressed
    ||| !input.wants_pointer_input && input.touches_just_pressed > 0
}

/// Tells whether the frame holds a tap.
pub fn check_tap_input(input: &TapInput) -> (tapped: bool)
    ensures
        tapped == is_tap(*input),
{
    let keyboard_input = !input.wants_keyboard_input && input.space_just_pressed;
    let mouse_input = !input.wants_pointer_input && input.left_button_just_pressed;
    let touch_input = !input.wants_pointer_input && input.touches_just_pressed > 0;
    keyboard_input || mouse_input || touch_input
}

} // verus!
