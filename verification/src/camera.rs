//! The trauma that drives the camera shake.
//!
//! Trauma is a level between zero and one. Events add to it, time wears it
//! off, and the strength of the shake is its square. What the shake does to
//! the picture is left to the presentation layer.

use vstd::prelude::*;
use crate::units::{clamp, clamp_to, trunc_div, UNIT};

verus! {

/// Trauma added when the bird crashes.
pub const LOST_TRAUMA: i64 = 400_000;

/// The shake of a camera.
#[derive(Clone, Copy, Debug, PartialEq, Eq, Structural)]
pub struct CameraShake {
    /// Current trauma, from zero to one.
    pub trauma: i64,
    /// Microseconds in which a trauma of one wears off.
    pub decay: i64,
    /// Largest rotation of the shake.
    pub max_angle: i64,
    /// Largest displacement of the shake.
    pub max_offset: i64,
    /// How fast the shake noise is run through.
    pub noise_scale: i64,
}

/// Trauma after `to_add` has been added: the sum, kept from zero to one.
pub open spec fn trauma_added(trauma: int, to_add: int) -> int {
    clamp(trauma + to_add, 0, UNIT as int)
}

/// Trauma after `dt` microseconds: lowered by the share `dt / decay`,
/// rounded toward zero, and kept from zero to one. A decay time of zero
/// wears all trauma off at once, and a negative one lets it grow.
pub open spec fn trauma_decayed(trauma: int, dt: int, decay: int) -> int {
    if decay > 0 {
        clamp(trauma - trunc_div(dt * UNIT, decay), 0, UNIT as int)
    } else if decay < 0 {
        clamp(trauma + trunc_div(dt * UNIT, -decay), 0, UNIT as int)
    } else {
        0
    }
}

/// Strength of the shake at `trauma`: its square, rounded toward zero.
pub open spec fn shake_value(trauma: int) -> int {
    trunc_div(trauma * trauma, UNIT as int)
}

/// The trauma that a debugging key asks for: a fifth, a half, or all of it;
/// of several keys the lowest one counts.
pub open spec fn trauma_for_keys(key1: bool, key2: bool, key3: bool) -> Option<int> {
    if key1 {
        Some(200_000int)
    } else if key2 {
        Some(500_000int)
    } else if key3 {
        Some(1_000_000int)
    } else {
        None
    }
}

impl Default for CameraShake {
    /// No trauma, a decay time of one second, and a shake that moves
    /// nothing.
    fn default() -> (shake: CameraShake)
        ensures
            shake.trauma == 0,
            shake.decay == UNIT,
            shake.max_angle == 0,
            shake.max_offset == 0,
            shake.noise_scale == 10 * UNIT,
            shake.wf(),
    {
        CameraShake {
            trauma: 0,
            decay: 1_000_000,
            max_angle: 0,
            max_offset: 0,
            noise_scale: 10_000_000,
        }
    }
}

impl CameraShake {
    /// The trauma lies between zero and one.
    pub open spec fn wf(self) -> bool {
        0 <= self.trauma <= UNIT
    }

    /// Only the trauma differs between `self` and `other`.
    pub open spec fn same_settings(self, other: CameraShake) -> bool {
        &&& self.decay == other.decay
        &&& self.max_angle == other.max_angle
        &&& self.max_offset == other.max_offset
        &&& self.noise_scale == other.noise_scale
    }

    /// Wears the trauma off for `dt` microseconds.
    pub fn decay_trauma(&mut self, dt: u32)
        ensures
            final(self).trauma == trauma_decayed(
                old(self).trauma as int,
                dt as int,
                old(self).decay as int,
            ),
            final(self).same_settings(*old(self)),
            final(self).wf(),
    {
        assert(0 <= dt * UNIT <= 4_294_967_296_000_000) by (nonlinear_arith)
            requires
                0 <= dt < 0x1_0000_0000,
                UNIT == 1_000_000,
        ;
        let span: i128 = (dt as i128) * (UNIT as i128);
        if self.decay > 0 {
            let lost: i128 = span / (self.decay as i128);
            assert(0 <= lost <= span) by (nonlinear_arith)
                requires
                    lost == (span as int) / (self.decay as int),
                    span >= 0,
                    self.decay > 0,
            ;
            self.trauma = clamp_to(self.trauma as i128 - lost, 0, UNIT);
        } else if self.decay < 0 {
            let gained: i128 = span / (-(self.decay as i128));
            assert(0 <= gained <= span) by (nonlinear_arith)
                requires
                    gained == (span as int) / (-(self.decay as int)),
                    span >= 0,
                    self.decay < 0,
            ;
            self.trauma = clamp_to(self.trauma as i128 + gained, 0, UNIT);
        } else {
            self.trauma = 0;
        }
    }

    /// Adds `to_add` to the trauma.
    pub fn add_trauma(&mut self, to_add: i64)
        ensures
            final(self).trauma == trauma_added(old(self).trauma as int, to_add as int),
            final(self).same_settings(*old(self)),
            final(self).wf(),
    {
        self.trauma = clamp_to(self.trauma as i128 + to_add as i128, 0, UNIT);
    }

    /// Strength of the shake: the square of the trauma.
    pub fn get_shake_value(&self) -> (value: i64)
        requires
            self.wf(),
        ensures
            value == shake_value(self.trauma as int),
            0 <= value <= UNIT,
    {
        assert(0 <= self.trauma * self.trauma <= UNIT * UNIT) by (nonlinear_arith)
            requires
                0 <= self.trauma <= UNIT,
        ;
        (self.trauma * self.trauma) / UNIT
    }
}

/// One frame of the shake. While there is trauma, returns the strength at
/// which the camera is to be shaken in this frame and then wears the trauma
/// off for `dt` microseconds. Without trauma, returns nothing: the camera
/// is to be put back in place.
pub fn update_camera_shake(shake: &mut CameraShake, dt: u32) -> (value: Option<i64>)
    requires
        old(shake).wf(),
    ensures
        old(shake).trauma > 0 ==> value == Some(shake_value(old(shake).trauma as int) as i64)
            && final(shake).trauma == trauma_decayed(
            old(shake).trauma as int,
            dt as int,
            old(shake).decay as int,
        ),
        old(shake).trauma <= 0 ==> value.is_none() && final(shake).trauma == old(shake).trauma,
        final(shake).same_settings(*old(shake)),
        final(shake).wf(),
{
    if shake.trauma > 0 {
        let value = shake.get_shake_value();
        shake.decay_trauma(dt);
        Some(value)
    } else {
        None
    }
}

/// Adds the trauma that the debugging keys pressed in this frame ask for,
/// unless the overlay has the keyboard focus, and tells whether it did.
pub fn check_camera_shake_input(
    shake: &mut CameraShake,
    wants_keyboard_input: bool,
    key1: bool,
    key2: bool,
    key3: bool,
) -> (added: bool)
    ensures
        added == (!wants_keyboard_input && trauma_for_keys(key1, key2, key3).is_some()),
        added ==> final(shake).trauma == trauma_added(
            old(shake).trauma as int,
            trauma_for_keys(key1, key2, key3).unwrap(),
        ),
        !added ==> final(shake).trauma == old(shake).trauma,
        final(shake).same_settings(*old(shake)),
{
    if wants_keyboard_input {
        return false;
    }
    let trauma_to_add: i64 = if key1 {
        200_000
    } else if key2 {
        500_000
    } else if key3 {
        1_000_000
    } else {
        return false;
    };
    shake.add_trauma(trauma_to_add);
    true
}

} // verus!
