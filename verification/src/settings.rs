//! Per-session tunables.
//!
//! All fields are fixed-point scalars (see `fixed`). They are chosen once at
//! startup and never change afterwards; every per-tick entry point takes them
//! by reference.

use vstd::prelude::*;
use crate::fixed::{SCALE, TURN};

verus! {

/// Largest look sensitivity a well-formed `Settings` may carry.
pub const SENSITIVITY_LIMIT: i64 = 1_000 * SCALE;

/// Largest speed-like tunable (max speed, float height, jump height, zoom
/// step) a well-formed `Settings` may carry.
pub const SPEED_LIMIT: i64 = 1_000 * SCALE;

/// Longest tick duration, in micro-seconds, a camera update accepts.
pub const TICK_LIMIT: i64 = 10 * SCALE;

/// Largest magnitude of one raw mouse-motion delta, in micro-counts.
pub const MOUSE_DELTA_LIMIT: i64 = 1_000 * SCALE;

/// Full deflection of a gamepad stick or trigger axis, in micro-units.
pub const STICK_LIMIT: i64 = SCALE;

/// Immutable-per-session tunables of the movement and camera core.
#[derive(Clone, Copy, PartialEq, Eq, Structural, Debug)]
pub struct Settings {
    /// Look sensitivity: radians turned per input unit per second.
    pub look_sensitivity: i64,
    /// Stick magnitudes at or below this count as zero on that axis.
    pub dead_zone: i64,
    /// Magnitude of the desired horizontal velocity while moving.
    pub max_speed: i64,
    /// Hover height the locomotion controller is asked to keep.
    pub float_height: i64,
    /// Jump height forwarded while the jump control is held.
    pub jump_height: i64,
    /// Change of the orbit camera's target radius per zoom trigger tick.
    pub zoom_step: i64,
    /// Lower pitch bound of the camera arm, in micro-radians.
    pub min_pitch: i64,
    /// Upper pitch bound of the camera arm, in micro-radians.
    pub max_pitch: i64,
}

impl Settings {
    /// Bounds under which every tick's fixed-point arithmetic stays in
    /// range, and a pitch clamp range that admits the level arm.
    pub open spec fn wf(self) -> bool {
        &&& 0 <= self.look_sensitivity <= SENSITIVITY_LIMIT
        &&& 0 <= self.dead_zone <= STICK_LIMIT
        &&& 0 <= self.max_speed <= SPEED_LIMIT
        &&& 0 <= self.float_height <= SPEED_LIMIT
        &&& 0 <= self.jump_height <= SPEED_LIMIT
        &&& 0 <= self.zoom_step <= SPEED_LIMIT
        &&& -TURN < self.min_pitch
        &&& self.min_pitch <= 0 <= self.max_pitch
        &&& self.max_pitch < TURN
    }
}

/// The session defaults: sensitivity 5, dead-zone 0.01, max speed 20, float
/// height 2, jump height 15, zoom step 1.2, pitch range [-1.25, 0.25] rad.
pub open spec fn default_settings() -> Settings {
    Settings {
        look_sensitivity: 5_000_000,
        dead_zone: 10_000,
        max_speed: 20_000_000,
        float_height: 2_000_000,
        jump_height: 15_000_000,
        zoom_step: 1_200_000,
        min_pitch: -1_250_000i64,
        max_pitch: 250_000,
    }
}

impl Default for Settings {
    fn default() -> (s: Settings)
        ensures
            s == default_settings(),
            s.wf(),
    {
        Settings {
            look_sensitivity: 5_000_000,
            dead_zone: 10_000,
            max_speed: 20_000_000,
            float_height: 2_000_000,
            jump_height: 15_000_000,
            zoom_step: 1_200_000,
            min_pitch: -1_250_000,
            max_pitch: 250_000,
        }
    }
}

} // verus!
