//! Per-tick input snapshots.
//!
//! The windowing layer reads devices once per tick and hands the core one
//! `InputSnapshot`: either keyboard-and-mouse or gamepad, chosen at startup.
//! Axis values are fixed-point scalars with `STICK_LIMIT` as full deflection;
//! mouse motion arrives as the tick's drained event queue, one delta per
//! event. Buttons that say "edge" are press edges, the rest are held states.

use vstd::prelude::*;
use crate::fixed::abs_val;
use crate::settings::{MOUSE_DELTA_LIMIT, STICK_LIMIT};

verus! {

/// One mouse-motion event: horizontal and vertical counts, in micro-counts.
#[derive(Clone, Copy, PartialEq, Eq, Structural, Debug)]
pub struct MouseDelta {
    pub dx: i64,
    pub dy: i64,
}

impl MouseDelta {
    pub open spec fn wf(self) -> bool {
        &&& abs_val(self.dx as int) <= MOUSE_DELTA_LIMIT
        &&& abs_val(self.dy as int) <= MOUSE_DELTA_LIMIT
    }
}

/// Held state of the four planar movement keys.
#[derive(Clone, Copy, PartialEq, Eq, Structural, Debug)]
pub struct KeyState {
    pub forward: bool,
    pub back: bool,
    pub left: bool,
    pub right: bool,
}

/// Keyboard-and-mouse snapshot for one tick.
#[derive(Debug)]
pub struct KeyboardMouse {
    pub keys: KeyState,
    /// The tick's drained mouse-motion events, oldest first.
    pub mouse_deltas: Vec<MouseDelta>,
    /// Jump key held.
    pub jump_held: bool,
    /// Left mouse button press edge.
    pub click_edge: bool,
    /// Escape key press edge.
    pub escape_edge: bool,
}

impl KeyboardMouse {
    pub open spec fn wf(self) -> bool {
        forall|i: int| 0 <= i < self.mouse_deltas@.len() ==> (#[trigger] self.mouse_deltas@[i]).wf()
    }
}

/// Gamepad snapshot for one tick.
#[derive(Clone, Copy, PartialEq, Eq, Structural, Debug)]
pub struct GamepadSnapshot {
    /// Left stick, planar movement.
    pub left_x: i64,
    pub left_y: i64,
    /// Right stick, camera look.
    pub right_x: i64,
    pub right_y: i64,
    /// Trigger axes, zoom in and out.
    pub right_trigger: i64,
    pub left_trigger: i64,
    /// South button held.
    pub jump_held: bool,
    /// Right thumb-stick button press edge.
    pub recenter_edge: bool,
}

impl GamepadSnapshot {
    pub open spec fn wf(self) -> bool {
        &&& abs_val(self.left_x as int) <= STICK_LIMIT
        &&& abs_val(self.left_y as int) <= STICK_LIMIT
        &&& abs_val(self.right_x as int) <= STICK_LIMIT
        &&& abs_val(self.right_y as int) <= STICK_LIMIT
        &&& abs_val(self.right_trigger as int) <= STICK_LIMIT
        &&& abs_val(self.left_trigger as int) <= STICK_LIMIT
    }
}

/// The input source chosen at startup, read once per tick.
#[derive(Debug)]
pub enum InputSnapshot {
    KeyboardMouse(KeyboardMouse),
    Gamepad(GamepadSnapshot),
}

impl InputSnapshot {
    pub open spec fn wf(self) -> bool {
        match self {
            InputSnapshot::KeyboardMouse(km) => km.wf(),
            InputSnapshot::Gamepad(g) => g.wf(),
        }
    }
}

/// An axis value after the dead-zone: magnitudes at or below `dead_zone`
/// become exactly zero, anything larger passes unchanged. Every analog stick
/// axis — movement and look alike — passes this before it is used.
pub open spec fn dead_zone_spec(v: int, dead_zone: int) -> int {
    if abs_val(v) <= dead_zone {
        0
    } else {
        v
    }
}

/// An axis value after the dead-zone, exactly as `dead_zone_spec` says.
pub fn apply_dead_zone(v: i64, dead_zone: i64) -> (r: i64)
    requires
        0 <= dead_zone,
        i64::MIN < v,
    ensures
        r as int == dead_zone_spec(v as int, dead_zone as int),
{
    let mag: i64 = if v < 0 {
        -v
    } else {
        v
    };
    if mag <= dead_zone {
        0
    } else {
        v
    }
}

/// Whether the jump control is held this tick.
pub open spec fn jump_held(input: InputSnapshot) -> bool {
    match input {
        InputSnapshot::KeyboardMouse(km) => km.jump_held,
        InputSnapshot::Gamepad(g) => g.jump_held,
    }
}

/// Left-click press edge; only the mouse grabs the cursor.
pub open spec fn click_edge(input: InputSnapshot) -> bool {
    match input {
        InputSnapshot::KeyboardMouse(km) => km.click_edge,
        InputSnapshot::Gamepad(_) => false,
    }
}

/// Escape press edge; only the keyboard releases the cursor.
pub open spec fn escape_edge(input: InputSnapshot) -> bool {
    match input {
        InputSnapshot::KeyboardMouse(km) => km.escape_edge,
        InputSnapshot::Gamepad(_) => false,
    }
}

/// Camera recenter press edge; a gamepad-only control.
pub open spec fn recenter_edge(input: InputSnapshot) -> bool {
    match input {
        InputSnapshot::KeyboardMouse(_) => false,
        InputSnapshot::Gamepad(g) => g.recenter_edge,
    }
}

} // verus!
