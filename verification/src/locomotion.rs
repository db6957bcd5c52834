//! Locomotion intent builder.
//!
//! Each tick the builder turns the input snapshot into a desired ground-plane
//! velocity in the player's local frame, plus a jump request. Keyboard keys
//! give a unit direction (diagonals normalized, so diagonal speed equals axis
//! speed) scaled by the max speed; gamepad stick values pass a dead-zone per
//! axis and are scaled unnormalized, an intentional asymmetry. The command
//! carries the player's yaw: the locomotion controller receives the local
//! vector rotated into world space by that yaw, a rotation the embedding
//! performs because it is trigonometric.

use vstd::prelude::*;
use crate::fixed::{abs_val, fp_mul, fp_mul_spec, SCALE};
use crate::input::{
    apply_dead_zone, dead_zone_spec, jump_held, GamepadSnapshot, InputSnapshot, KeyState,
};
use crate::settings::{Settings, SPEED_LIMIT, STICK_LIMIT};

verus! {

/// Desired ground-plane velocity in the player's local frame.
///
/// `Stop` is the zero vector. `Unit` is the direction `(x, z)` normalized to
/// length one and scaled by the max speed, so its magnitude is exactly the
/// max speed. `Analog` carries the velocity components themselves, in
/// micro-units per second.
#[derive(Clone, Copy, PartialEq, Eq, Structural, Debug)]
pub enum PlanarIntent {
    Stop,
    Unit { x: i64, z: i64 },
    Analog { vx: i64, vz: i64 },
}

impl PlanarIntent {
    pub open spec fn wf(self) -> bool {
        match self {
            PlanarIntent::Stop => true,
            PlanarIntent::Unit { x, z } => {
                &&& -1 <= x <= 1
                &&& -1 <= z <= 1
                &&& !(x == 0 && z == 0)
            },
            PlanarIntent::Analog { vx, vz } => {
                &&& abs_val(vx as int) <= SPEED_LIMIT
                &&& abs_val(vz as int) <= SPEED_LIMIT
            },
        }
    }
}

/// The squared magnitude of the intent's velocity, in squared micro-units: a
/// normalized unit direction at `max_speed` squares to `max_speed * max_speed`
/// whatever its heading, analog components square componentwise.
pub open spec fn speed_sq(i: PlanarIntent, max_speed: int) -> int {
    match i {
        PlanarIntent::Stop => 0,
        PlanarIntent::Unit { .. } => max_speed * max_speed,
        PlanarIntent::Analog { vx, vz } => vx * vx + vz * vz,
    }
}

/// Whether any planar movement key is held.
pub open spec fn any_move_key(k: KeyState) -> bool {
    k.forward || k.back || k.left || k.right
}

/// The keyboard direction on the sideways axis: the right key wins over the
/// left when both are held (last write wins, opposing keys do not cancel).
pub open spec fn key_axis_x(k: KeyState) -> int {
    if k.right {
        1
    } else if k.left {
        -1
    } else {
        0
    }
}

/// The keyboard direction on the depth axis (forward is negative): the back
/// key wins over forward when both are held.
pub open spec fn key_axis_z(k: KeyState) -> int {
    if k.back {
        1
    } else if k.forward {
        -1
    } else {
        0
    }
}

/// The keyboard planar intent: no keys give the zero vector, anything else a
/// unit direction later scaled by the max speed.
pub open spec fn keyboard_intent_spec(k: KeyState) -> PlanarIntent {
    if key_axis_x(k) == 0 && key_axis_z(k) == 0 {
        PlanarIntent::Stop
    } else {
        PlanarIntent::Unit { x: key_axis_x(k) as i64, z: key_axis_z(k) as i64 }
    }
}

/// The gamepad planar intent: each left-stick axis passes the dead-zone, the
/// stick's vertical axis maps to negative depth, and both components are
/// scaled by the max speed without normalization.
pub open spec fn gamepad_intent_spec(g: GamepadSnapshot, s: Settings) -> PlanarIntent {
    PlanarIntent::Analog {
        vx: fp_mul_spec(dead_zone_spec(g.left_x as int, s.dead_zone as int), s.max_speed as int)
            as i64,
        vz: fp_mul_spec(-dead_zone_spec(g.left_y as int, s.dead_zone as int), s.max_speed as int)
            as i64,
    }
}

/// The planar intent of whichever input source is active.
pub open spec fn planar_intent_spec(input: InputSnapshot, s: Settings) -> PlanarIntent {
    match input {
        InputSnapshot::KeyboardMouse(km) => keyboard_intent_spec(km.keys),
        InputSnapshot::Gamepad(g) => gamepad_intent_spec(g, s),
    }
}

/// Per-tick basis handed to the locomotion controller: the local-frame
/// desired velocity, the player yaw that rotates it into world space, and the
/// float height to hover at.
#[derive(Clone, Copy, PartialEq, Eq, Structural, Debug)]
pub struct WalkCommand {
    pub intent: PlanarIntent,
    /// Player yaw in micro-radians at the time the intent was built.
    pub yaw: i64,
    pub float_height: i64,
}

/// Per-tick action handed to the locomotion controller while jump is held.
#[derive(Clone, Copy, PartialEq, Eq, Structural, Debug)]
pub struct JumpCommand {
    pub height: i64,
}

/// Builds one keyboard planar intent, exactly as `keyboard_intent_spec` says.
pub fn keyboard_intent(k: &KeyState) -> (i: PlanarIntent)
    ensures
        i == keyboard_intent_spec(*k),
        i.wf(),
{
    let mut x: i64 = 0;
    let mut z: i64 = 0;
    if k.left {
        x = -1;
    }
    if k.right {
        x = 1;
    }
    if k.forward {
        z = -1;
    }
    if k.back {
        z = 1;
    }
    if x == 0 && z == 0 {
        PlanarIntent::Stop
    } else {
        PlanarIntent::Unit { x, z }
    }
}

/// Builds one gamepad planar intent, exactly as `gamepad_intent_spec` says.
pub fn gamepad_intent(g: &GamepadSnapshot, s: &Settings) -> (i: PlanarIntent)
    requires
        s.wf(),
        g.wf(),
    ensures
        i == gamepad_intent_spec(*g, *s),
        i.wf(),
{
    let x: i64 = apply_dead_zone(g.left_x, s.dead_zone);
    let zf: i64 = apply_dead_zone(g.left_y, s.dead_zone);
    proof {
        crate::fixed::lemma_fp_mul_bound(x as int, s.max_speed as int, STICK_LIMIT as int, SPEED_LIMIT as int);
        crate::fixed::lemma_fp_mul_bound(-(zf as int), s.max_speed as int, STICK_LIMIT as int, SPEED_LIMIT as int);
    }
    let vx: i64 = fp_mul(x, s.max_speed);
    let vz: i64 = fp_mul(-zf, s.max_speed);
    PlanarIntent::Analog { vx, vz }
}

/// Builds the tick's locomotion commands: the walk basis always, the jump
/// action exactly while the jump control is held.
pub fn locomotion_tick(input: &InputSnapshot, yaw: i64, s: &Settings) -> (out: (
    WalkCommand,
    Option<JumpCommand>,
))
    requires
        s.wf(),
        input.wf(),
    ensures
        out.0.intent == planar_intent_spec(*input, *s),
        out.0.intent.wf(),
        out.0.yaw == yaw,
        out.0.float_height == s.float_height,
        out.1 == if jump_held(*input) {
            Some(JumpCommand { height: s.jump_height })
        } else {
            None::<JumpCommand>
        },
{
    let intent: PlanarIntent = match input {
        InputSnapshot::KeyboardMouse(km) => keyboard_intent(&km.keys),
        InputSnapshot::Gamepad(g) => gamepad_intent(g, s),
    };
    let held: bool = match input {
        InputSnapshot::KeyboardMouse(km) => km.jump_held,
        InputSnapshot::Gamepad(g) => g.jump_held,
    };
    let jump: Option<JumpCommand> = if held {
        Some(JumpCommand { height: s.jump_height })
    } else {
        None
    };
    (WalkCommand { intent, yaw, float_height: s.float_height }, jump)
}

/// Law: diagonal normalization. For every combination of movement keys the
/// keyboard intent's squared magnitude is exactly the squared max speed when
/// any key is held — one key or two orthogonal keys alike — and zero when
/// none is.
pub proof fn lemma_keyboard_speed(k: KeyState, max_speed: int)
    ensures
        any_move_key(k) ==> speed_sq(keyboard_intent_spec(k), max_speed) == max_speed * max_speed,
        !any_move_key(k) ==> speed_sq(keyboard_intent_spec(k), max_speed) == 0,
{
}

/// Law: the dead-zone boundary is inclusive. A left-stick axis whose
/// magnitude is at most the dead-zone contributes an exactly zero velocity
/// component, and one beyond it contributes its unnormalized scaling.
pub proof fn lemma_dead_zone_boundary(g: GamepadSnapshot, s: Settings)
    requires
        s.wf(),
        g.wf(),
    ensures
        gamepad_intent_spec(g, s) matches PlanarIntent::Analog { vx, vz } ==> {
            &&& abs_val(g.left_x as int) <= s.dead_zone ==> vx == 0
            &&& abs_val(g.left_y as int) <= s.dead_zone ==> vz == 0
            &&& abs_val(g.left_x as int) > s.dead_zone ==> vx as int == fp_mul_spec(
                g.left_x as int,
                s.max_speed as int,
            )
            &&& abs_val(g.left_y as int) > s.dead_zone ==> vz as int == fp_mul_spec(
                -(g.left_y as int),
                s.max_speed as int,
            )
        },
{
    vstd::arithmetic::mul::lemma_mul_by_zero_is_zero(abs_val(s.max_speed as int));
    vstd::arithmetic::div_mod::lemma_div_of0(SCALE as int);
    assert(fp_mul_spec(0, s.max_speed as int) == 0);
    crate::fixed::lemma_fp_mul_bound(
        g.left_x as int,
        s.max_speed as int,
        STICK_LIMIT as int,
        SPEED_LIMIT as int,
    );
    crate::fixed::lemma_fp_mul_bound(
        -(g.left_y as int),
        s.max_speed as int,
        STICK_LIMIT as int,
        SPEED_LIMIT as int,
    );
}

} // verus!
