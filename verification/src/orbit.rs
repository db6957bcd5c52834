//! Orbit camera state and the recenter transition.
//!
//! The optional free-look orbit camera hangs off the camera arm at a home
//! offset and keeps a target radius the external camera eases toward. The
//! core owns only these scalars: trigger axes nudge the radius by the zoom
//! step (no bound of its own — only the representation's edge saturates),
//! and the recenter button edge snaps the arm level and the orbit camera
//! back to its defaults in a single tick.

use vstd::prelude::*;
use crate::fixed::{clamp_spec, SCALE};
use crate::input::InputSnapshot;
use crate::respawn::Vec3Fx;
use crate::rig::CameraRig;
use crate::settings::Settings;

verus! {

/// Home offset of the orbit camera from the arm, in micro-units.
pub const ORBIT_HOME_Y: i64 = SCALE;

pub const ORBIT_HOME_Z: i64 = 20 * SCALE;

/// Target radius the orbit camera resets to.
pub const ORBIT_RADIUS_DEFAULT: i64 = SCALE;

/// The orbit camera's state as this core owns it: whether the external
/// free-look mode is on, its target radius, and its offset from the arm.
#[derive(Clone, Copy, PartialEq, Eq, Structural, Debug)]
pub struct OrbitCamera {
    pub enabled: bool,
    pub target_radius: i64,
    pub offset: Vec3Fx,
}

/// The documented defaults: free-look off, radius and offset at home.
pub open spec fn orbit_default() -> OrbitCamera {
    OrbitCamera {
        enabled: false,
        target_radius: ORBIT_RADIUS_DEFAULT,
        offset: Vec3Fx { x: 0, y: ORBIT_HOME_Y, z: ORBIT_HOME_Z },
    }
}

/// The orbit camera a fresh scene starts with.
pub fn orbit_startup() -> (c: OrbitCamera)
    ensures
        c == orbit_default(),
{
    OrbitCamera {
        enabled: false,
        target_radius: ORBIT_RADIUS_DEFAULT,
        offset: Vec3Fx { x: 0, y: ORBIT_HOME_Y, z: ORBIT_HOME_Z },
    }
}

/// Addition on the radius scalar, saturating at the representation's edge.
pub open spec fn sat_add_spec(a: int, b: int) -> int {
    clamp_spec(a + b, i64::MIN as int, i64::MAX as int)
}

/// Saturating addition, exactly as `sat_add_spec` says.
pub fn sat_add(a: i64, b: i64) -> (r: i64)
    ensures
        r as int == sat_add_spec(a as int, b as int),
{
    if b >= 0 {
        if a > i64::MAX - b {
            i64::MAX
        } else {
            a + b
        }
    } else {
        if a < i64::MIN - b {
            i64::MIN
        } else {
            a + b
        }
    }
}

/// Whether the zoom-in trigger is past zero this tick; a gamepad-only axis.
pub open spec fn zoom_in_held(input: InputSnapshot) -> bool {
    match input {
        InputSnapshot::KeyboardMouse(_) => false,
        InputSnapshot::Gamepad(g) => g.right_trigger > 0,
    }
}

/// Whether the zoom-out trigger is past zero this tick.
pub open spec fn zoom_out_held(input: InputSnapshot) -> bool {
    match input {
        InputSnapshot::KeyboardMouse(_) => false,
        InputSnapshot::Gamepad(g) => g.left_trigger > 0,
    }
}

/// The radius after one tick: one step out while zooming in, one step back
/// while zooming out, both when both triggers are held.
pub open spec fn zoom_spec(radius: int, zoom_in: bool, zoom_out: bool, step: int) -> int {
    let grown = if zoom_in {
        sat_add_spec(radius, step)
    } else {
        radius
    };
    if zoom_out {
        sat_add_spec(grown, -step)
    } else {
        grown
    }
}

/// Nudges the target radius by the zoom step per held trigger, exactly as
/// `zoom_spec` says; everything else of the camera is untouched, and the
/// mouse variant, which has no trigger axes, changes nothing.
pub fn zoom_tick(cam: &mut OrbitCamera, input: &InputSnapshot, s: &Settings)
    requires
        s.wf(),
    ensures
        final(cam).target_radius as int == zoom_spec(
            old(cam).target_radius as int,
            zoom_in_held(*input),
            zoom_out_held(*input),
            s.zoom_step as int,
        ),
        final(cam).enabled == old(cam).enabled,
        final(cam).offset == old(cam).offset,
        *input matches InputSnapshot::KeyboardMouse(_) ==> *final(cam) == *old(cam),
{
    match input {
        InputSnapshot::KeyboardMouse(_) => {},
        InputSnapshot::Gamepad(g) => {
            if g.right_trigger > 0 {
                cam.target_radius = sat_add(cam.target_radius, s.zoom_step);
            }
            if g.left_trigger > 0 {
                cam.target_radius = sat_add(cam.target_radius, -s.zoom_step);
            }
        },
    }
}

/// The rig after a recenter edge: the arm snaps level, the heading stays.
pub open spec fn reset_rig_spec(r: CameraRig, recenter: bool) -> CameraRig {
    if recenter {
        CameraRig { yaw: r.yaw, pitch: 0 }
    } else {
        r
    }
}

/// The orbit camera after a recenter edge: back to the defaults.
pub open spec fn reset_orbit_spec(c: OrbitCamera, recenter: bool) -> OrbitCamera {
    if recenter {
        orbit_default()
    } else {
        c
    }
}

/// On the recenter button edge, resets the camera arm to level and the orbit
/// camera to its defaults, atomically in one tick; otherwise a no-op.
pub fn reset_tick(rig: &mut CameraRig, cam: &mut OrbitCamera, recenter: bool)
    ensures
        *final(rig) == reset_rig_spec(*old(rig), recenter),
        *final(cam) == reset_orbit_spec(*old(cam), recenter),
        final(rig).yaw == old(rig).yaw,
{
    if recenter {
        rig.pitch = 0;
        cam.enabled = false;
        cam.target_radius = ORBIT_RADIUS_DEFAULT;
        cam.offset = Vec3Fx { x: 0, y: ORBIT_HOME_Y, z: ORBIT_HOME_Z };
    }
}

/// Law: however yaw, pitch, radius or the enabled flag were mutated, one
/// recenter restores the level arm and the documented orbit defaults.
pub proof fn lemma_recenter_restores_defaults(r: CameraRig, c: OrbitCamera)
    ensures
        reset_rig_spec(r, true).pitch == 0,
        reset_rig_spec(r, true).yaw == r.yaw,
        reset_orbit_spec(c, true) == orbit_default(),
{
}

} // verus!
