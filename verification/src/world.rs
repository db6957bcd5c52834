//! One tick of the whole core, in its fixed order.
//!
//! The per-tick state a single local player owns: camera rig, orbit camera,
//! pointer capture, and the position read back from the physics engine. Each
//! tick runs the components in a fixed order — pointer capture, locomotion
//! intent (over the yaw the tick began with), camera rig, zoom, recenter,
//! respawn guard — and returns the commands the external collaborators are
//! to carry out.

use vstd::prelude::*;
use crate::cursor::{cursor_command, cursor_next, cursor_tick, CursorCommand, CursorState};
use crate::input::{click_edge, escape_edge, jump_held, recenter_edge, InputSnapshot};
use crate::locomotion::{locomotion_tick, planar_intent_spec, JumpCommand, WalkCommand};
use crate::orbit::{
    orbit_startup, reset_orbit_spec, zoom_in_held, zoom_out_held, zoom_spec, zoom_tick,
    OrbitCamera,
};
use crate::respawn::{respawn_spec, respawn_tick, spawn_point, Vec3Fx};
use crate::rig::{camera_tick, camera_tick_spec, CameraRig};
use crate::settings::{Settings, TICK_LIMIT};

verus! {

/// Everything of the player this core owns or mirrors between ticks.
#[derive(Debug)]
pub struct PlayerWorld {
    pub rig: CameraRig,
    pub orbit: OrbitCamera,
    pub cursor: CursorState,
    /// Player position as last read back from the physics engine.
    pub position: Vec3Fx,
}

/// The state at startup: player at the spawn point facing forward, arm
/// level, orbit camera at its defaults, cursor released.
pub open spec fn startup_spec() -> PlayerWorld {
    PlayerWorld {
        rig: CameraRig { yaw: 0, pitch: 0 },
        orbit: crate::orbit::orbit_default(),
        cursor: CursorState::Released,
        position: spawn_point(),
    }
}

impl PlayerWorld {
    pub open spec fn inv(self, s: Settings) -> bool {
        self.rig.inv(s)
    }

    /// Builds the startup state.
    pub fn startup() -> (w: PlayerWorld)
        ensures
            w == startup_spec(),
    {
        PlayerWorld {
            rig: CameraRig { yaw: 0, pitch: 0 },
            orbit: orbit_startup(),
            cursor: CursorState::Released,
            position: Vec3Fx { x: 0, y: crate::respawn::SPAWN_HEIGHT, z: 0 },
        }
    }
}

/// The commands one tick asks the external collaborators to carry out.
#[derive(Debug)]
pub struct TickCommands {
    /// Basis for the locomotion controller, every tick.
    pub walk: WalkCommand,
    /// Action for the locomotion controller while jump is held.
    pub jump: Option<JumpCommand>,
    /// Cursor-mode change for the windowing layer, on a capture transition.
    pub cursor_cmd: Option<CursorCommand>,
}

/// Runs one tick over the player's state, exactly in the fixed order: the
/// pointer-capture machine steps first (so a click's grab admits the same
/// tick's mouse deltas), the locomotion intent is built over the yaw the
/// tick began with, then the camera rig turns, the triggers zoom, the
/// recenter edge resets, and the respawn guard checks the position.
pub fn world_tick(w: &mut PlayerWorld, input: &InputSnapshot, dt: i64, s: &Settings) -> (out:
    TickCommands)
    requires
        s.wf(),
        old(w).inv(*s),
        input.wf(),
        0 <= dt <= TICK_LIMIT,
    ensures
        final(w).inv(*s),
        final(w).cursor == cursor_next(old(w).cursor, click_edge(*input), escape_edge(*input)),
        out.cursor_cmd == cursor_command(old(w).cursor, click_edge(*input), escape_edge(*input)),
        out.walk.intent == planar_intent_spec(*input, *s),
        out.walk.yaw == old(w).rig.yaw,
        out.walk.float_height == s.float_height,
        out.jump == (if jump_held(*input) {
            Some(JumpCommand { height: s.jump_height })
        } else {
            None::<JumpCommand>
        }),
        ({
            let cam = camera_tick_spec(
                old(w).rig,
                *input,
                cursor_next(old(w).cursor, click_edge(*input), escape_edge(*input)),
                dt as int,
                *s,
            );
            &&& final(w).rig.yaw as int == cam.0
            &&& final(w).rig.pitch as int == (if recenter_edge(*input) {
                0int
            } else {
                cam.1
            })
        }),
        final(w).orbit == reset_orbit_spec(
            OrbitCamera {
                enabled: old(w).orbit.enabled,
                target_radius: zoom_spec(
                    old(w).orbit.target_radius as int,
                    zoom_in_held(*input),
                    zoom_out_held(*input),
                    s.zoom_step as int,
                ) as i64,
                offset: old(w).orbit.offset,
            },
            recenter_edge(*input),
        ),
        final(w).position == respawn_spec(old(w).position),
{
    let (click, esc): (bool, bool) = match input {
        InputSnapshot::KeyboardMouse(km) => (km.click_edge, km.escape_edge),
        InputSnapshot::Gamepad(_) => (false, false),
    };
    let recenter: bool = match input {
        InputSnapshot::KeyboardMouse(_) => false,
        InputSnapshot::Gamepad(g) => g.recenter_edge,
    };
    let cursor_cmd: Option<CursorCommand> = cursor_tick(&mut w.cursor, click, esc);
    let (walk, jump): (WalkCommand, Option<JumpCommand>) = locomotion_tick(input, w.rig.yaw, s);
    camera_tick(&mut w.rig, input, w.cursor, dt, s);
    zoom_tick(&mut w.orbit, input, s);
    crate::orbit::reset_tick(&mut w.rig, &mut w.orbit, recenter);
    respawn_tick(&mut w.position);
    TickCommands { walk, jump, cursor_cmd }
}

} // verus!
