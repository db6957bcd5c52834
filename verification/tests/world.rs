use player_rig::cursor::{CursorCommand, CursorState};
use player_rig::fixed::TURN;
use player_rig::input::{GamepadSnapshot, InputSnapshot, KeyState, KeyboardMouse, MouseDelta};
use player_rig::locomotion::{JumpCommand, PlanarIntent};
use player_rig::orbit::orbit_startup;
use player_rig::respawn::Vec3Fx;
use player_rig::settings::Settings;
use player_rig::world::PlayerWorld;

fn pad() -> GamepadSnapshot {
    GamepadSnapshot {
        left_x: 0,
        left_y: 0,
        right_x: 0,
        right_y: 0,
        right_trigger: 0,
        left_trigger: 0,
        jump_held: false,
        recenter_edge: false,
    }
}

fn mouse(deltas: Vec<MouseDelta>, click: bool, escape: bool) -> InputSnapshot {
    InputSnapshot::KeyboardMouse(KeyboardMouse {
        keys: KeyState { forward: false, back: false, left: false, right: false },
        mouse_deltas: deltas,
        jump_held: false,
        click_edge: click,
        escape_edge: escape,
    })
}

#[test]
fn startup_state_matches_the_scene_defaults() {
    let w = PlayerWorld::startup();
    assert_eq!(w.rig.yaw, 0);
    assert_eq!(w.rig.pitch, 0);
    assert_eq!(w.orbit, orbit_startup());
    assert_eq!(w.cursor, CursorState::Released);
    assert_eq!(w.position, Vec3Fx { x: 0, y: 5_000_000, z: 0 });
}

#[test]
fn one_gamepad_tick_moves_looks_zooms_and_respawns() {
    let s = Settings::default();
    let mut w = PlayerWorld::startup();
    w.position = Vec3Fx { x: 0, y: -25_000_000, z: 0 };
    let mut g = pad();
    g.left_x = 1_000_000;
    g.right_x = 500_000;
    g.jump_held = true;
    g.right_trigger = 1;
    let input = InputSnapshot::Gamepad(g);
    let out = player_rig::world::world_tick(&mut w, &input, 100_000, &s);
    // Walk basis over the yaw the tick began with, unnormalized full stick.
    assert_eq!(out.walk.intent, PlanarIntent::Analog { vx: 20_000_000, vz: 0 });
    assert_eq!(out.walk.yaw, 0);
    assert_eq!(out.walk.float_height, 2_000_000);
    assert_eq!(out.jump, Some(JumpCommand { height: 15_000_000 }));
    assert_eq!(out.cursor_cmd, None);
    // Camera turned against the stick, zoom stepped once, fall respawned.
    assert_eq!(w.rig.yaw, TURN - 250_000);
    assert_eq!(w.orbit.target_radius, 1_000_000 + 1_200_000);
    assert_eq!(w.position, Vec3Fx { x: 0, y: 5_000_000, z: 0 });
    assert_eq!(w.cursor, CursorState::Released);
}

#[test]
fn click_grabs_and_the_same_ticks_deltas_apply() {
    let s = Settings::default();
    let mut w = PlayerWorld::startup();
    let input = mouse(vec![MouseDelta { dx: 1_000_000, dy: 0 }], true, false);
    let out = player_rig::world::world_tick(&mut w, &input, 1_000_000, &s);
    assert_eq!(out.cursor_cmd, Some(CursorCommand::LockAndHide));
    assert_eq!(w.cursor, CursorState::Grabbed);
    assert_eq!(w.rig.yaw, TURN - 5_000_000);
}

#[test]
fn deltas_while_released_change_no_orientation() {
    let s = Settings::default();
    let mut w = PlayerWorld::startup();
    w.rig.pitch = -3;
    let input = mouse(
        vec![MouseDelta { dx: 700_000, dy: 700_000 }, MouseDelta { dx: -5, dy: 44 }],
        false,
        false,
    );
    let out = player_rig::world::world_tick(&mut w, &input, 1_000_000, &s);
    assert_eq!(out.cursor_cmd, None);
    assert_eq!(w.cursor, CursorState::Released);
    assert_eq!(w.rig.yaw, 0);
    assert_eq!(w.rig.pitch, -3);
}

#[test]
fn recenter_edge_resets_within_the_same_tick() {
    let s = Settings::default();
    let mut w = PlayerWorld::startup();
    w.rig.yaw = 1_000_000;
    w.rig.pitch = -1_000_000;
    w.orbit.enabled = true;
    w.orbit.target_radius = 99_000_000;
    let mut g = pad();
    g.recenter_edge = true;
    let input = InputSnapshot::Gamepad(g);
    player_rig::world::world_tick(&mut w, &input, 16_000, &s);
    assert_eq!(w.rig.yaw, 1_000_000);
    assert_eq!(w.rig.pitch, 0);
    assert_eq!(w.orbit, orbit_startup());
}
