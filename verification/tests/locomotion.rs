use player_rig::fixed::fp_mul;
use player_rig::input::{GamepadSnapshot, InputSnapshot, KeyState};
use player_rig::locomotion::{
    gamepad_intent, keyboard_intent, locomotion_tick, JumpCommand, PlanarIntent,
};
use player_rig::settings::Settings;

fn keys(forward: bool, back: bool, left: bool, right: bool) -> KeyState {
    KeyState { forward, back, left, right }
}

fn pad() -> GamepadSnapshot {
    GamepadSnapshot {
        left_x: 0,
        left_y: 0,
        right_x: 0,
        right_y: 0,
        right_trigger: 0,
        left_trigger: 0,
        jump_held: false,
        recenter_edge: false,
    }
}

#[test]
fn keyboard_single_keys_are_cardinal_units() {
    assert_eq!(
        keyboard_intent(&keys(true, false, false, false)),
        PlanarIntent::Unit { x: 0, z: -1 }
    );
    assert_eq!(
        keyboard_intent(&keys(false, true, false, false)),
        PlanarIntent::Unit { x: 0, z: 1 }
    );
    assert_eq!(
        keyboard_intent(&keys(false, false, true, false)),
        PlanarIntent::Unit { x: -1, z: 0 }
    );
    assert_eq!(
        keyboard_intent(&keys(false, false, false, true)),
        PlanarIntent::Unit { x: 1, z: 0 }
    );
}

#[test]
fn keyboard_diagonals_are_unit_directions() {
    // Two orthogonal keys give a normalized diagonal: same speed as one key.
    assert_eq!(
        keyboard_intent(&keys(true, false, false, true)),
        PlanarIntent::Unit { x: 1, z: -1 }
    );
    assert_eq!(
        keyboard_intent(&keys(false, true, true, false)),
        PlanarIntent::Unit { x: -1, z: 1 }
    );
}

#[test]
fn keyboard_no_keys_is_zero_vector() {
    assert_eq!(keyboard_intent(&keys(false, false, false, false)), PlanarIntent::Stop);
}

#[test]
fn keyboard_opposing_keys_last_write_wins() {
    // Right overrides left, back overrides forward; opposing keys do not cancel.
    assert_eq!(
        keyboard_intent(&keys(false, false, true, true)),
        PlanarIntent::Unit { x: 1, z: 0 }
    );
    assert_eq!(
        keyboard_intent(&keys(true, true, false, false)),
        PlanarIntent::Unit { x: 0, z: 1 }
    );
}

#[test]
fn dead_zone_boundary_is_inclusive() {
    let s = Settings::default();
    let mut g = pad();
    g.left_x = 10_000; // exactly the dead-zone: zeroed
    g.left_y = -10_000;
    assert_eq!(gamepad_intent(&g, &s), PlanarIntent::Analog { vx: 0, vz: 0 });
    g.left_x = 10_001; // one past the dead-zone: kept, scaled by max speed
    g.left_y = 0;
    assert_eq!(gamepad_intent(&g, &s), PlanarIntent::Analog { vx: 200_020, vz: 0 });
    g.left_x = -10_001;
    assert_eq!(gamepad_intent(&g, &s), PlanarIntent::Analog { vx: -200_020, vz: 0 });
}

#[test]
fn gamepad_stick_is_scaled_unnormalized() {
    let s = Settings::default();
    let mut g = pad();
    // Forward stick (positive Y) maps to negative Z at full speed.
    g.left_y = 1_000_000;
    assert_eq!(gamepad_intent(&g, &s), PlanarIntent::Analog { vx: 0, vz: -20_000_000 });
    // A full diagonal keeps both components at full speed: its magnitude
    // exceeds the single-axis speed, unlike the keyboard path.
    g.left_x = 1_000_000;
    assert_eq!(
        gamepad_intent(&g, &s),
        PlanarIntent::Analog { vx: 20_000_000, vz: -20_000_000 }
    );
    // Half deflection scales linearly.
    g.left_x = 500_000;
    g.left_y = 0;
    assert_eq!(gamepad_intent(&g, &s), PlanarIntent::Analog { vx: 10_000_000, vz: 0 });
}

#[test]
fn locomotion_command_carries_yaw_and_float_height() {
    let s = Settings::default();
    let mut g = pad();
    g.left_x = 1_000_000;
    let input = InputSnapshot::Gamepad(g);
    let (walk, jump) = locomotion_tick(&input, 123_456, &s);
    assert_eq!(walk.yaw, 123_456);
    assert_eq!(walk.float_height, 2_000_000);
    assert_eq!(walk.intent, PlanarIntent::Analog { vx: 20_000_000, vz: 0 });
    assert_eq!(jump, None);
}

#[test]
fn jump_forwarded_every_tick_while_held() {
    let s = Settings::default();
    let mut g = pad();
    g.jump_held = true;
    let input = InputSnapshot::Gamepad(g);
    let (_, jump) = locomotion_tick(&input, 0, &s);
    assert_eq!(jump, Some(JumpCommand { height: 15_000_000 }));
    let (_, again) = locomotion_tick(&input, 0, &s);
    assert_eq!(again, Some(JumpCommand { height: 15_000_000 }));
}

#[test]
fn keyboard_jump_and_walk_share_the_same_contract() {
    let s = Settings::default();
    let input = InputSnapshot::KeyboardMouse(player_rig::input::KeyboardMouse {
        keys: keys(true, false, false, false),
        mouse_deltas: Vec::new(),
        jump_held: true,
        click_edge: false,
        escape_edge: false,
    });
    let (walk, jump) = locomotion_tick(&input, 42, &s);
    assert_eq!(walk.intent, PlanarIntent::Unit { x: 0, z: -1 });
    assert_eq!(walk.yaw, 42);
    assert_eq!(walk.float_height, 2_000_000);
    assert_eq!(jump, Some(JumpCommand { height: 15_000_000 }));
}

#[test]
fn fixed_point_product_truncates_toward_zero() {
    assert_eq!(fp_mul(3, 500_000), 1);
    assert_eq!(fp_mul(-3, 500_000), -1);
    assert_eq!(fp_mul(3, -500_000), -1);
    assert_eq!(fp_mul(-3, -500_000), 1);
    assert_eq!(fp_mul(0, 123_456), 0);
}
