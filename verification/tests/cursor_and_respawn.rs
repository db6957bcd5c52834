use player_rig::cursor::{cursor_tick, CursorCommand, CursorState};
use player_rig::respawn::{respawn_tick, Vec3Fx, FALL_FLOOR};

#[test]
fn click_grabs_and_escape_releases() {
    let mut state = CursorState::Released;
    let cmd = cursor_tick(&mut state, true, false);
    assert_eq!(state, CursorState::Grabbed);
    assert_eq!(cmd, Some(CursorCommand::LockAndHide));
    let cmd2 = cursor_tick(&mut state, false, true);
    assert_eq!(state, CursorState::Released);
    assert_eq!(cmd2, Some(CursorCommand::UnlockAndShow));
}

#[test]
fn click_while_grabbed_is_idempotent() {
    let mut state = CursorState::Grabbed;
    let cmd = cursor_tick(&mut state, true, false);
    assert_eq!(state, CursorState::Grabbed);
    assert_eq!(cmd, None);
}

#[test]
fn escape_while_released_is_idempotent() {
    let mut state = CursorState::Released;
    let cmd = cursor_tick(&mut state, false, true);
    assert_eq!(state, CursorState::Released);
    assert_eq!(cmd, None);
}

#[test]
fn idle_tick_emits_no_command() {
    let mut state = CursorState::Released;
    assert_eq!(cursor_tick(&mut state, false, false), None);
    assert_eq!(state, CursorState::Released);
    let mut grabbed = CursorState::Grabbed;
    assert_eq!(cursor_tick(&mut grabbed, false, false), None);
    assert_eq!(grabbed, CursorState::Grabbed);
}

#[test]
fn fallen_player_respawns_in_one_tick() {
    let mut pos = Vec3Fx { x: 3_000_000, y: -21_000_000, z: -8_000_000 };
    respawn_tick(&mut pos);
    assert_eq!(pos, Vec3Fx { x: 0, y: 5_000_000, z: 0 });
}

#[test]
fn standing_player_is_left_alone() {
    let mut pos = Vec3Fx { x: 3_000_000, y: 5_000_000, z: -8_000_000 };
    respawn_tick(&mut pos);
    assert_eq!(pos, Vec3Fx { x: 3_000_000, y: 5_000_000, z: -8_000_000 });
}

#[test]
fn fall_floor_boundary_is_strict() {
    // Exactly at the floor: no respawn; one below: respawn.
    let mut at = Vec3Fx { x: 1, y: FALL_FLOOR, z: 2 };
    respawn_tick(&mut at);
    assert_eq!(at, Vec3Fx { x: 1, y: FALL_FLOOR, z: 2 });
    let mut below = Vec3Fx { x: 1, y: FALL_FLOOR - 1, z: 2 };
    respawn_tick(&mut below);
    assert_eq!(below, Vec3Fx { x: 0, y: 5_000_000, z: 0 });
}

#[test]
fn respawn_is_idempotent_across_ticks() {
    let mut pos = Vec3Fx { x: 0, y: -40_000_000, z: 0 };
    respawn_tick(&mut pos);
    let once = pos;
    respawn_tick(&mut pos);
    assert_eq!(pos, once);
}
