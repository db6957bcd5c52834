//! Camera rig: player yaw and camera-arm pitch.
//!
//! Yaw (the player's heading) and pitch (the arm's tilt) are two independent
//! micro-radian scalars. Each tick the rig applies the tick's look deltas at
//! a rate of `sensitivity * dt`: every mouse-motion event in order while the
//! cursor is grabbed, or, for a gamepad, the right stick's single reading
//! with each axis first passed through the same dead-zone as the movement
//! stick. Yaw is never clamped and wraps modulo one full turn; pitch is clamped
//! into `[min_pitch, max_pitch]` at every step, so no caller ever observes
//! an out-of-range pitch. Mouse deltas arriving while the cursor is released
//! are drained but change nothing.

use vstd::prelude::*;
use crate::cursor::CursorState;
use crate::fixed::{
    abs_val, clamp_i64, clamp_spec, fp_mul, fp_mul_spec, lemma_fp_mul_bound, wrap_angle,
    wrap_spec, SCALE, TURN,
};
use crate::input::{
    apply_dead_zone, dead_zone_spec, GamepadSnapshot, InputSnapshot, KeyboardMouse, MouseDelta,
};
use crate::settings::{Settings, MOUSE_DELTA_LIMIT, SENSITIVITY_LIMIT, STICK_LIMIT, TICK_LIMIT};

verus! {

/// Largest magnitude of the per-tick look rate `sensitivity * dt`:
/// `SENSITIVITY_LIMIT * TICK_LIMIT` rescaled by `SCALE`.
pub const RATE_LIMIT: i64 = 10_000_000_000;

/// Player yaw and camera-arm pitch, in micro-radians.
#[derive(Clone, Copy, PartialEq, Eq, Structural, Debug)]
pub struct CameraRig {
    pub yaw: i64,
    pub pitch: i64,
}

impl CameraRig {
    /// Yaw lies in `[0, TURN)` and pitch inside the settings' clamp range.
    pub open spec fn inv(self, s: Settings) -> bool {
        &&& 0 <= self.yaw < TURN
        &&& s.min_pitch <= self.pitch <= s.max_pitch
    }

    /// The rig a fresh player starts with: facing forward, arm level.
    pub fn startup() -> (r: CameraRig)
        ensures
            r == (CameraRig { yaw: 0i64, pitch: 0i64 }),
    {
        CameraRig { yaw: 0, pitch: 0 }
    }
}

/// The tick's look rate: radians per input unit, `sensitivity * dt`.
pub open spec fn look_rate(s: Settings, dt: int) -> int {
    fp_mul_spec(s.look_sensitivity as int, dt)
}

/// One mouse delta applied to the rig: both axes turn against the delta,
/// yaw wraps, pitch clamps.
pub open spec fn mouse_step(yaw: int, pitch: int, d: MouseDelta, rate: int, s: Settings) -> (
    int,
    int,
) {
    (
        wrap_spec(yaw - fp_mul_spec(d.dx as int, rate)),
        clamp_spec(pitch - fp_mul_spec(d.dy as int, rate), s.min_pitch as int, s.max_pitch as int),
    )
}

/// The tick's mouse deltas applied in order, oldest first.
pub open spec fn mouse_fold(yaw: int, pitch: int, ds: Seq<MouseDelta>, rate: int, s: Settings) -> (
    int,
    int,
)
    decreases ds.len(),
{
    if ds.len() <= 0 {
        (yaw, pitch)
    } else {
        let st = mouse_step(yaw, pitch, ds[0], rate, s);
        mouse_fold(st.0, st.1, ds.subrange(1, ds.len() as int), rate, s)
    }
}

/// The rig after one tick. Mouse deltas count only while the cursor is
/// grabbed. The gamepad's right stick needs no grab, but each of its axes
/// passes the dead-zone first — a magnitude at or below it turns nothing —
/// and the vertical axis tilts the arm up (the sign opposite to the mouse's
/// convention).
pub open spec fn camera_tick_spec(
    rig: CameraRig,
    input: InputSnapshot,
    cursor: CursorState,
    dt: int,
    s: Settings,
) -> (int, int) {
    let rate = look_rate(s, dt);
    match input {
        InputSnapshot::KeyboardMouse(km) => if cursor is Grabbed {
            mouse_fold(rig.yaw as int, rig.pitch as int, km.mouse_deltas@, rate, s)
        } else {
            (rig.yaw as int, rig.pitch as int)
        },
        InputSnapshot::Gamepad(g) => (
            wrap_spec(rig.yaw - fp_mul_spec(dead_zone_spec(g.right_x as int, s.dead_zone as int), rate)),
            clamp_spec(
                rig.pitch + fp_mul_spec(dead_zone_spec(g.right_y as int, s.dead_zone as int), rate),
                s.min_pitch as int,
                s.max_pitch as int,
            ),
        ),
    }
}

/// Advances yaw and pitch by one tick of look input, exactly as
/// `camera_tick_spec` says. Pitch stays clamped; mouse deltas while the
/// cursor is released leave the rig untouched.
#[verifier::loop_isolation(false)]
pub fn camera_tick(
    rig: &mut CameraRig,
    input: &InputSnapshot,
    cursor: CursorState,
    dt: i64,
    s: &Settings,
)
    requires
        s.wf(),
        old(rig).inv(*s),
        input.wf(),
        0 <= dt <= TICK_LIMIT,
    ensures
        final(rig).inv(*s),
        final(rig).yaw as int == camera_tick_spec(*old(rig), *input, cursor, dt as int, *s).0,
        final(rig).pitch as int == camera_tick_spec(*old(rig), *input, cursor, dt as int, *s).1,
        (*input matches InputSnapshot::KeyboardMouse(_) && cursor is Released) ==> *final(rig)
            == *old(rig),
{
    proof {
        lemma_fp_mul_bound(
            s.look_sensitivity as int,
            dt as int,
            SENSITIVITY_LIMIT as int,
            TICK_LIMIT as int,
        );
    }
    let rate: i64 = fp_mul(s.look_sensitivity, dt);
    match input {
        InputSnapshot::KeyboardMouse(km) => {
            match cursor {
                CursorState::Released => {},
                CursorState::Grabbed => {
                    let mut yaw: i64 = rig.yaw;
                    let mut pitch: i64 = rig.pitch;
                    let n: usize = km.mouse_deltas.len();
                    let mut idx: usize = 0;
                    proof {
                        assert(km.mouse_deltas@.subrange(0, n as int) =~= km.mouse_deltas@);
                    }
                    while idx < n
                        invariant
                            idx <= n,
                            0 <= yaw < TURN,
                            s.min_pitch <= pitch <= s.max_pitch,
                            mouse_fold(
                                yaw as int,
                                pitch as int,
                                km.mouse_deltas@.subrange(idx as int, n as int),
                                rate as int,
                                *s,
                            ) == mouse_fold(
                                old(rig).yaw as int,
                                old(rig).pitch as int,
                                km.mouse_deltas@,
                                rate as int,
                                *s,
                            ),
                        decreases n - idx,
                    {
                        let d: MouseDelta = km.mouse_deltas[idx];
                        proof {
                            assert(km.mouse_deltas@[idx as int].wf());
                            lemma_fp_mul_bound(
                                d.dx as int,
                                rate as int,
                                MOUSE_DELTA_LIMIT as int,
                                RATE_LIMIT as int,
                            );
                            lemma_fp_mul_bound(
                                d.dy as int,
                                rate as int,
                                MOUSE_DELTA_LIMIT as int,
                                RATE_LIMIT as int,
                            );
                        }
                        let sx: i64 = fp_mul(d.dx, rate);
                        let sy: i64 = fp_mul(d.dy, rate);
                        let ghost rest = km.mouse_deltas@.subrange(idx as int, n as int);
                        yaw = wrap_angle(yaw - sx);
                        pitch = clamp_i64(pitch - sy, s.min_pitch, s.max_pitch);
                        proof {
                            assert(rest[0] == d);
                            assert(rest.subrange(1, rest.len() as int) =~= km.mouse_deltas@
                                .subrange(idx as int + 1, n as int));
                        }
                        idx = idx + 1;
                    }
                    rig.yaw = yaw;
                    rig.pitch = pitch;
                    proof {
                        assert(km.mouse_deltas@.subrange(n as int, n as int).len() == 0);
                    }
                },
            }
        },
        InputSnapshot::Gamepad(g) => {
            let lx: i64 = apply_dead_zone(g.right_x, s.dead_zone);
            let ly: i64 = apply_dead_zone(g.right_y, s.dead_zone);
            proof {
                lemma_fp_mul_bound(lx as int, rate as int, STICK_LIMIT as int, RATE_LIMIT as int);
                lemma_fp_mul_bound(ly as int, rate as int, STICK_LIMIT as int, RATE_LIMIT as int);
            }
            let sx: i64 = fp_mul(lx, rate);
            let sy: i64 = fp_mul(ly, rate);
            rig.yaw = wrap_angle(rig.yaw - sx);
            rig.pitch = clamp_i64(rig.pitch + sy, s.min_pitch, s.max_pitch);
        },
    }
}

/// Law: the pitch clamp is never violated. Whatever delta sequence a tick
/// brings — however far one delta would overshoot — a pitch that starts in
/// the clamp range ends in it, after every step of the fold.
pub proof fn lemma_pitch_always_clamped(
    yaw: int,
    pitch: int,
    ds: Seq<MouseDelta>,
    rate: int,
    s: Settings,
)
    requires
        s.min_pitch <= pitch <= s.max_pitch,
    ensures
        s.min_pitch <= mouse_fold(yaw, pitch, ds, rate, s).1 <= s.max_pitch,
    decreases ds.len(),
{
    if ds.len() > 0 {
        let st = mouse_step(yaw, pitch, ds[0], rate, s);
        lemma_pitch_always_clamped(st.0, st.1, ds.subrange(1, ds.len() as int), rate, s);
    }
}

/// Law: the released-cursor gate. Whatever mouse deltas arrive — any
/// sequence, any length — and whatever the tick duration, a tick of
/// keyboard-mouse input with the cursor released leaves yaw and pitch
/// exactly as they were; the rig holds no deltas, so none are buffered for
/// a later grab.
pub proof fn lemma_released_gate(rig: CameraRig, km: KeyboardMouse, dt: int, s: Settings)
    ensures
        camera_tick_spec(rig, InputSnapshot::KeyboardMouse(km), CursorState::Released, dt, s) == (
            rig.yaw as int,
            rig.pitch as int,
        ),
{
}

/// Law: the look dead-zone is inclusive, per axis. A right-stick axis whose
/// magnitude is at most the dead-zone turns nothing that tick: yaw keeps its
/// value when the horizontal axis rests there, pitch when the vertical one
/// does, whatever the other axis, the cursor state and the tick length do.
pub proof fn lemma_look_dead_zone(
    rig: CameraRig,
    g: GamepadSnapshot,
    cursor: CursorState,
    dt: int,
    s: Settings,
)
    requires
        s.wf(),
        rig.inv(s),
    ensures
        abs_val(g.right_x as int) <= s.dead_zone ==> camera_tick_spec(
            rig,
            InputSnapshot::Gamepad(g),
            cursor,
            dt,
            s,
        ).0 == rig.yaw,
        abs_val(g.right_y as int) <= s.dead_zone ==> camera_tick_spec(
            rig,
            InputSnapshot::Gamepad(g),
            cursor,
            dt,
            s,
        ).1 == rig.pitch,
{
    let rate = look_rate(s, dt);
    vstd::arithmetic::mul::lemma_mul_by_zero_is_zero(abs_val(rate));
    vstd::arithmetic::div_mod::lemma_div_of0(SCALE as int);
    assert(fp_mul_spec(0, rate) == 0);
    vstd::arithmetic::div_mod::lemma_small_mod(rig.yaw as nat, TURN as nat);
}

} // verus!
