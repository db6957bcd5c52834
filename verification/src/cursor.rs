//! Pointer-capture state machine.
//!
//! Two states, `Released` and `Grabbed`. A left-click press edge grabs the
//! cursor, an escape press edge releases it; repeating the edge that led into
//! the current state changes nothing. Each transition emits the cursor-mode
//! command the windowing layer must carry out; staying put emits none. The
//! camera rig reads the state to gate mouse-look deltas.

use vstd::prelude::*;

verus! {

/// Whether the windowing cursor is captured by the game.
#[derive(Clone, Copy, PartialEq, Eq, Structural, Debug)]
pub enum CursorState {
    Released,
    Grabbed,
}

/// Cursor-mode request handed to the windowing layer.
#[derive(Clone, Copy, PartialEq, Eq, Structural, Debug)]
pub enum CursorCommand {
    /// Confine the cursor and hide it (entering `Grabbed`).
    LockAndHide,
    /// Free the cursor and show it (entering `Released`).
    UnlockAndShow,
}

/// The state after one tick: click grabs from `Released`, escape releases
/// from `Grabbed`, anything else stays put.
pub open spec fn cursor_next(s: CursorState, click: bool, escape: bool) -> CursorState {
    match s {
        CursorState::Released => if click {
            CursorState::Grabbed
        } else {
            CursorState::Released
        },
        CursorState::Grabbed => if escape {
            CursorState::Released
        } else {
            CursorState::Grabbed
        },
    }
}

/// The command a tick emits: one per transition, none when the state stays.
pub open spec fn cursor_command(s: CursorState, click: bool, escape: bool) -> Option<
    CursorCommand,
> {
    match s {
        CursorState::Released => if click {
            Some(CursorCommand::LockAndHide)
        } else {
            None
        },
        CursorState::Grabbed => if escape {
            Some(CursorCommand::UnlockAndShow)
        } else {
            None
        },
    }
}

/// Advances the pointer-capture state by one tick. `click` and `escape` are
/// press edges (just pressed this tick), not held states.
pub fn cursor_tick(state: &mut CursorState, click: bool, escape: bool) -> (cmd: Option<
    CursorCommand,
>)
    ensures
        *final(state) == cursor_next(*old(state), click, escape),
        cmd == cursor_command(*old(state), click, escape),
        cmd is Some <==> *final(state) != *old(state),
{
    match *state {
        CursorState::Released => {
            if click {
                *state = CursorState::Grabbed;
                Some(CursorCommand::LockAndHide)
            } else {
                None
            }
        },
        CursorState::Grabbed => {
            if escape {
                *state = CursorState::Released;
                Some(CursorCommand::UnlockAndShow)
            } else {
                None
            }
        },
    }
}

/// Law: capture is idempotent. A click while already `Grabbed` leaves the
/// state `Grabbed`, and an escape while already `Released` leaves it
/// `Released`, whatever the other key does that tick.
pub proof fn lemma_cursor_idempotent(click: bool, escape: bool)
    ensures
        !escape ==> cursor_next(CursorState::Grabbed, click, escape) == CursorState::Grabbed,
        !click ==> cursor_next(CursorState::Released, click, escape) == CursorState::Released,
{
}

} // verus!
