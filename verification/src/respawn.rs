//! Respawn guard.
//!
//! Watches the player's vertical position each tick. Once it falls below the
//! fall floor the position is teleported to the spawn point; orientation and
//! velocity are left to the physics engine. Re-triggering while still below
//! the floor re-applies the same teleport, which is a no-op once the position
//! is restored.

use vstd::prelude::*;
use crate::fixed::SCALE;

verus! {

/// Positions with `y` strictly below this, in micro-units, are respawned.
pub const FALL_FLOOR: i64 = -20 * SCALE;

/// Spawn height above the origin, in micro-units.
pub const SPAWN_HEIGHT: i64 = 5 * SCALE;

/// A position or offset in world space, in micro-units per axis.
#[derive(Clone, Copy, PartialEq, Eq, Structural, Debug)]
pub struct Vec3Fx {
    pub x: i64,
    pub y: i64,
    pub z: i64,
}

/// The fixed spawn point the guard teleports to.
pub open spec fn spawn_point() -> Vec3Fx {
    Vec3Fx { x: 0, y: SPAWN_HEIGHT, z: 0 }
}

/// One tick of the guard: below the fall floor the position becomes the spawn
/// point, otherwise it is untouched.
pub open spec fn respawn_spec(p: Vec3Fx) -> Vec3Fx {
    if p.y < FALL_FLOOR {
        spawn_point()
    } else {
        p
    }
}

/// Teleports a fallen player back to the spawn point; leaves anyone at or
/// above the fall floor where they are.
pub fn respawn_tick(pos: &mut Vec3Fx)
    ensures
        *final(pos) == respawn_spec(*old(pos)),
        old(pos).y < FALL_FLOOR ==> *final(pos) == spawn_point(),
        old(pos).y >= FALL_FLOOR ==> *final(pos) == *old(pos),
{
    if pos.y < FALL_FLOOR {
        pos.x = 0;
        pos.y = SPAWN_HEIGHT;
        pos.z = 0;
    }
}

/// Law: the guard is idempotent. A second tick on an already-guarded position
/// changes nothing, because the spawn point lies above the fall floor.
pub proof fn lemma_respawn_idempotent(p: Vec3Fx)
    ensures
        respawn_spec(respawn_spec(p)) == respawn_spec(p),
{
}

} // verus!
