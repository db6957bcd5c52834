//! Player-movement and camera-rig core for a third-person game prototype.
//!
//! All quantities are fixed-point integers: one unit of the game world (one
//! metre, one radian, one second, one full stick deflection) is `SCALE`
//! micro-units. The engine around this library (physics, windowing, input,
//! rendering) converses with it through plain values: per-tick input
//! snapshots come in, locomotion and cursor commands go out.

pub mod cursor;
pub mod fixed;
pub mod input;
pub mod locomotion;
pub mod orbit;
pub mod respawn;
pub mod rig;
pub mod settings;
pub mod world;
