//! A verified character movement and ability controller.
//!
//! The crate models the per-tick pipeline of a third-person character:
//! a ground probe result is folded into the player state, a jump and a dash
//! controller update ability bookkeeping and emit velocity and impulse
//! commands, a movement controller turns the input snapshot and the camera
//! orientation into a horizontal velocity, a follow-target position and a
//! look-at target, and an animation selector picks one clip per tick.
//!
//! All world quantities are fixed-point integers in milli-units (one world
//! unit is 1000 steps); times are integer milliseconds. The engine-facing
//! shell converts to and from its own floating-point types at the boundary.

pub mod camera;
pub mod input;
pub mod laws;
pub mod math;
pub mod player;
