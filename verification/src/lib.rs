//! Simulation core of a 2D top-down arcade combat game: fixed-timestep
//! entity motion, axis-aligned collision resolution, and gameplay effect
//! (damage / knockback) dispatch between entities.
//!
//! All quantities are integers. Distances are measured in milliunits
//! (one thousandth of a world unit), velocities in milliunits per second,
//! and time in ticks of 1/60 second, so every state transition is exact
//! and free of rounding surprises beyond the stated truncating divisions.

pub mod assets;
pub mod game_object;
pub mod main_state;
pub mod math;

use vstd::prelude::*;

verus! {

/// One world unit expressed in milliunits, the library's base length scale.
pub const UNIT: i64 = 1000;

/// Ticks per second of simulated time; one tick advances 1/60 s.
pub const TICKS_PER_SECOND: i64 = 60;

} // verus!
