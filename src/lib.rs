//! A frame-stepped two-player air-hockey simulation in fixed-point integers.
//!
//! Lengths are hundredths of a world unit, times are microseconds, and
//! velocities are hundredths of a world unit per second.
use vstd::prelude::*;

pub mod constants;
pub mod math;
pub mod components;
pub mod physics;
pub mod resources;
pub mod systems;
pub mod laws;

verus! {

} // verus!
