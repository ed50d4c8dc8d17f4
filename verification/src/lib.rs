//! Orbital rigid-body simulation core.
//!
//! A population of bodies orbits a massive central body under mutual
//! gravitational attraction, with elastic collision response and a decoupled
//! kinematic spin applied to each body's polygon shape. All physical
//! quantities are fixed-point numbers: an `i64` holds a real value scaled by
//! `fixed::UNIT`, so the whole simulation is exact integer arithmetic with
//! saturation at the `i64` range in place of floating-point infinities.

use vstd::prelude::*;

pub mod fixed;
pub mod rng;
pub mod vector_3d;
pub mod physics;
pub mod simulation;

verus! {

} // verus!
