//! A brute-force pairwise contact-force kernel for particle simulations.
//!
//! Particles live in flat, structure-of-arrays storage: parallel sequences of
//! x/y positions and fx/fy force accumulators, all of one length. The kernel
//! adds, for every destination particle, a linear repulsive force contributed
//! by every source particle, scaled by a fixed stiffness constant. Coordinates
//! and forces are fixed-point values held in `i64`, so every sum is exact and
//! every execution strategy — sequential, chunked, or parallel — produces
//! bit-identical accumulators.

use vstd::prelude::*;

pub mod kernel;
pub mod laws;
pub mod model;
pub mod particles;

verus! {

/// The fixed stiffness constant: a displacement of `d` contributes a force of
/// `STIFFNESS * d` to the accumulator of the destination particle.
pub const STIFFNESS: i64 = 100000;

} // verus!
