//! Access to the process-local random number generator.
//!
//! Randomness enters the simulation in exactly two places: the initial
//! placement and mass of orbiting bodies, and the fallback separation
//! direction for two exactly coincident bodies. Nothing can be promised of
//! a random draw beyond its range, so every caller is verified for every
//! value these wrappers may return.

use vstd::prelude::*;
use rand::Rng;

verus! {

#[verifier::external_type_specification]
#[verifier::external_body]
pub struct ExThreadRng(rand::rngs::ThreadRng);

/// Relies on rand::thread_rng: a handle to the thread-local generator.
#[verifier::external_body]
pub fn new_rng() -> rand::rngs::ThreadRng {
    rand::thread_rng()
}

/// Relies on rand::Rng::gen_range on an `i64` half-open range: a uniform
/// value at least `lo` and below `hi`; it panics on an empty range, which
/// the precondition rules out.
#[verifier::external_body]
pub fn gen_range_i64(rng: &mut rand::rngs::ThreadRng, lo: i64, hi: i64) -> (r: i64)
    requires
        lo < hi,
    ensures
        lo <= r < hi,
{
    rng.gen_range(lo..hi)
}

} // verus!
