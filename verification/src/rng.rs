//! Trusted boundary to the pseudo-random generator.
//!
//! The engine threads one explicit `ThreadRng` through every randomized
//! operation.  Nothing can be promised about a random value beyond its
//! range, so each wrapper states only what holds of every outcome.

use vstd::prelude::*;

use rand::Rng;
use rand::seq::SliceRandom;
use rand::rngs::ThreadRng;

verus! {

#[verifier::external_type_specification]
#[verifier::external_body]
pub struct ExThreadRng(ThreadRng);

/// Relies on rand::thread_rng: a handle to the thread-local generator.
#[verifier::external_body]
pub(crate) fn new_rng() -> ThreadRng {
    rand::thread_rng()
}

/// Relies on rand's Rng::gen_range: a uniform draw from a non-empty
/// half-open range; it panics only on an empty range, which the
/// precondition rules out.
#[verifier::external_body]
pub(crate) fn rng_range_i64(rng: &mut ThreadRng, lo: i64, hi: i64) -> (r: i64)
    requires
        lo < hi,
    ensures
        lo <= r < hi,
{
    rng.gen_range(lo..hi)
}

/// Relies on rand's SliceRandom::shuffle: it permutes the slice in
/// place, so the new contents are the old contents as a multiset.
#[verifier::external_body]
pub(crate) fn shuffle_positions(rng: &mut ThreadRng, v: &mut Vec<(i32, i32)>)
    ensures
        final(v)@.to_multiset() == old(v)@.to_multiset(),
        final(v)@.len() == old(v)@.len(),
{
    v.shuffle(rng);
}

} // verus!
