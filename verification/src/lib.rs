//! A verified simulation engine for co-evolving herbivore and carnivore
//! populations on a discrete two-dimensional grid.
//!
//! Agents carry a heritable genome, sense their surroundings through a
//! weighted-direction scoring scheme, move, forage or predate, and are
//! culled and replaced generation by generation.  Continuous traits are
//! held in fixed-point milli-units (1000 = 1.0) so that every rule of the
//! engine is stated and proved over exact integer arithmetic.

use vstd::prelude::*;

pub mod engine;
pub mod genome;
pub mod rng;
pub mod sim;
pub mod stats;
pub mod world;

verus! {

/// Saturating addition on `i64`, used for energy accumulators.
pub fn sat_add_i64(a: i64, b: i64) -> (r: i64)
    ensures
        r == sat_add_spec(a as int, b as int),
{
    if b >= 0 {
        if a > i64::MAX - b {
            i64::MAX
        } else {
            a + b
        }
    } else {
        if a < i64::MIN - b {
            i64::MIN
        } else {
            a + b
        }
    }
}

/// Mathematical meaning of `sat_add_i64`.
pub open spec fn sat_add_spec(a: int, b: int) -> int {
    if a + b > i64::MAX {
        i64::MAX as int
    } else if a + b < i64::MIN {
        i64::MIN as int
    } else {
        a + b
    }
}

} // verus!
