//! Random draws, made through the `rand` crate.
//!
//! Nothing is assumed of a draw beyond its range: every function that uses
//! one states what holds of its result whatever value came back.

use vstd::prelude::*;
use rand::Rng;

verus! {

/// Relies on rand's `Rng::gen_range` on `rand::thread_rng()`: returns a
/// value in the half-open range `lo..hi`. `gen_range` panics on an empty
/// range, which the precondition rules out.
#[verifier::external_body]
pub(crate) fn rand_range_i64(lo: i64, hi: i64) -> (r: i64)
    requires
        lo < hi,
    ensures
        lo <= r < hi,
{
    rand::thread_rng().gen_range(lo..hi)
}

} // verus!
