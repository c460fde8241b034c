//! The simulation's one source of randomness.

use vstd::prelude::*;

verus! {

/// Uniform draw in `[low, high)`.
///
/// Relies on `quad_rand::gen_range`: for an integer type it maps a 32-bit
/// draw `v` to `low + (high - low) * (v / 2^32)` in `f64` and truncates.
/// The quotient `v / 2^32` is exact, and with `high` at most 2^21 the
/// product carries at most 21 + 32 = 53 significant bits, so it is exact
/// too; the sum then sits at least half an ulp below `high`, rounding
/// cannot reach `high`, and truncation lands in `[low, high)`. Without the
/// bound on `high` the final rounding can return exactly `high`, so callers
/// that need a wider range must scale the result of a narrow draw instead.
#[verifier::external_body]
pub(crate) fn gen_range_usize(low: usize, high: usize) -> (r: usize)
    requires
        low < high,
        high <= 0x20_0000,
    ensures
        low <= r < high,
{
    quad_rand::gen_range(low, high)
}

} // verus!
