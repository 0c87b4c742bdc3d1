use vstd::prelude::*;
use quad_rand::RandGenerator;

verus! {

#[verifier::external_type_specification]
#[verifier::external_body]
pub struct ExRandGenerator(RandGenerator);

/// Largest bound accepted by `draw_below`: below it every step of the
/// generator's floating-point scaling is exact.
pub const DRAW_BOUND_MAX: u64 = 1_000_000;

/// Relies on `quad_rand::RandGenerator::gen_range::<u64>(0, bound)`: it scales a
/// 32-bit draw `k` to `bound * k / 2^32` and truncates, which is below `bound`
/// for every draw when `bound` is at most a million.
#[verifier::external_body]
pub(crate) fn draw_below(rng: &RandGenerator, bound: u64) -> (r: u64)
    requires
        0 < bound <= DRAW_BOUND_MAX,
    ensures
        r < bound,
{
    rng.gen_range(0u64, bound)
}

/// A draw in `[lo, hi)`.
pub fn draw_range(rng: &RandGenerator, lo: i64, hi: i64) -> (r: i64)
    requires
        lo < hi,
        hi - lo <= DRAW_BOUND_MAX,
    ensures
        lo <= r < hi,
{
    let k = draw_below(rng, (hi - lo) as u64);
    lo + k as i64
}

} // verus!
