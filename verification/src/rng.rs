use rand::Rng;
use vstd::prelude::*;

verus! {

/// Relies on rand::Rng::random_range (through rand::rng()): for a non-empty
/// half-open range `lo..hi` it returns a uniformly drawn value inside the
/// range and panics only when the range is empty, which the precondition
/// rules out. Nothing more than membership in the range is assumed, since
/// the draw is random.
#[verifier::external_body]
pub(crate) fn draw_in_range(lo: usize, hi: usize) -> (r: usize)
    requires
        lo < hi,
    ensures
        lo <= r < hi,
{
    rand::rng().random_range(lo..hi)
}

} // verus!
