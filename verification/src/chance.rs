//! The one place where chance enters: the draw of the next scale.

use rand::Rng;
use vstd::prelude::*;

verus! {

/// Draws a number below `bound`: a call of `rand::Rng::gen_range` with the
/// range `0..bound`, on the generator that `rand::thread_rng` hands out.
///
/// The contract is taken on trust from `rand`: a sample of a half-open range
/// lies inside it. It says nothing of how the draws are spread, and two draws
/// with the same bound may differ. `gen_range` panics on an empty range, which
/// the precondition leaves out. The generator seeds itself from the operating
/// system when a thread first uses it, and `rand` panics if that source fails.
#[verifier::external_body]
pub(crate) fn draw_below(bound: usize) -> (drawn: usize)
    requires
        bound > 0,
    ensures
        drawn < bound,
{
    rand::thread_rng().gen_range(0..bound)
}

} // verus!
