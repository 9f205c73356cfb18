//! The dice of the game.

use vstd::prelude::*;
use rand::Rng;

verus! {

/// A number drawn by `rand::Rng::gen_range` from the generator that
/// `rand::thread_rng` hands out, over the range from zero up to, and
/// without, `bound`. The range must not be empty, or `gen_range` panics. All
/// that is claimed of the result is that it lies in the range: two draws need
/// not agree, and nothing is said of how likely a number is.
#[verifier::external_body]
pub(crate) fn random_below(bound: u32) -> (r: u32)
    requires
        bound > 0,
    ensures
        r < bound,
{
    rand::thread_rng().gen_range(0..bound)
}

} // verus!
