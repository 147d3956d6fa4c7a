//! The random source from which the population is drawn.

use rand::rngs::StdRng;
use rand::Rng;
use vstd::prelude::*;

verus! {

/// `rand::rngs::StdRng`, the generator that the population is drawn from. Its
/// state is carried through and never looked into.
#[verifier::external_type_specification]
#[verifier::external_body]
pub struct ExStdRng(StdRng);

/// Calls `rand::Rng::random_range` on the half-open range from zero to
/// `bound`. Trusted: the number drawn lies below `bound`. Which number it is
/// depends on the generator's state, of which nothing is claimed. The call
/// panics on an empty range, so `bound` is at least one.
#[verifier::external_body]
pub(crate) fn draw_below(rng: &mut StdRng, bound: u32) -> (drawn: u32)
    requires
        bound > 0,
    ensures
        drawn < bound,
{
    rng.random_range(0..bound)
}

} // verus!
