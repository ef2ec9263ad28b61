//! The random source: the small generator of the `rand` crate.

use rand::rngs::SmallRng;
use rand::Rng;
use vstd::prelude::*;

verus! {

#[verifier::external_type_specification]
#[verifier::external_body]
pub struct ExSmallRng(SmallRng);

/// `Rng::gen_range` of `rand`, on the range `0..bound`. The call panics on an
/// empty range, so a bound of zero is left out. Of the number that comes back
/// only this is claimed: it lies in the range.
#[verifier::external_body]
pub(crate) fn draw_below(rng: &mut SmallRng, bound: u32) -> (draw: u32)
    requires
        bound > 0,
    ensures
        draw < bound,
{
    rng.gen_range(0..bound)
}

} // verus!
