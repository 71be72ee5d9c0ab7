//! The random number generator that places the food.
//!
//! The generator is `rand`'s standard one. Verus does not look inside it:
//! what this module states of it is believed, not proved.

use rand::rngs::StdRng;
use rand::{Rng, SeedableRng};
use vstd::prelude::*;

verus! {

/// `rand::rngs::StdRng`, carried through as a value that nothing is known
/// of.
#[verifier::external_type_specification]
#[verifier::external_body]
pub struct ExStdRng(rand::rngs::StdRng);

/// Calls `StdRng::seed_from_u64`, which builds a generator from `seed`.
/// Nothing is claimed of the generator.
#[verifier::external_body]
pub(crate) fn seeded_generator(seed: u64) -> StdRng {
    StdRng::seed_from_u64(seed)
}

/// Calls `Rng::gen_range` on the range `0..bound`. The claim is the one
/// that `gen_range` makes of a half-open range: the number drawn lies in
/// it. `gen_range` panics on an empty range, which `bound > 0` keeps out.
#[verifier::external_body]
pub(crate) fn draw_below(rng: &mut StdRng, bound: u64) -> (k: u64)
    requires
        bound > 0,
    ensures
        k < bound,
{
    rng.gen_range(0..bound)
}

} // verus!
