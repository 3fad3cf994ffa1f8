//! Random numbers, drawn from `rand`'s small generator.

use crate::bot::BotId;
use rand::rngs::SmallRng;
use rand::seq::SliceRandom;
use rand::Rng;
use rand::SeedableRng;
use vstd::prelude::*;

verus! {

/// `rand::rngs::SmallRng`, taken as it is: nothing is said about its state.
#[verifier::external_type_specification]
#[verifier::external_body]
pub struct ExSmallRng(SmallRng);

/// `SmallRng::from_seed`: the generator that starts from `seed`.
#[verifier::external_body]
pub(crate) fn seeded(seed: [u8; 32]) -> SmallRng {
    SmallRng::from_seed(seed)
}

/// `Rng::gen` for `u64`: any number may come.
#[verifier::external_body]
pub(crate) fn random_u64(rng: &mut SmallRng) -> u64 {
    rng.gen()
}

/// `Rng::gen_range` over `0..bound`: a number below `bound`. The range must
/// not be empty, as `gen_range` panics on an empty one.
#[verifier::external_body]
pub(crate) fn random_below(rng: &mut SmallRng, bound: usize) -> (n: usize)
    requires
        bound > 0,
    ensures
        n < bound,
{
    rng.gen_range(0..bound)
}

/// `SliceRandom::shuffle`: reorders the identifiers in place by swapping,
/// so the same identifiers are there afterwards, each as often as before.
#[verifier::external_body]
pub(crate) fn shuffle(ids: &mut Vec<BotId>, rng: &mut SmallRng)
    ensures
        final(ids)@.to_multiset() == old(ids)@.to_multiset(),
{
    ids.shuffle(rng)
}

} // verus!
