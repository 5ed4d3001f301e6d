//! The seeded random source that generation and editing draw from.

use vstd::prelude::*;
use rand::StdRng;

verus! {

/// `rand::StdRng`, the generator behind every draw. Its state is opaque
/// here: the harness seeds it, copies it and hands it to the strategies.
#[verifier::external_type_specification]
#[verifier::external_body]
pub struct ExStdRng(rand::StdRng);

/// The generator that `rand::SeedableRng::from_seed` builds from `seeds`.
pub uninterp spec fn seeded_rng(seeds: Seq<usize>) -> StdRng;

/// Calls `<rand::StdRng as rand::SeedableRng<&[usize]>>::from_seed`, which
/// accepts seeds of any length. The state it builds is computed from the seed
/// words alone, so equal seeds give equal generators: the result is
/// `seeded_rng` of the seeds.
#[verifier::external_body]
pub(crate) fn rng_from_seeds(seeds: &Vec<usize>) -> (rng: StdRng)
    ensures
        rng == seeded_rng(seeds@),
{
    rand::SeedableRng::from_seed(seeds.as_slice())
}

} // verus!
