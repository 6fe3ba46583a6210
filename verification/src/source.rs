//! The random sources the library draws from, and the only places where it
//! calls them. Nothing is proved of these calls: each contract below says
//! what is taken on trust.

use vstd::prelude::*;
use rand::rngs::StdRng;
use rand::Rng;
use turborand::GenCore;

verus! {

/// The generator of `rand` that sign bits are drawn from. Opaque here.
#[verifier::external_type_specification]
#[verifier::external_body]
pub struct ExStdRng(StdRng);

/// The generator of `turborand` that device seeds are drawn from. Opaque
/// here.
#[verifier::external_type_specification]
#[verifier::external_body]
pub struct ExSeedRng(turborand::rng::Rng);

/// `rand::Rng::gen::<bool>` on a `StdRng`: one sign bit. The bit depends on
/// the generator's state, so nothing is claimed of it.
#[verifier::external_body]
pub(crate) fn next_sign(rng: &mut StdRng) -> (sign: bool)
{
    rng.gen::<bool>()
}

/// `rand::Rng::fill` on a slice of `bool`: every element is overwritten with
/// a sign bit drawn as `gen` draws one. Claimed: the call returns and the
/// buffer keeps its length. `fill` panics only where filling fails, and the
/// filling of a slice of `bool` has no way to fail. The bits depend on the
/// generator's state, so nothing is claimed of them.
#[verifier::external_body]
pub(crate) fn refill(signs: &mut Vec<bool>, rng: &mut StdRng)
    ensures
        final(signs).len() == old(signs).len(),
{
    rng.fill(signs.as_mut_slice())
}

/// `turborand::GenCore::gen_i64` on an `Rng`: the next 64-bit value. It
/// depends on the generator's state, so nothing is claimed of it.
#[verifier::external_body]
pub(crate) fn next_seed(rng: &turborand::rng::Rng) -> (seed: i64)
{
    rng.gen_i64()
}

/// `turborand::rng::Rng::new`: a generator with a seed of its own, forked
/// from the one the thread keeps. Nothing is claimed of it.
#[verifier::external_body]
pub(crate) fn fresh_seed_rng() -> (rng: turborand::rng::Rng)
{
    turborand::rng::Rng::new()
}

} // verus!
