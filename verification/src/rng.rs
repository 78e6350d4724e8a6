use vstd::prelude::*;

verus! {

/// The deterministic pseudo-random generator that every instance owns.
/// The generator is an outside type, so the verifier treats a value of it
/// as opaque: the library only carries it and hands it to the draw below.
#[verifier::external_type_specification]
#[verifier::external_body]
pub struct ExSmallRng(rand::rngs::SmallRng);

/// Relies on rand's `SmallRng::seed_from_u64` (via `SeedableRng`): builds a
/// generator from a plain seed. Nothing portable is promised of the stream
/// the generator produces, so this item has no contract beyond its type.
#[verifier::external_body]
pub(crate) fn rng_from_seed(seed: u64) -> rand::rngs::SmallRng {
    <rand::rngs::SmallRng as rand::SeedableRng>::seed_from_u64(seed)
}

/// Relies on rand's `Bernoulli::from_ratio` and `Distribution::sample`:
/// draws one outcome that is true with probability `num / den`.
/// `from_ratio` returns an error exactly when `den == 0` or `num > den`,
/// which the precondition rules out; with `num == den` the distribution
/// always samples true, and with `num == 0` (and `num < den`) its internal
/// threshold is zero, so it always samples false.
#[verifier::external_body]
pub(crate) fn bernoulli_draw(rng: &mut rand::rngs::SmallRng, num: u32, den: u32) -> (heads: bool)
    requires
        1 <= den,
        num <= den,
    ensures
        num == den ==> heads,
        num == 0 ==> !heads,
{
    let distribution = rand::distributions::Bernoulli::from_ratio(num, den).unwrap();
    rand::distributions::Distribution::sample(&distribution, rng)
}

} // verus!
