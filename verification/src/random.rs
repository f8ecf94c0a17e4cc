//! The game's source of randomness: a seedable generator from the `rand`
//! crate, reached through a single trusted wrapper. Everything computed from
//! a drawn number is verified for every value the wrapper may return.
use vstd::prelude::*;
use rand::Rng;

verus! {

/// Relies on `rand::rngs::StdRng`, the crate's seedable standard generator;
/// declared so that a value of it can be held and passed, with nothing
/// assumed about its insides.
#[verifier::external_type_specification]
#[verifier::external_body]
pub struct ExStdRng(rand::rngs::StdRng);

/// The random-number resource the gameplay systems draw from.
pub struct Random(pub rand::rngs::StdRng);

/// Relies on `rand::Rng::gen_range` over `lo..hi`: it panics on an empty
/// range and otherwise returns a uniformly drawn value of the range. Nothing
/// more than membership is assumed of the draw.
#[verifier::external_body]
pub(crate) fn rand_in_range(rng: &mut rand::rngs::StdRng, lo: i64, hi: i64) -> (r: i64)
    requires
        lo < hi,
    ensures
        lo <= r < hi,
{
    rng.gen_range(lo..hi)
}

} // verus!
