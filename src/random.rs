use rand::Rng;
use vstd::prelude::*;

verus! {

/// Relies on `rand::Rng::gen_range` over `rand::thread_rng()`: a uniformly drawn value of
/// the range `0..100`.
#[verifier::external_body]
pub(crate) fn random_percent() -> (r: u32)
    ensures
        r < 100,
{
    rand::thread_rng().gen_range(0..100)
}

} // verus!
