use vstd::prelude::*;
use rand::Rng;
use rand::rngs::StdRng;

verus! {

/// The seedable generator of the `rand` crate, carried through as an opaque value.
#[verifier::external_type_specification]
#[verifier::external_body]
pub struct ExStdRng(rand::rngs::StdRng);

/// Calls `rand::Rng::gen_range` on the half-open range `lo..hi` of `i32`.
///
/// Trusted, not proved: the call panics on an empty range, which `requires`
/// leaves out, and otherwise returns a value of the range. Nothing is claimed
/// about which value it is.
#[verifier::external_body]
pub(crate) fn draw(rng: &mut StdRng, lo: i32, hi: i32) -> (r: i32)
    requires
        lo < hi,
    ensures
        lo <= r < hi,
{
    rng.gen_range(lo..hi)
}

} // verus!
