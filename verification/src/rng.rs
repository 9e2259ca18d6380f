use vstd::prelude::*;

verus! {

/// The standard random generator of the `rand` crate, opaque to the
/// verifier. Every draw the sampler makes goes through `gen_range_usize`.
#[verifier::external_type_specification]
#[verifier::external_body]
pub struct ExStdRng(rand::rngs::StdRng);

/// Relies on rand's `RngExt::random_range` over `low..high`: the draw lies
/// in that half-open range, and the call returns (it panics only on an
/// empty range, which the precondition rules out). Nothing is assumed
/// about which value of the range comes back.
#[verifier::external_body]
pub(crate) fn gen_range_usize(rng: &mut rand::rngs::StdRng, low: usize, high: usize) -> (r: usize)
    requires
        low < high,
    ensures
        low <= r < high,
{
    rand::RngExt::random_range(rng, low..high)
}

} // verus!
