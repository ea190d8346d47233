use vstd::prelude::*;
use rand::Rng;

verus! {

/// Relies on `rand::thread_rng` and `rand::Rng::gen_range` over the half-open
/// range `lo..hi` of `u64`: the result is always within that range, and the
/// call panics only when the range is empty, which `requires` rules out.
#[verifier::external_body]
pub(crate) fn rand_u64_in(lo: u64, hi: u64) -> (r: u64)
    requires
        lo < hi,
    ensures
        lo <= r < hi,
{
    rand::thread_rng().gen_range(lo..hi)
}

/// Relies on `rand::thread_rng` and `rand::Rng::gen_range` over the half-open
/// range `lo..hi` of `u128`: the result is always within that range, and the
/// call panics only when the range is empty, which `requires` rules out.
#[verifier::external_body]
pub(crate) fn rand_u128_in(lo: u128, hi: u128) -> (r: u128)
    requires
        lo < hi,
    ensures
        lo <= r < hi,
{
    rand::thread_rng().gen_range(lo..hi)
}

} // verus!
