//! Randomness: thin trusted wrappers around the process-wide generator.
//! Every contract states only membership in the requested range, so all
//! logic built on these draws is verified for every possible outcome.

use vstd::prelude::*;

verus! {

/// Relies on rand's `Rng::gen_range` over `thread_rng`: the draw lies in
/// the inclusive range `lo..=hi`, which is nonempty because `lo <= hi`.
#[verifier::external_body]
pub(crate) fn random_u64_in(lo: u64, hi: u64) -> (r: u64)
    requires
        lo <= hi,
    ensures
        lo <= r <= hi,
{
    rand::Rng::gen_range(&mut rand::thread_rng(), lo..=hi)
}

/// Relies on rand's `Rng::gen_range` over `thread_rng`: the draw lies in
/// the inclusive range `lo..=hi`, which is nonempty because `lo <= hi`.
#[verifier::external_body]
pub(crate) fn random_i64_in(lo: i64, hi: i64) -> (r: i64)
    requires
        lo <= hi,
    ensures
        lo <= r <= hi,
{
    rand::Rng::gen_range(&mut rand::thread_rng(), lo..=hi)
}

/// Relies on rand's `Rng::gen_range` over `thread_rng`: the draw lies in
/// the inclusive range `lo..=hi`, which is nonempty because `lo <= hi`.
#[verifier::external_body]
pub(crate) fn random_usize_in(lo: usize, hi: usize) -> (r: usize)
    requires
        lo <= hi,
    ensures
        lo <= r <= hi,
{
    rand::Rng::gen_range(&mut rand::thread_rng(), lo..=hi)
}

} // verus!
