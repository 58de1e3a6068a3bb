//! The library's single source of randomness: one trusted wrapper over the
//! `rand` crate, shared by the resolver, the directors and the phase machine.

use vstd::prelude::*;

verus! {

/// Relies on `rand::Rng::gen_range` on the thread-local generator: it
/// returns a value uniformly distributed in the half-open range `lo..hi`
/// and panics only on an empty range, which the precondition excludes.
/// Nothing more is promised of the result than its bounds.
#[verifier::external_body]
pub(crate) fn random_in_range(lo: i32, hi: i32) -> (r: i32)
    requires
        lo < hi,
    ensures
        lo <= r < hi,
{
    rand::Rng::gen_range(&mut rand::thread_rng(), lo..hi)
}

} // verus!
