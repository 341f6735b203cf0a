//! The one source of chance in the library: a uniformly drawn index.
use rand::Rng;

use vstd::prelude::*;

verus! {

/// Draws an index uniformly from `0..n`.
///
/// Trusted: calls `rand::Rng::gen_range` on `rand::thread_rng()` with the
/// range `0..n`, which panics only on an empty range; the contract claims
/// that the index lies in the range, and nothing about which index it is.
#[verifier::external_body]
pub(crate) fn random_index(n: usize) -> (r: usize)
    requires
        n > 0,
    ensures
        r < n,
{
    rand::thread_rng().gen_range(0..n)
}

} // verus!
