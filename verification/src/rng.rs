//! The crate's one source of randomness, behind a trusted wrapper.

use vstd::prelude::*;

verus! {

/// Relies on rand::rng and rand::RngExt::random_range: a uniformly random
/// value drawn from the half-open range `lo..hi`, which panics only when the
/// range is empty.
#[verifier::external_body]
pub fn random_usize_in(lo: usize, hi: usize) -> (r: usize)
    requires
        lo < hi,
    ensures
        lo <= r < hi,
{
    let mut rng = rand::rng();
    rand::RngExt::random_range(&mut rng, lo..hi)
}

} // verus!
