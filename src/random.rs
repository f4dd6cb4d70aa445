use vstd::prelude::*;
use rand::Rng;

verus! {

/// Relies on `rand::Rng::random_range` on the thread-local generator of
/// `rand::rng()`: for a non-empty half-open range `lo..hi` it returns a value
/// in that range (it panics only on an empty range, which `requires` rules out).
#[verifier::external_body]
pub(crate) fn random_in(lo: i32, hi: i32) -> (r: i32)
    requires
        lo < hi,
    ensures
        lo <= r < hi,
{
    rand::rng().random_range(lo..hi)
}

} // verus!
