use vstd::prelude::*;

verus! {

/// Relies on rand::random: a fresh draw from the thread-local generator.
/// Nothing is promised of the value; callers must hold for every outcome.
#[verifier::external_body]
pub(crate) fn random_u64() -> u64 {
    rand::random()
}

/// Relies on rand::random_range: the draw lies within the given range,
/// which must be nonempty (rand panics on an empty range).
#[verifier::external_body]
pub(crate) fn random_in_range_i32(lo: i32, hi: i32) -> (r: i32)
    requires
        lo <= hi,
    ensures
        lo <= r <= hi,
{
    rand::random_range(lo..=hi)
}

} // verus!
