use vstd::prelude::*;

verus! {

/// Relies on rand::random_range over a half-open integer range: the
/// result is drawn from the range, which must be non-empty (an empty
/// range makes the call panic, so `requires` rules it out).
#[verifier::external_body]
pub(crate) fn gen_range_u64(lo: u64, hi: u64) -> (r: u64)
    requires
        lo < hi,
    ensures
        lo <= r < hi,
{
    rand::random_range(lo..hi)
}

} // verus!
