//! The source of random code values.

use vstd::prelude::*;

verus! {

/// Relies on fastrand::u64: a uniform draw from the given half-open range,
/// which panics only when the range is empty. Every result lies in the
/// range; nothing more is promised, since the value depends on chance.
#[verifier::external_body]
pub(crate) fn random_in_range(lo: u64, hi: u64) -> (n: u64)
    requires
        lo < hi,
    ensures
        lo <= n < hi,
{
    fastrand::u64(lo..hi)
}

} // verus!
