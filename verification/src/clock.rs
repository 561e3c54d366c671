//! The source of the current instant.

use vstd::prelude::*;

verus! {

/// Relies on std::time::SystemTime::now: the current instant, converted to
/// whole seconds since the Unix epoch. Panics only on a clock set before the
/// epoch. Nothing is promised of the value: two calls may differ, so callers
/// state what holds for every instant.
#[verifier::external_body]
pub(crate) fn now_seconds() -> u64 {
    std::time::SystemTime::now()
        .duration_since(std::time::UNIX_EPOCH)
        .unwrap()
        .as_secs()
}

} // verus!
