//! An in-memory store for short-lived credentials: it issues random
//! one-time passcodes and session tokens, binds each to a user and an
//! absolute expiration instant, and answers validity queries by combining
//! presence in the store with an expiration comparison.

use vstd::prelude::*;

pub mod digits;
mod clock;
pub mod db;
pub mod otp;
mod rng;
pub mod session;
mod store_map;

verus! {

/// Default lifetime of a one-time passcode, in seconds.
pub const OTP_TIMEOUT: u64 = 300;

/// Default lifetime of a session token, in seconds.
pub const SESSION_TIMEOUT: u64 = 14_000;

} // verus!
