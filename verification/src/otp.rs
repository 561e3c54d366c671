//! The one-time passcode issuer: six-digit numeric codes with a short
//! default lifetime, each bound to a user in a store of this issuer's own.

use vstd::prelude::*;
use crate::OTP_TIMEOUT;
use crate::db::{DataStore, SessionItem, StoreError, composite, expiry_at, valid_at};
use crate::digits::{
    all_dec_chars, dec_digits, dec_string, lemma_dec_digits_chars, lemma_dec_digits_len, pow10,
};
use crate::rng::random_in_range;
use crate::store_map::empty_contents;
use vstd::string::StringExecFns;

verus! {

/// Lower bound (inclusive) of the numeric space passcodes are drawn from.
pub const OTP_CODE_LO: u64 = 100_000;

/// Upper bound (exclusive) of the numeric space passcodes are drawn from.
pub const OTP_CODE_HI: u64 = 1_000_000;

/// A passcode: the decimal rendering of one draw from the passcode space,
/// which is always exactly six digits.
pub open spec fn otp_code(s: Seq<char>) -> bool {
    exists|n: u64| OTP_CODE_LO <= n < OTP_CODE_HI && s == dec_digits(n as nat)
}

/// Issues, validates and revokes one-time passcodes.
pub struct Otp {
    keep_alive: u64,
    db: DataStore,
}

impl View for Otp {
    type V = Map<Seq<char>, u64>;

    /// The issuer's store: composite key to expiration instant.
    closed spec fn view(&self) -> Map<Seq<char>, u64> {
        self.db@
    }
}

impl Otp {
    /// The configured default passcode lifetime, in seconds.
    pub closed spec fn default_lifetime(&self) -> u64 {
        self.keep_alive
    }

    /// The issuer's store has a finite set of keys.
    pub open spec fn wf(&self) -> bool {
        self@.dom().finite()
    }

    /// Make an issuer with an empty store and the default passcode lifetime.
    pub fn new() -> (otp: Otp)
        ensures
            otp@ == empty_contents(),
            otp.default_lifetime() == OTP_TIMEOUT,
            otp.wf(),
    {
        let db = DataStore::create();
        let keep_alive = OTP_TIMEOUT;
        Otp { keep_alive, db }
    }

    /// Generate a six-digit passcode: one uniform draw from the passcode
    /// space, rendered in decimal.
    pub fn generate_code(&self) -> (code: String)
        ensures
            otp_code(code@),
            code@.len() == 6,
            all_dec_chars(code@),
    {
        let n = random_in_range(OTP_CODE_LO, OTP_CODE_HI);
        let code = dec_string(n);
        proof {
            reveal_with_fuel(pow10, 7);
            lemma_dec_digits_len(n as nat, 6);
            lemma_dec_digits_chars(n as nat);
        }
        code
    }

    /// Issue a passcode for `user`: generate a code, record it with the
    /// default lifetime from the current instant, and hand the code back.
    /// Only a store write failure is passed through, and the in-memory store
    /// has none.
    pub fn create_user_otp(&mut self, user: &str) -> (result: Result<String, StoreError>)
        ensures
            result is Ok,
            ({
                let code = result->Ok_0;
                otp_code(code@) && code@.len() == 6 && all_dec_chars(code@)
                    && exists|now: u64|
                    final(self)@ == old(self)@.insert(
                        composite(code@, user@),
                        expiry_at(now, old(self).default_lifetime()),
                    )
            }),
            final(self).default_lifetime() == old(self).default_lifetime(),
            old(self).wf() ==> final(self).wf(),
    {
        let code = self.generate_code();
        let ss = SessionItem::new(code.as_str(), user, self.keep_alive);
        let ghost expires = ss.expires;
        match self.db.put(ss) {
            Ok(()) => {
                proof {
                    let now = choose|now: u64| expires == expiry_at(
                        now,
                        old(self).default_lifetime(),
                    );
                    assert(self@ == old(self)@.insert(
                        composite(code@, user@),
                        expiry_at(now, old(self).default_lifetime()),
                    ));
                }
                Ok(code)
            },
            Err(e) => Err(e),
        }
    }

    /// Whether (code, user) is present and not yet expired at the instant
    /// `now`.
    pub fn is_valid_at(&self, code: &str, user: &str, now: u64) -> (valid: bool)
        ensures
            valid == valid_at(self@, code@, user@, now),
    {
        let resp = self.db.get_at(code, user, now);
        resp.is_some()
    }

    /// Whether (code, user) is live right now. Whatever instant the clock
    /// reports, a pair with no entry is never reported valid.
    pub fn is_valid(&self, code: &str, user: &str) -> (valid: bool)
        ensures
            valid ==> self@.contains_key(composite(code@, user@)) && self@[composite(
                code@,
                user@,
            )] > 0,
            exists|now: u64| valid == valid_at(self@, code@, user@, now),
    {
        let resp = self.db.get(code, user);
        let valid = resp.is_some();
        proof {
            let now0 = choose|now: u64| (resp is Some) == valid_at(self@, code@, user@, now);
            assert(valid == valid_at(self@, code@, user@, now0));
        }
        valid
    }

    /// Revoke (code, user): drop its entry whatever the expiration state,
    /// and hand the code back iff one was present.
    pub fn remove(&mut self, code: &str, user: &str) -> (removed: Option<String>)
        ensures
            (removed is Some) == old(self)@.contains_key(composite(code@, user@)),
            removed matches Some(c) ==> c@ == code@,
            final(self)@ == old(self)@.remove(composite(code@, user@)),
            final(self).default_lifetime() == old(self).default_lifetime(),
            old(self).wf() ==> final(self).wf(),
    {
        if self.db.remove(code, user) {
            Some(code.to_owned())
        } else {
            None
        }
    }

    /// The number of entries in this issuer's store, expired-but-unpruned
    /// ones included.
    pub fn dbsize(&self) -> (n: usize)
        ensures
            n as nat == self@.dom().len(),
    {
        self.db.dbsize()
    }
}

impl Default for Otp {
    /// Same as `new`: an empty store and the default passcode lifetime.
    fn default() -> (otp: Self)
        ensures
            otp@ == empty_contents(),
            otp.default_lifetime() == OTP_TIMEOUT,
            otp.wf(),
    {
        Otp::new()
    }
}

} // verus!
