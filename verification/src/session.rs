//! The session issuer: long-lived, high-entropy hexadecimal tokens, each
//! bound to a user in a store of this issuer's own.

use vstd::prelude::*;
use crate::SESSION_TIMEOUT;
use crate::db::{DataStore, SessionItem, StoreError, composite, expiry_at, valid_at};
use crate::digits::{
    all_hex_chars, hex_digits, hex_string, is_hex_char, lemma_hex_digits_chars,
    lemma_hex_digits_len, pow16,
};
use crate::rng::random_in_range;
use crate::store_map::empty_contents;
use vstd::string::StringExecFns;

verus! {

/// Lower bound (inclusive) of the numeric space session draws come from.
pub const SESSION_CODE_LO: u64 = 1_000_000_000_000;

/// Upper bound (exclusive) of the numeric space session draws come from.
pub const SESSION_CODE_HI: u64 = 10_000_000_000_000;

/// A session code: two independent draws from the session space, each
/// rendered in lowercase hexadecimal, concatenated.
pub open spec fn session_code(s: Seq<char>) -> bool {
    exists|a: u64, b: u64|
        SESSION_CODE_LO <= a < SESSION_CODE_HI && SESSION_CODE_LO <= b < SESSION_CODE_HI && s
            == hex_digits(a as nat) + hex_digits(b as nat)
}

/// Failure to create a session: the underlying store failure, wrapped with
/// context rather than passed through verbatim as the passcode issuer does.
#[derive(Debug, Clone, Copy, PartialEq, Eq)]
pub enum SessionError {
    SaveFailed(StoreError),
}

/// Issues, validates and revokes session tokens.
pub struct Session {
    keep_alive: u64,
    db: DataStore,
}

impl View for Session {
    type V = Map<Seq<char>, u64>;

    /// The issuer's store: composite key to expiration instant.
    closed spec fn view(&self) -> Map<Seq<char>, u64> {
        self.db@
    }
}

/// One draw from the session space renders as ten or eleven hexadecimal
/// digits.
proof fn lemma_session_draw_len(n: u64)
    requires
        SESSION_CODE_LO <= n < SESSION_CODE_HI,
    ensures
        10 <= hex_digits(n as nat).len() <= 11,
{
    reveal_with_fuel(pow16, 12);
    if (n as nat) < pow16(10) {
        lemma_hex_digits_len(n as nat, 10);
    } else {
        lemma_hex_digits_len(n as nat, 11);
    }
}

impl Session {
    /// The configured default session lifetime, in seconds.
    pub closed spec fn default_lifetime(&self) -> u64 {
        self.keep_alive
    }

    /// The issuer's store has a finite set of keys.
    pub open spec fn wf(&self) -> bool {
        self@.dom().finite()
    }

    /// Make an issuer with an empty store and the default session lifetime.
    pub fn new() -> (session: Session)
        ensures
            session@ == empty_contents(),
            session.default_lifetime() == SESSION_TIMEOUT,
            session.wf(),
    {
        let db = DataStore::create();
        let keep_alive = SESSION_TIMEOUT;
        Session { keep_alive, db }
    }

    /// Generate a session code: two independent uniform draws from the
    /// session space, each rendered in lowercase hexadecimal, concatenated.
    /// Each draw renders as ten or eleven digits, so the code has twenty to
    /// twenty-two characters.
    pub fn generate_code(&self) -> (code: String)
        ensures
            session_code(code@),
            all_hex_chars(code@),
            20 <= code@.len() <= 22,
    {
        let a = random_in_range(SESSION_CODE_LO, SESSION_CODE_HI);
        let b = random_in_range(SESSION_CODE_LO, SESSION_CODE_HI);
        let mut code = hex_string(a);
        let second = hex_string(b);
        code.append(second.as_str());
        proof {
            lemma_session_draw_len(a);
            lemma_session_draw_len(b);
            lemma_hex_digits_chars(a as nat);
            lemma_hex_digits_chars(b as nat);
            assert forall|i: int| 0 <= i < code@.len() implies is_hex_char(#[trigger] code@[i]) by {
                if i < hex_digits(a as nat).len() {
                    assert(code@[i] == hex_digits(a as nat)[i]);
                } else {
                    assert(code@[i] == hex_digits(b as nat)[i - hex_digits(a as nat).len()]);
                }
            }
        }
        code
    }

    /// Create a session for `user`: generate a code, record it with the
    /// default lifetime from the current instant, and hand the code back.
    /// A store write failure would come back wrapped, but the in-memory
    /// store has none.
    pub fn create_user_session(&mut self, user: &str) -> (result: Result<String, SessionError>)
        ensures
            result is Ok,
            ({
                let code = result->Ok_0;
                session_code(code@) && all_hex_chars(code@) && 20 <= code@.len() <= 22
                    && exists|now: u64|
                    final(self)@ == old(self)@.insert(
                        composite(code@, user@),
                        expiry_at(now, old(self).default_lifetime()),
                    )
            }),
            final(self).default_lifetime() == old(self).default_lifetime(),
            old(self).wf() ==> final(self).wf(),
    {
        let code = self.generate_code();
        let ss = SessionItem::new(code.as_str(), user, self.keep_alive);
        let ghost expires = ss.expires;
        match self.db.put(ss) {
            Ok(()) => {
                proof {
                    let now = choose|now: u64| expires == expiry_at(
                        now,
                        old(self).default_lifetime(),
                    );
                    assert(self@ == old(self)@.insert(
                        composite(code@, user@),
                        expiry_at(now, old(self).default_lifetime()),
                    ));
                }
                Ok(code)
            },
            Err(e) => Err(SessionError::SaveFailed(e)),
        }
    }

    /// Whether (code, user) is present and not yet expired at the instant
    /// `now`.
    pub fn is_valid_at(&self, code: &str, user: &str, now: u64) -> (valid: bool)
        ensures
            valid == valid_at(self@, code@, user@, now),
    {
        let resp = self.db.get_at(code, user, now);
        resp.is_some()
    }

    /// Whether (code, user) is live right now. Whatever instant the clock
    /// reports, a pair with no entry is never reported valid.
    pub fn is_valid(&self, code: &str, user: &str) -> (valid: bool)
        ensures
            valid ==> self@.contains_key(composite(code@, user@)) && self@[composite(
                code@,
                user@,
            )] > 0,
            exists|now: u64| valid == valid_at(self@, code@, user@, now),
    {
        let resp = self.db.get(code, user);
        let valid = resp.is_some();
        proof {
            let now0 = choose|now: u64| (resp is Some) == valid_at(self@, code@, user@, now);
            assert(valid == valid_at(self@, code@, user@, now0));
        }
        valid
    }

    /// Revoke (code, user): drop its entry whatever the expiration state,
    /// and hand the code back iff one was present.
    pub fn remove(&mut self, code: &str, user: &str) -> (removed: Option<String>)
        ensures
            (removed is Some) == old(self)@.contains_key(composite(code@, user@)),
            removed matches Some(c) ==> c@ == code@,
            final(self)@ == old(self)@.remove(composite(code@, user@)),
            final(self).default_lifetime() == old(self).default_lifetime(),
            old(self).wf() ==> final(self).wf(),
    {
        if self.db.remove(code, user) {
            Some(code.to_owned())
        } else {
            None
        }
    }

    /// The number of entries in this issuer's store, expired-but-unpruned
    /// ones included.
    pub fn dbsize(&self) -> (n: usize)
        ensures
            n as nat == self@.dom().len(),
    {
        self.db.dbsize()
    }
}

impl Default for Session {
    /// Same as `new`: an empty store and the default session lifetime.
    fn default() -> (session: Self)
        ensures
            session@ == empty_contents(),
            session.default_lifetime() == SESSION_TIMEOUT,
            session.wf(),
    {
        Session::new()
    }
}

} // verus!
