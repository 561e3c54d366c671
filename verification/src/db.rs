//! The expiring store shared by the passcode and session issuers: a mapping
//! from a composite (code, user) key to an absolute expiration instant, with
//! expiry-aware retrieval and lazy expiration.

use vstd::prelude::*;
use crate::clock::now_seconds;
use crate::store_map::{
    StoreMap, empty_contents, store_contents, store_map_get, store_map_insert, store_map_len,
    store_map_new, store_map_remove,
};
use vstd::string::StringExecFns;

verus! {

broadcast use vstd::set::group_set_axioms, vstd::map::group_map_axioms;

/// One issued credential: an opaque code bound to a user, with the absolute
/// instant (seconds since the Unix epoch) past which it no longer counts.
#[derive(Debug, Clone)]
pub struct SessionItem {
    pub code: String,
    pub user: String,
    pub expires: u64,
}

/// Failure to write to the backing store. With the in-memory map it never
/// arises; it is reserved for a future backing store that can fail.
#[derive(Debug, Clone, Copy, PartialEq, Eq)]
pub enum StoreError {
    WriteFailure,
}

/// The absolute expiry reached by waiting `keep_alive` seconds from `now`,
/// capped at the top of the range.
pub open spec fn expiry_at(now: u64, keep_alive: u64) -> u64 {
    if now + keep_alive <= u64::MAX {
        (now + keep_alive) as u64
    } else {
        u64::MAX
    }
}

/// The composite key under which (code, user) is stored: the code, one
/// colon, then the user.
pub open spec fn composite(code: Seq<char>, user: Seq<char>) -> Seq<char> {
    code + seq![':'] + user
}

/// True of a store mapping iff (code, user) is present and not yet expired
/// at the instant `now`.
pub open spec fn valid_at(m: Map<Seq<char>, u64>, code: Seq<char>, user: Seq<char>, now: u64) -> bool {
    m.contains_key(composite(code, user)) && now < m[composite(code, user)]
}

impl SessionItem {
    /// Build a credential record as of the instant `now`.
    pub fn new_at(code: &str, user: &str, keep_alive: u64, now: u64) -> (item: SessionItem)
        ensures
            item.code@ == code@,
            item.user@ == user@,
            item.expires == expiry_at(now, keep_alive),
    {
        let expires = if now <= u64::MAX - keep_alive {
            now + keep_alive
        } else {
            u64::MAX
        };
        SessionItem { code: code.to_owned(), user: user.to_owned(), expires }
    }

    /// Build a credential record that expires `keep_alive` seconds after the
    /// current instant.
    pub fn new(code: &str, user: &str, keep_alive: u64) -> (item: SessionItem)
        ensures
            item.code@ == code@,
            item.user@ == user@,
            exists|now: u64| item.expires == expiry_at(now, keep_alive),
    {
        let now = now_seconds();
        SessionItem::new_at(code, user, keep_alive, now)
    }

    /// Whether the record is expired as of the instant `now`.
    pub fn has_expired_at(&self, now: u64) -> (expired: bool)
        ensures
            expired == (self.expires <= now),
    {
        self.expires <= now
    }

    /// Whether the record is expired as of the current instant. A record
    /// whose expiry is the epoch itself is expired whatever the clock reads.
    pub fn has_expired(&self) -> (expired: bool)
        ensures
            self.expires == 0 ==> expired,
    {
        let now = now_seconds();
        self.has_expired_at(now)
    }
}

/// An in-memory association of composite (code, user) keys to expiration
/// instants. Expired entries are left in place until overwritten or removed,
/// and read as absent.
pub struct DataStore {
    db: StoreMap,
}

impl View for DataStore {
    type V = Map<Seq<char>, u64>;

    /// The mapping the store holds: composite key to expiration instant.
    closed spec fn view(&self) -> Map<Seq<char>, u64> {
        store_contents(self.db)
    }
}

impl DataStore {
    /// The store's set of keys is finite.
    pub open spec fn wf(&self) -> bool {
        self@.dom().finite()
    }

    /// Make an empty store.
    pub fn create() -> (store: DataStore)
        ensures
            store@ == empty_contents(),
            store.wf(),
    {
        DataStore { db: store_map_new() }
    }

    /// The composite key for (code, user).
    pub fn create_key(&self, code: &str, user: &str) -> (key: String)
        ensures
            key@ == composite(code@, user@),
    {
        let mut key = code.to_owned();
        key.append(":");
        key.append(user);
        proof {
            reveal_strlit(":");
            assert(key@ =~= composite(code@, user@));
        }
        key
    }

    /// The number of entries physically present, expired-but-unpruned ones
    /// included: the count of map entries, not of valid credentials.
    pub fn dbsize(&self) -> (n: usize)
        ensures
            n as nat == self@.dom().len(),
    {
        store_map_len(&self.db)
    }

    /// Insert or overwrite the entry for (code, user) of `item`. Against the
    /// in-memory map this always succeeds.
    pub fn put(&mut self, item: SessionItem) -> (result: Result<(), StoreError>)
        ensures
            result is Ok,
            final(self)@ == old(self)@.insert(composite(item.code@, item.user@), item.expires),
            old(self).wf() ==> final(self).wf(),
    {
        let key = self.create_key(item.code.as_str(), item.user.as_str());
        let _prior = store_map_insert(&mut self.db, key, item.expires);
        Ok(())
    }

    /// Look up (code, user) as of the instant `now`: the record, if one is
    /// present and not yet expired. An expired entry reads as absent but is
    /// left in the map.
    pub fn get_at(&self, code: &str, user: &str, now: u64) -> (found: Option<SessionItem>)
        ensures
            (found is Some) == valid_at(self@, code@, user@, now),
            match found {
                Some(item) => item.code@ == code@ && item.user@ == user@
                    && item.expires == self@[composite(code@, user@)] && now < item.expires,
                None => true,
            },
    {
        let key = self.create_key(code, user);
        match store_map_get(&self.db, &key) {
            None => None,
            Some(expires) => {
                let item = SessionItem { code: code.to_owned(), user: user.to_owned(), expires };
                if item.has_expired_at(now) {
                    None
                } else {
                    Some(item)
                }
            },
        }
    }

    /// Look up (code, user) against the current instant. Whatever instant
    /// the clock reports, an absent pair is never found, and a found record
    /// carries the stored pair and expiry.
    pub fn get(&self, code: &str, user: &str) -> (found: Option<SessionItem>)
        ensures
            !self@.contains_key(composite(code@, user@)) ==> found is None,
            match found {
                Some(item) => item.code@ == code@ && item.user@ == user@
                    && self@.contains_key(composite(code@, user@))
                    && item.expires == self@[composite(code@, user@)] && item.expires > 0,
                None => true,
            },
            exists|now: u64| (found is Some) == valid_at(self@, code@, user@, now),
    {
        let now = now_seconds();
        self.get_at(code, user, now)
    }

    /// Delete the entry for (code, user) whatever its expiration state;
    /// report whether one was present to delete.
    pub fn remove(&mut self, code: &str, user: &str) -> (was_present: bool)
        ensures
            was_present == old(self)@.contains_key(composite(code@, user@)),
            final(self)@ == old(self)@.remove(composite(code@, user@)),
            old(self).wf() ==> final(self).wf(),
    {
        let key = self.create_key(code, user);
        let removed = store_map_remove(&mut self.db, &key);
        removed.is_some()
    }
}

/// Law: two pairs with the same code collide under the composite key only
/// when their users are equal.
pub proof fn lemma_composite_same_code_injective(code: Seq<char>, u1: Seq<char>, u2: Seq<char>)
    requires
        composite(code, u1) == composite(code, u2),
    ensures
        u1 == u2,
{
    let k1 = composite(code, u1);
    let k2 = composite(code, u2);
    assert(k1.len() == code.len() + 1 + u1.len());
    assert(k2.len() == code.len() + 1 + u2.len());
    assert forall|i: int| 0 <= i < u1.len() implies u1[i] == u2[i] by {
        assert(k1[code.len() + 1 + i] == u1[i]);
        assert(k2[code.len() + 1 + i] == u2[i]);
    }
    assert(u1 =~= u2);
}

/// Law: the composite key is injective over the pairs the issuers build,
/// whose codes are digit characters and so never contain the separating
/// colon. No two distinct (code, user) pairs share a key.
pub proof fn lemma_composite_injective(c1: Seq<char>, u1: Seq<char>, c2: Seq<char>, u2: Seq<char>)
    requires
        !c1.contains(':'),
        !c2.contains(':'),
        composite(c1, u1) == composite(c2, u2),
    ensures
        c1 == c2,
        u1 == u2,
{
    let k1 = composite(c1, u1);
    let k2 = composite(c2, u2);
    assert(k1.len() == c1.len() + 1 + u1.len());
    assert(k2.len() == c2.len() + 1 + u2.len());
    if c1.len() < c2.len() {
        assert(k1[c1.len() as int] == ':');
        assert(k2[c1.len() as int] == c2[c1.len() as int]);
        assert(c2.contains(':')) by {
            assert(0 <= c1.len() < c2.len() && c2[c1.len() as int] == ':');
        }
    }
    if c2.len() < c1.len() {
        assert(k2[c2.len() as int] == ':');
        assert(k1[c2.len() as int] == c1[c2.len() as int]);
        assert(c1.contains(':')) by {
            assert(0 <= c2.len() < c1.len() && c1[c2.len() as int] == ':');
        }
    }
    assert(c1.len() == c2.len());
    assert forall|i: int| 0 <= i < c1.len() implies c1[i] == c2[i] by {
        assert(k1[i] == c1[i]);
        assert(k2[i] == c2[i]);
    }
    assert(c1 =~= c2);
    lemma_composite_same_code_injective(c1, u1, u2);
}

/// Law: recording (code, user) at the instant `now` with a lifetime of at
/// least one second makes (code, user) valid at that instant (except at the
/// last representable instant, where the capped expiry cannot lie beyond
/// `now`), while a (code, other) pair that has no entry of its own stays
/// invalid.
pub proof fn lemma_issue_then_valid(
    m: Map<Seq<char>, u64>,
    code: Seq<char>,
    user: Seq<char>,
    other: Seq<char>,
    lifetime: u64,
    now: u64,
)
    requires
        1 <= lifetime,
        now < u64::MAX,
        other != user,
        !m.contains_key(composite(code, other)),
    ensures
        valid_at(m.insert(composite(code, user), expiry_at(now, lifetime)), code, user, now),
        !valid_at(m.insert(composite(code, user), expiry_at(now, lifetime)), code, other, now),
{
    if composite(code, user) == composite(code, other) {
        lemma_composite_same_code_injective(code, user, other);
    }
}

/// Law: a credential recorded with lifetime zero is already expired, and so
/// invalid, at the very instant of issuance.
pub proof fn lemma_issue_zero_lifetime_invalid(
    m: Map<Seq<char>, u64>,
    code: Seq<char>,
    user: Seq<char>,
    now: u64,
)
    ensures
        !valid_at(m.insert(composite(code, user), expiry_at(now, 0)), code, user, now),
{
}

/// Law: after (code, user) is removed, the pair is invalid at every instant.
pub proof fn lemma_remove_then_invalid(
    m: Map<Seq<char>, u64>,
    code: Seq<char>,
    user: Seq<char>,
    now: u64,
)
    ensures
        !valid_at(m.remove(composite(code, user)), code, user, now),
{
}

/// Law: a put of an absent (code, user) pair grows the entry count by
/// exactly one, while overwriting a present pair leaves it unchanged.
pub proof fn lemma_put_size(
    m: Map<Seq<char>, u64>,
    code: Seq<char>,
    user: Seq<char>,
    expires: u64,
)
    requires
        m.dom().finite(),
    ensures
        !m.contains_key(composite(code, user)) ==> m.insert(
            composite(code, user),
            expires,
        ).dom().len() == m.dom().len() + 1,
        m.contains_key(composite(code, user)) ==> m.insert(
            composite(code, user),
            expires,
        ).dom().len() == m.dom().len(),
{
    if m.contains_key(composite(code, user)) {
        assert(m.insert(composite(code, user), expires).dom() =~= m.dom());
    }
}

} // verus!
