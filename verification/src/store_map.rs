//! The trusted boundary around the hash map of an outside crate that backs
//! the expiring store: a struct holding the map, a name for what it holds,
//! and one wrapper per method the store calls.

use vstd::prelude::*;

verus! {

/// The map the expiring store is backed by. Opaque to the verifier; what it
/// holds is spoken of through `store_contents`.
#[verifier::external_body]
pub struct StoreMap {
    map: hashbrown::HashMap<String, u64>,
}

/// What the map holds, keyed by the character sequence of each key string.
pub uninterp spec fn store_contents(m: StoreMap) -> Map<Seq<char>, u64>;

/// The contents of a map with nothing in it.
pub open spec fn empty_contents() -> Map<Seq<char>, u64> {
    Map::empty()
}

/// Relies on hashbrown::HashMap::new: makes an empty map.
#[verifier::external_body]
pub(crate) fn store_map_new() -> (m: StoreMap)
    ensures
        store_contents(m) == empty_contents(),
{
    StoreMap { map: hashbrown::HashMap::new() }
}

/// Relies on hashbrown::HashMap::insert: maps the key to the value,
/// overwriting and returning any prior value for an equal key.
#[verifier::external_body]
pub(crate) fn store_map_insert(m: &mut StoreMap, key: String, value: u64) -> (prior: Option<u64>)
    ensures
        store_contents(*final(m)) == store_contents(*old(m)).insert(key@, value),
        prior == (if store_contents(*old(m)).contains_key(key@) {
            Some(store_contents(*old(m))[key@])
        } else {
            None::<u64>
        }),
{
    m.map.insert(key, value)
}

/// Relies on hashbrown::HashMap::get: the value mapped to an equal key, if
/// one is present.
#[verifier::external_body]
pub(crate) fn store_map_get(m: &StoreMap, key: &String) -> (value: Option<u64>)
    ensures
        value == (if store_contents(*m).contains_key(key@) {
            Some(store_contents(*m)[key@])
        } else {
            None::<u64>
        }),
{
    m.map.get(key).copied()
}

/// Relies on hashbrown::HashMap::remove: drops the entry for an equal key
/// and returns its value, if one was present.
#[verifier::external_body]
pub(crate) fn store_map_remove(m: &mut StoreMap, key: &String) -> (removed: Option<u64>)
    ensures
        store_contents(*final(m)) == store_contents(*old(m)).remove(key@),
        removed == (if store_contents(*old(m)).contains_key(key@) {
            Some(store_contents(*old(m))[key@])
        } else {
            None::<u64>
        }),
{
    m.map.remove(key)
}

/// Relies on hashbrown::HashMap::len: the number of entries present.
#[verifier::external_body]
pub(crate) fn store_map_len(m: &StoreMap) -> (n: usize)
    ensures
        n as nat == store_contents(*m).dom().len(),
{
    m.map.len()
}

} // verus!
