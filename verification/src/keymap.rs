//! A hash map from canonical channel keys to plain `u64` handles, backed by
//! `hashbrown::HashMap`. The rendezvous registry keeps its pending requests
//! and its unconsumed offers in two of these.

use vstd::prelude::*;

verus! {

/// The entries of a [`KeyMap`], as a mathematical map from canonical channel
/// keys to handles.
pub uninterp spec fn key_map_entries(m: KeyMap) -> Map<Seq<char>, u64>;

/// The empty table: no keys at all.
pub open spec fn no_entries() -> Map<Seq<char>, u64> {
    Map::empty()
}

/// A map from canonical channel keys (strings) to `u64` handles.
///
/// The handles stand for values that only the runtime around this library can
/// hold: a pending request's completion continuation, or an offered channel's
/// transport endpoint. The registry logic never looks inside a handle; it only
/// stores, matches and returns them.
#[verifier::external_body]
pub struct KeyMap {
    inner: hashbrown::HashMap<String, u64>,
}

impl KeyMap {
    /// Relies on `hashbrown::HashMap::new`: creates an empty map.
    #[verifier::external_body]
    pub fn new() -> (r: KeyMap)
        ensures
            key_map_entries(r) == no_entries(),
    {
        KeyMap { inner: hashbrown::HashMap::new() }
    }

    /// Relies on `hashbrown::HashMap::insert`: maps the key to the value and
    /// returns the value the key was mapped to before, if any.
    #[verifier::external_body]
    pub fn insert(&mut self, k: String, v: u64) -> (r: Option<u64>)
        ensures
            key_map_entries(*final(self)) == key_map_entries(*old(self)).insert(k@, v),
            r == (if key_map_entries(*old(self)).dom().contains(k@) {
                Some(key_map_entries(*old(self))[k@])
            } else {
                None::<u64>
            }),
    {
        self.inner.insert(k, v)
    }

    /// Relies on `hashbrown::HashMap::remove`: removes the key and returns the
    /// value it was mapped to, if any.
    #[verifier::external_body]
    pub fn remove(&mut self, k: &str) -> (r: Option<u64>)
        ensures
            key_map_entries(*final(self)) == key_map_entries(*old(self)).remove(k@),
            r == (if key_map_entries(*old(self)).dom().contains(k@) {
                Some(key_map_entries(*old(self))[k@])
            } else {
                None::<u64>
            }),
    {
        self.inner.remove(k)
    }

    /// Relies on `hashbrown::HashMap::contains_key`.
    #[verifier::external_body]
    pub fn contains_key(&self, k: &str) -> (r: bool)
        ensures
            r == key_map_entries(*self).dom().contains(k@),
    {
        self.inner.contains_key(k)
    }
}

} // verus!
