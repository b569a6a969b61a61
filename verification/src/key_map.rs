//! The keyed index behind the store: a hash map from `String` keys to `u64`
//! handles, provided by the `hashbrown` crate and held behind trusted
//! wrappers. `key_map_entries` names what the map holds; each wrapper states
//! over that name what the operation it relies on does.

use vstd::prelude::*;

verus! {

/// The key-to-handle index of the keyed store. The hash map inside comes
/// from the `hashbrown` crate and is opaque to the verifier;
/// [`key_map_entries`] names its contents, and the wrappers in this module
/// state how each operation reads or changes them.
#[verifier::external_body]
pub struct KeyMap {
    map: hashbrown::HashMap<String, u64>,
}

/// The entries a [`KeyMap`] holds: every key in the map, with its handle.
pub uninterp spec fn key_map_entries(m: KeyMap) -> Map<Seq<char>, u64>;

/// A key map with no entries at all.
pub open spec fn no_entries() -> Map<Seq<char>, u64> {
    Map::empty()
}

/// Relies on hashbrown's `HashMap::new`: the new map holds no entries.
#[verifier::external_body]
pub(crate) fn key_map_new() -> (r: KeyMap)
    ensures
        key_map_entries(r) == no_entries(),
{
    KeyMap { map: hashbrown::HashMap::new() }
}

/// Relies on hashbrown's `HashMap::insert`: the pair is added, replacing any
/// earlier handle under the same key; every other entry is untouched.
#[verifier::external_body]
pub(crate) fn key_map_insert(m: &mut KeyMap, key: &str, h: u64)
    ensures
        key_map_entries(*final(m)) == key_map_entries(*old(m)).insert(key@, h),
{
    m.map.insert(key.to_string(), h);
}

/// Relies on hashbrown's `HashMap::remove`: the entry under the key, if any,
/// is taken out and its handle returned; every other entry is untouched.
#[verifier::external_body]
pub(crate) fn key_map_remove(m: &mut KeyMap, key: &str) -> (r: Option<u64>)
    ensures
        key_map_entries(*final(m)) == key_map_entries(*old(m)).remove(key@),
        r == (if key_map_entries(*old(m)).contains_key(key@) {
            Some(key_map_entries(*old(m))[key@])
        } else {
            None::<u64>
        }),
{
    m.map.remove(key)
}

/// Relies on hashbrown's `HashMap::get`: the handle under the key is
/// returned, or `None` if the key is absent; the map is unchanged.
#[verifier::external_body]
pub(crate) fn key_map_get(m: &KeyMap, key: &str) -> (r: Option<u64>)
    ensures
        r == (if key_map_entries(*m).contains_key(key@) {
            Some(key_map_entries(*m)[key@])
        } else {
            None::<u64>
        }),
{
    m.map.get(key).copied()
}

} // verus!
