//! Registry of live preedit overlay windows.
//!
//! The registry centrally owns every overlay window, keyed by the nonzero
//! window identifier the windowing system assigned; input contexts refer to
//! an entry by identifier only.  It is kept in ahash's hash map, the same
//! collection the event loop around this library indexes on every damage
//! notification; its observable contents are named by [`registry_model`] and
//! every operation the handler performs is stated over that name.

use vstd::prelude::*;

verus! {

/// ahash's hash map.  Opaque here: everything the handler knows about one is
/// said by the wrappers below, over [`registry_model`].
#[verifier::external_type_specification]
#[verifier::external_body]
#[verifier::reject_recursive_types(K)]
#[verifier::reject_recursive_types(V)]
#[verifier::reject_recursive_types(S)]
pub struct ExAHashMap<K, V, S>(ahash::AHashMap<K, V, S>);

/// ahash's per-process randomized hasher state, the map's default hasher.
#[verifier::external_type_specification]
#[verifier::external_body]
pub struct ExRandomState(ahash::RandomState);

/// The collection the registry lives in: window identifier to the character
/// the window displays.
pub type WindowMap = ahash::AHashMap<u32, char>;

/// The entries the registry holds: window identifier to displayed character.
pub uninterp spec fn registry_model(m: WindowMap) -> Map<u32, char>;

/// The contents of a registry that holds no window at all.
pub open spec fn empty_registry() -> Map<u32, char> {
    Map::empty()
}

/// Relies on ahash::AHashMap::new: the new map holds no entry.
#[verifier::external_body]
pub(crate) fn registry_new() -> (r: WindowMap)
    ensures
        registry_model(r) == empty_registry(),
{
    ahash::AHashMap::new()
}

/// Relies on ahash::AHashMap::insert: stores the value under the key,
/// replacing any previous value of that key and leaving other keys alone.
#[verifier::external_body]
pub(crate) fn registry_insert(m: &mut WindowMap, window: u32, ch: char)
    ensures
        registry_model(*final(m)) == registry_model(*old(m)).insert(window, ch),
{
    m.insert(window, ch);
}

/// Relies on ahash::AHashMap::remove: takes the key's entry out, returning
/// its value if the key was present, and leaves other keys alone.
#[verifier::external_body]
pub(crate) fn registry_remove(m: &mut WindowMap, window: u32) -> (r: Option<char>)
    ensures
        registry_model(*final(m)) == registry_model(*old(m)).remove(window),
        r == (if registry_model(*old(m)).contains_key(window) {
            Some(registry_model(*old(m))[window])
        } else {
            None::<char>
        }),
{
    m.remove(&window)
}

/// Relies on std HashMap::contains_key, reached through ahash's Deref:
/// whether the key has an entry.
#[verifier::external_body]
pub(crate) fn registry_contains(m: &WindowMap, window: u32) -> (r: bool)
    ensures
        r == registry_model(*m).contains_key(window),
{
    m.contains_key(&window)
}

/// Relies on std HashMap::get, reached through ahash's Deref: the key's
/// value if it has an entry.
#[verifier::external_body]
pub(crate) fn registry_get(m: &WindowMap, window: u32) -> (r: Option<char>)
    ensures
        r == (if registry_model(*m).contains_key(window) {
            Some(registry_model(*m)[window])
        } else {
            None::<char>
        }),
{
    m.get(&window).copied()
}

/// Relies on std HashMap::len, reached through ahash's Deref: the number of
/// entries.
#[verifier::external_body]
pub(crate) fn registry_len(m: &WindowMap) -> (r: usize)
    ensures
        r == registry_model(*m).dom().len(),
{
    m.len()
}

} // verus!
