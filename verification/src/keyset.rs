//! Key sets: the keys of one output, each with its origin, in the order in
//! which they were derived.

use crate::keys::{CompressedPk, XOnlyPk};
use crate::origin::{KeyOrigin, OriginModel, TapDerivation, TapDerivationModel};
use indexmap::IndexMap;
use vstd::prelude::*;

verus! {

/// `indexmap::IndexMap`, the hash map that keeps its entries in the order in
/// which their keys were first inserted. Nothing inside it is visible here:
/// what a map holds is named by `compr_keyset_entries` and
/// `xonly_keyset_entries`.
#[verifier::external_type_specification]
#[verifier::external_body]
#[verifier::reject_recursive_types(K)]
#[verifier::reject_recursive_types(V)]
#[verifier::reject_recursive_types(S)]
pub struct ExIndexMap<K, V, S>(IndexMap<K, V, S>);

/// The entries of a map of compressed keys, in the order of the map: the
/// pairs that `IndexMap::get_index` gives at 0, 1, and so on.
pub uninterp spec fn compr_keyset_entries(map: IndexMap<CompressedPk, KeyOrigin>) -> Seq<
    (CompressedPk, KeyOrigin),
>;

/// The entries of a map of x-only keys, in the order of the map: the pairs
/// that `IndexMap::get_index` gives at 0, 1, and so on.
pub uninterp spec fn xonly_keyset_entries(map: IndexMap<XOnlyPk, TapDerivation>) -> Seq<
    (XOnlyPk, TapDerivation),
>;

/// Whether some entry has the key `key`.
pub open spec fn has_key<K, V>(entries: Seq<(K, V)>, key: K) -> bool {
    exists|i: int| 0 <= i < entries.len() && (#[trigger] entries[i]).0 == key
}

/// The place of an entry with the key `key`, where there is one.
pub open spec fn place_of<K, V>(entries: Seq<(K, V)>, key: K) -> int {
    choose|i: int| 0 <= i < entries.len() && (#[trigger] entries[i]).0 == key
}

/// The entries after `key` was given the value `value`: an entry that had
/// the key keeps its key and its place and takes the value; without one, the
/// pair is added behind the last entry.
pub open spec fn with_entry<K, V>(entries: Seq<(K, V)>, key: K, value: V) -> Seq<(K, V)> {
    if has_key(entries, key) {
        entries.update(place_of(entries, key), (entries[place_of(entries, key)].0, value))
    } else {
        entries.push((key, value))
    }
}

/// The value that `key` had among the entries, if it had one.
pub open spec fn value_of<K, V>(entries: Seq<(K, V)>, key: K) -> Option<V> {
    if has_key(entries, key) {
        Some(entries[place_of(entries, key)].1)
    } else {
        None
    }
}

/// Whether no two entries have the same key.
pub open spec fn keys_are_distinct<K, V>(entries: Seq<(K, V)>) -> bool {
    forall|i: int, j: int|
        0 <= i < j < entries.len() ==> (#[trigger] entries[i]).0 != (#[trigger] entries[j]).0
}

/// Calls `indexmap::IndexMap::new`, which makes a map without entries.
#[verifier::external_body]
pub(crate) fn compr_keyset_new() -> (map: IndexMap<CompressedPk, KeyOrigin>)
    ensures
        compr_keyset_entries(map) == Seq::<(CompressedPk, KeyOrigin)>::empty(),
{
    IndexMap::new()
}

/// Calls `indexmap::IndexMap::insert`. Where the map holds the key, the
/// entry keeps its key and place, takes the new value and the old one is
/// returned; where it does not, the pair becomes the last entry and nothing
/// is returned. The map knows a key by the `Eq` and `Hash` of
/// `CompressedPk`, which go by the bytes of the key.
#[verifier::external_body]
pub(crate) fn compr_keyset_insert(
    map: &mut IndexMap<CompressedPk, KeyOrigin>,
    key: CompressedPk,
    origin: KeyOrigin,
) -> (displaced: Option<KeyOrigin>)
    ensures
        compr_keyset_entries(*final(map)) == with_entry(
            compr_keyset_entries(*old(map)),
            key,
            origin,
        ),
        displaced == value_of(compr_keyset_entries(*old(map)), key),
{
    map.insert(key, origin)
}

/// Calls `indexmap::IndexMap::new`, which makes a map without entries.
#[verifier::external_body]
pub(crate) fn xonly_keyset_new() -> (map: IndexMap<XOnlyPk, TapDerivation>)
    ensures
        xonly_keyset_entries(map) == Seq::<(XOnlyPk, TapDerivation)>::empty(),
{
    IndexMap::new()
}

/// Calls `indexmap::IndexMap::insert`. Where the map holds the key, the
/// entry keeps its key and place, takes the new value and the old one is
/// returned; where it does not, the pair becomes the last entry and nothing
/// is returned. The map knows a key by the `Eq` and `Hash` of `XOnlyPk`,
/// which go by the bytes of the key.
#[verifier::external_body]
pub(crate) fn xonly_keyset_insert(
    map: &mut IndexMap<XOnlyPk, TapDerivation>,
    key: XOnlyPk,
    derivation: TapDerivation,
) -> (displaced: Option<TapDerivation>)
    ensures
        xonly_keyset_entries(*final(map)) == with_entry(
            xonly_keyset_entries(*old(map)),
            key,
            derivation,
        ),
        displaced == value_of(xonly_keyset_entries(*old(map)), key),
{
    map.insert(key, derivation)
}

/// A map of compressed keys as a value of mathematics: its keys, each with
/// the model of its origin, in the order of the map.
pub open spec fn compr_keyset_view(map: IndexMap<CompressedPk, KeyOrigin>) -> Seq<
    (CompressedPk, OriginModel),
> {
    compr_keyset_entries(map).map_values(|e: (CompressedPk, KeyOrigin)| (e.0, e.1@))
}

/// A map of x-only keys as a value of mathematics: its keys, each with the
/// model of its derivation, in the order of the map.
pub open spec fn xonly_keyset_view(map: IndexMap<XOnlyPk, TapDerivation>) -> Seq<
    (XOnlyPk, TapDerivationModel),
> {
    xonly_keyset_entries(map).map_values(|e: (XOnlyPk, TapDerivation)| (e.0, e.1@))
}

/// The key set of an output that one compressed key spends.
pub fn single_compr_keyset(key: CompressedPk, origin: KeyOrigin) -> (map: IndexMap<
    CompressedPk,
    KeyOrigin,
>)
    ensures
        compr_keyset_entries(map) == seq![(key, origin)],
        compr_keyset_view(map) == seq![(key, origin@)],
{
    let mut map = compr_keyset_new();
    let _ = compr_keyset_insert(&mut map, key, origin);
    assert(compr_keyset_entries(map) =~= seq![(key, origin)]);
    assert(compr_keyset_view(map) =~= seq![(key, origin@)]);
    map
}

/// The key set of an output that one x-only key spends.
pub fn single_xonly_keyset(key: XOnlyPk, derivation: TapDerivation) -> (map: IndexMap<
    XOnlyPk,
    TapDerivation,
>)
    ensures
        xonly_keyset_entries(map) == seq![(key, derivation)],
        xonly_keyset_view(map) == seq![(key, derivation@)],
{
    let mut map = xonly_keyset_new();
    let _ = xonly_keyset_insert(&mut map, key, derivation);
    assert(xonly_keyset_entries(map) =~= seq![(key, derivation)]);
    assert(xonly_keyset_view(map) =~= seq![(key, derivation@)]);
    map
}

/// Where no two entries have the same key, a key has one place only.
proof fn lemma_place_of_key<K, V>(entries: Seq<(K, V)>, key: K, place: int)
    requires
        keys_are_distinct(entries),
        0 <= place < entries.len(),
        entries[place].0 == key,
    ensures
        has_key(entries, key),
        place_of(entries, key) == place,
{
    let chosen = place_of(entries, key);
    if chosen < place {
        assert(entries[chosen].0 != entries[place].0);
    } else if place < chosen {
        assert(entries[place].0 != entries[chosen].0);
    }
}

/// Giving a key a value keeps the keys distinct. Afterwards the key has that
/// value, every other key has the value it had, and the entries are one more
/// only if the key is new.
pub proof fn lemma_with_entry_keeps_keys_distinct<K, V>(
    entries: Seq<(K, V)>,
    key: K,
    value: V,
    other: K,
)
    requires
        keys_are_distinct(entries),
    ensures
        keys_are_distinct(with_entry(entries, key, value)),
        value_of(with_entry(entries, key, value), key) == Some(value),
        other != key ==> value_of(with_entry(entries, key, value), other) == value_of(
            entries,
            other,
        ),
        with_entry(entries, key, value).len() == entries.len() + if has_key(entries, key) {
            0int
        } else {
            1int
        },
{
    let after = with_entry(entries, key, value);
    let place = if has_key(entries, key) {
        place_of(entries, key)
    } else {
        entries.len() as int
    };
    assert forall|i: int| 0 <= i < entries.len() implies (#[trigger] after[i]).0
        == entries[i].0 by {}
    assert forall|i: int, j: int| 0 <= i < j < after.len() implies (#[trigger] after[i]).0 != (
    #[trigger] after[j]).0 by {
        if j < entries.len() {
            assert(entries[i].0 != entries[j].0);
        } else {
            assert(entries[i].0 != key);
        }
    }
    lemma_place_of_key(after, key, place);
    if other != key {
        if has_key(entries, other) {
            lemma_place_of_key(after, other, place_of(entries, other));
        } else if has_key(after, other) {
            assert(entries[place_of(after, other)].0 == other);
        }
    }
}

} // verus!
