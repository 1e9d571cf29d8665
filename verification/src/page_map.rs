//! The insertion-ordered, string-keyed table that backs the page registry,
//! held in an ordered map of an outside crate. Its contents are modelled as
//! the sequence of entries in insertion order, and the few operations the
//! registry needs are specified over that sequence.

use vstd::prelude::*;

use crate::templates::{PageView, TemplatePage};
use indexmap::IndexMap;

verus! {

#[verifier::external_type_specification]
#[verifier::external_body]
#[verifier::reject_recursive_types(K)]
#[verifier::reject_recursive_types(V)]
#[verifier::reject_recursive_types(S)]
pub struct ExIndexMap<K, V, S>(IndexMap<K, V, S>);

/// The entries a page map holds, in insertion order: each key with the view
/// of the page stored under it.
pub uninterp spec fn page_map_entries(m: IndexMap<String, TemplatePage>) -> Seq<
    (Seq<char>, PageView),
>;

/// Whether some entry is stored under `key`.
pub open spec fn has_key(entries: Seq<(Seq<char>, PageView)>, key: Seq<char>) -> bool {
    exists|i: int| 0 <= i < entries.len() && entries[i].0 == key
}

/// An index at which `key` is stored, when one exists.
pub open spec fn key_index(entries: Seq<(Seq<char>, PageView)>, key: Seq<char>) -> int {
    choose|i: int| 0 <= i < entries.len() && entries[i].0 == key
}

/// No two entries share a key.
pub open spec fn keys_unique(entries: Seq<(Seq<char>, PageView)>) -> bool {
    forall|i: int, j: int| 0 <= i < j < entries.len() ==> entries[i].0 != entries[j].0
}

/// Every entry is keyed by its page's url, and keys are unique.
pub open spec fn registry_wf(entries: Seq<(Seq<char>, PageView)>) -> bool {
    &&& keys_unique(entries)
    &&& forall|i: int| 0 <= i < entries.len() ==> (#[trigger] entries[i]).0 == entries[i].1.url
}

/// What inserting does to the entries: an existing key keeps its place in
/// the order and its value is replaced; a new key is appended.
pub open spec fn ordered_insert(
    entries: Seq<(Seq<char>, PageView)>,
    key: Seq<char>,
    value: PageView,
) -> Seq<(Seq<char>, PageView)> {
    if has_key(entries, key) {
        entries.update(key_index(entries, key), (key, value))
    } else {
        entries.push((key, value))
    }
}

/// The value stored under `key`, when the entries hold one.
pub open spec fn spec_lookup(entries: Seq<(Seq<char>, PageView)>, key: Seq<char>) -> Option<
    PageView,
> {
    if has_key(entries, key) {
        Some(entries[key_index(entries, key)].1)
    } else {
        None
    }
}

/// Relies on `indexmap::IndexMap::new`: the new map is empty.
#[verifier::external_body]
pub fn page_map_new() -> (m: IndexMap<String, TemplatePage>)
    ensures
        page_map_entries(m) == Seq::<(Seq<char>, PageView)>::empty(),
{
    IndexMap::new()
}

/// Relies on `indexmap::IndexMap::insert`: an existing equivalent key keeps
/// its place in the order and its value is replaced; otherwise the new pair
/// is inserted last in order.
#[verifier::external_body]
pub fn page_map_insert(m: &mut IndexMap<String, TemplatePage>, key: String, value: TemplatePage)
    ensures
        page_map_entries(*final(m)) == ordered_insert(page_map_entries(*old(m)), key@, value@),
{
    m.insert(key, value);
}

/// Relies on `indexmap::IndexMap::get`: the value stored under an equivalent
/// key, if the map holds one.
#[verifier::external_body]
pub fn page_map_get<'a>(m: &'a IndexMap<String, TemplatePage>, key: &str) -> (r: Option<
    &'a TemplatePage,
>)
    ensures
        r matches Some(p) ==> (exists|i: int|
            0 <= i < page_map_entries(*m).len() && page_map_entries(*m)[i] == (key@, p@)),
        r is Some <==> has_key(page_map_entries(*m), key@),
{
    m.get(key)
}

/// The entries of a well-formed registry determine each lookup: the entry at
/// any index is found under its own key.
pub proof fn lemma_lookup_at_index(entries: Seq<(Seq<char>, PageView)>, i: int)
    requires
        keys_unique(entries),
        0 <= i < entries.len(),
    ensures
        spec_lookup(entries, entries[i].0) == Some(entries[i].1),
{
    assert(has_key(entries, entries[i].0));
    let j = key_index(entries, entries[i].0);
    assert(entries[j].0 == entries[i].0);
    assert(j == i);
}

/// A key under which nothing is stored looks up to nothing.
pub proof fn lemma_lookup_absent(entries: Seq<(Seq<char>, PageView)>, key: Seq<char>)
    requires
        !has_key(entries, key),
    ensures
        spec_lookup(entries, key) is None,
{
}

/// Inserting never makes two entries share a key.
pub proof fn lemma_ordered_insert_unique(
    entries: Seq<(Seq<char>, PageView)>,
    key: Seq<char>,
    value: PageView,
)
    requires
        keys_unique(entries),
    ensures
        keys_unique(ordered_insert(entries, key, value)),
{
    let u = ordered_insert(entries, key, value);
    if has_key(entries, key) {
        let j = key_index(entries, key);
        assert(0 <= j < entries.len() && entries[j].0 == key);
        assert(forall|a: int| 0 <= a < u.len() && a != j ==> u[a] == entries[a]);
        assert(forall|i: int| 0 <= i < u.len() ==> (#[trigger] u[i]).0 == entries[i].0);
    } else {
        assert(forall|a: int| 0 <= a < entries.len() ==> u[a] == entries[a]);
    }
}

/// Lookup is a pure function of the registry: two lookups with the same path
/// on the same entries give identical results.
pub proof fn lemma_lookup_pure(
    entries: Seq<(Seq<char>, PageView)>,
    path: Seq<char>,
    r1: Option<PageView>,
    r2: Option<PageView>,
)
    requires
        r1 == spec_lookup(entries, path),
        r2 == spec_lookup(entries, path),
    ensures
        r1 == r2,
{
}

/// Inserting keeps the registry well formed when the new page is keyed by
/// its own url.
pub proof fn lemma_ordered_insert_wf(
    entries: Seq<(Seq<char>, PageView)>,
    key: Seq<char>,
    value: PageView,
)
    requires
        registry_wf(entries),
        value.url == key,
    ensures
        registry_wf(ordered_insert(entries, key, value)),
{
    if has_key(entries, key) {
        let j = key_index(entries, key);
        assert(0 <= j < entries.len() && entries[j].0 == key);
        let u = ordered_insert(entries, key, value);
        assert(forall|a: int| 0 <= a < u.len() && a != j ==> u[a] == entries[a]);
        assert(forall|i: int| 0 <= i < u.len() ==> (#[trigger] u[i]).0 == entries[i].0);
        assert(keys_unique(u));
    } else {
        let u = ordered_insert(entries, key, value);
        assert(forall|a: int| 0 <= a < entries.len() ==> u[a] == entries[a]);
        assert(keys_unique(u));
    }
}

/// After an insert, the inserted key looks up to the inserted value.
pub proof fn lemma_ordered_insert_lookup_same(
    entries: Seq<(Seq<char>, PageView)>,
    key: Seq<char>,
    value: PageView,
)
    requires
        keys_unique(entries),
    ensures
        spec_lookup(ordered_insert(entries, key, value), key) == Some(value),
{
    let u = ordered_insert(entries, key, value);
    if has_key(entries, key) {
        let j = key_index(entries, key);
        assert(0 <= j < entries.len() && entries[j].0 == key);
        assert(u[j] == (key, value));
        assert(has_key(u, key));
        let k = key_index(u, key);
        assert(u[k].0 == key);
        assert(forall|a: int| 0 <= a < u.len() && a != j ==> u[a] == entries[a]);
        assert(k == j);
    } else {
        let j = entries.len() as int;
        assert(u[j] == (key, value));
        assert(has_key(u, key));
        let k = key_index(u, key);
        assert(u[k].0 == key);
        assert(forall|a: int| 0 <= a < entries.len() ==> u[a] == entries[a]);
        assert(k == j);
    }
}

/// An insert leaves every other key's lookup unchanged.
pub proof fn lemma_ordered_insert_lookup_other(
    entries: Seq<(Seq<char>, PageView)>,
    key: Seq<char>,
    value: PageView,
    other: Seq<char>,
)
    requires
        keys_unique(entries),
        other != key,
    ensures
        spec_lookup(ordered_insert(entries, key, value), other) == spec_lookup(entries, other),
{
    let u = ordered_insert(entries, key, value);
    if has_key(entries, key) {
        let j = key_index(entries, key);
        assert(0 <= j < entries.len() && entries[j].0 == key);
        assert(forall|a: int| 0 <= a < u.len() && a != j ==> u[a] == entries[a]);
        assert(u[j].0 == key);
        if has_key(entries, other) {
            let i = key_index(entries, other);
            assert(entries[i].0 == other);
            assert(i != j);
            assert(u[i] == entries[i]);
            assert(has_key(u, other));
            let k = key_index(u, other);
            assert(u[k].0 == other);
            assert(k != j);
            assert(u[k] == entries[k]);
            assert(k == i) by {
                assert(keys_unique(entries));
            }
        } else {
            assert(forall|a: int| 0 <= a < u.len() && a != j ==> u[a].0 == entries[a].0);
            assert(!has_key(u, other));
        }
    } else {
        let j = entries.len() as int;
        assert(forall|a: int| 0 <= a < entries.len() ==> u[a] == entries[a]);
        assert(u[j].0 == key);
        if has_key(entries, other) {
            let i = key_index(entries, other);
            assert(u[i] == entries[i]);
            assert(has_key(u, other));
            let k = key_index(u, other);
            assert(u[k].0 == other);
            assert(k != j);
            assert(u[k] == entries[k]);
            assert(k == i);
        } else {
            assert(!has_key(u, other));
        }
    }
}

} // verus!
