use crate::model::Output;
use indexmap::IndexMap;
use vstd::prelude::*;

verus! {

#[verifier::external_type_specification]
#[verifier::external_body]
#[verifier::reject_recursive_types(K)]
#[verifier::reject_recursive_types(V)]
#[verifier::reject_recursive_types(S)]
pub struct ExIndexMap<K, V, S>(IndexMap<K, V, S>);

/// The entries of a map from input keys to resolved outputs, in the map's order.
pub uninterp spec fn entries_of(m: IndexMap<([u8; 32], u64), Output>) -> Seq<(([u8; 32], u64), Output)>;

/// No key appears in two entries.
pub open spec fn unique_keys<V>(s: Seq<(([u8; 32], u64), V)>) -> bool {
    forall|i: int, j: int| 0 <= i < j < s.len() ==> s[i].0 != s[j].0
}

/// Some entry has key `k`.
pub open spec fn has_key<V>(s: Seq<(([u8; 32], u64), V)>, k: ([u8; 32], u64)) -> bool {
    exists|i: int| 0 <= i < s.len() && s[i].0 == k
}

/// The entries after inserting `(k, v)`: an entry with key `k` keeps its place
/// and takes the value `v`; without one, the pair is added last.
pub open spec fn inserted<V>(s: Seq<(([u8; 32], u64), V)>, k: ([u8; 32], u64), v: V) -> Seq<(([u8; 32], u64), V)> {
    if has_key(s, k) {
        let i = choose|i: int| 0 <= i < s.len() && s[i].0 == k;
        s.update(i, (k, v))
    } else {
        s.push((k, v))
    }
}

/// Relies on `IndexMap::new`: a map with no entries.
#[verifier::external_body]
pub(crate) fn empty_map() -> (r: IndexMap<([u8; 32], u64), Output>)
    ensures
        entries_of(r) == Seq::<(([u8; 32], u64), Output)>::empty(),
{
    IndexMap::new()
}

/// Relies on `IndexMap::insert`: an entry with an equal key keeps its place in
/// the order and takes the new value; otherwise the pair goes last.
#[verifier::external_body]
pub(crate) fn map_insert(m: &mut IndexMap<([u8; 32], u64), Output>, k: ([u8; 32], u64), v: Output)
    requires
        unique_keys(entries_of(*old(m))),
    ensures
        entries_of(*final(m)) == inserted(entries_of(*old(m)), k, v),
        unique_keys(entries_of(*final(m))),
{
    m.insert(k, v);
}

/// Relies on `IndexMap::len`: the number of entries.
#[verifier::external_body]
pub(crate) fn map_len(m: &IndexMap<([u8; 32], u64), Output>) -> (r: usize)
    ensures
        r == entries_of(*m).len(),
{
    m.len()
}

/// Relies on `IndexMap::get_index`: the key of the entry at position `i`.
#[verifier::external_body]
pub(crate) fn key_at(m: &IndexMap<([u8; 32], u64), Output>, i: usize) -> (r: ([u8; 32], u64))
    requires
        i < entries_of(*m).len(),
    ensures
        r == entries_of(*m)[i as int].0,
{
    *m.get_index(i).unwrap().0
}

/// Relies on `IndexMap::get_index`: the value of the entry at position `i`.
#[verifier::external_body]
pub(crate) fn value_at(m: &IndexMap<([u8; 32], u64), Output>, i: usize) -> (r: &Output)
    requires
        i < entries_of(*m).len(),
    ensures
        *r == entries_of(*m)[i as int].1,
{
    m.get_index(i).unwrap().1
}

/// Inserting under one key twice leaves the entries that a single insertion
/// of the later value gives: one entry for the key, holding the later value.
pub proof fn lemma_insert_twice<V>(s: Seq<(([u8; 32], u64), V)>, k: ([u8; 32], u64), v1: V, v2: V)
    requires
        unique_keys(s),
    ensures
        inserted(inserted(s, k, v1), k, v2) == inserted(s, k, v2),
        inserted(inserted(s, k, v1), k, v2).len() == inserted(s, k, v1).len(),
        has_key(inserted(s, k, v2), k),
        forall|i: int| 0 <= i < inserted(s, k, v2).len() && inserted(s, k, v2)[i].0 == k ==> inserted(s, k, v2)[i].1 == v2,
{
    let s1 = inserted(s, k, v1);
    if has_key(s, k) {
        let i = choose|i: int| 0 <= i < s.len() && s[i].0 == k;
        assert(s1[i].0 == k);
        let j = choose|j: int| 0 <= j < s1.len() && s1[j].0 == k;
        assert(j == i);
        assert(inserted(s1, k, v2) =~= inserted(s, k, v2));
    } else {
        let n = s.len() as int;
        assert(s1[n].0 == k);
        let j = choose|j: int| 0 <= j < s1.len() && s1[j].0 == k;
        assert(j == n);
        assert(inserted(s1, k, v2) =~= inserted(s, k, v2));
        assert(inserted(s, k, v2)[n].0 == k);
    }
}

} // verus!
