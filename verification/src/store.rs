//! Trusted interface to `dashmap`'s concurrent hash map, which backs the
//! registry. Each item here wraps exactly one `dashmap::DashMap` method; the
//! map's contents are named by the uninterpreted function [`store_map`], and
//! every contract below states only what `dashmap`'s source shows of the
//! wrapped call. Iteration order of the map is seeded per process, so
//! [`store_entries`] promises no order, only which pairs come out.

use vstd::prelude::*;

use crate::field::Field;

verus! {

/// `dashmap::DashMap` is declared so its values can stand in fields and
/// signatures; Verus treats such a value as opaque.
#[verifier::external_type_specification]
#[verifier::external_body]
#[verifier::reject_recursive_types(K)]
#[verifier::reject_recursive_types(V)]
#[verifier::reject_recursive_types(S)]
pub struct ExDashMap<K, V, S>(dashmap::DashMap<K, V, S>);

/// The contents of a `dashmap` map from string keys to fields, as a
/// mathematical map keyed by the key's characters.
pub uninterp spec fn store_map(m: dashmap::DashMap<String, Field>) -> Map<Seq<char>, Field>;

/// The contents of a map that holds nothing.
pub open spec fn empty_contents() -> Map<Seq<char>, Field> {
    Map::empty()
}

/// Relies on `dashmap::DashMap::new`: a freshly created map is empty.
#[verifier::external_body]
pub(crate) fn store_new() -> (r: dashmap::DashMap<String, Field>)
    ensures
        store_map(r) == empty_contents(),
{
    dashmap::DashMap::new()
}

/// Relies on `dashmap::DashMap::len`: the number of entries in the map.
#[verifier::external_body]
pub(crate) fn store_len(m: &dashmap::DashMap<String, Field>) -> (n: usize)
    ensures
        n == store_map(*m).dom().len(),
{
    m.len()
}

/// Relies on `dashmap::DashMap::contains_key`: whether the key is present.
#[verifier::external_body]
pub(crate) fn store_contains(m: &dashmap::DashMap<String, Field>, key: &str) -> (r: bool)
    ensures
        r == store_map(*m).dom().contains(key@),
{
    m.contains_key(key)
}

/// Relies on `dashmap::DashMap::insert`: binds the key to the value,
/// replacing any earlier binding.
#[verifier::external_body]
pub(crate) fn store_insert(m: &mut dashmap::DashMap<String, Field>, key: String, value: Field)
    ensures
        store_map(*final(m)) == store_map(*old(m)).insert(key@, value),
{
    m.insert(key, value);
}

/// Relies on `dashmap::DashMap::get`: the value bound to the key, if any;
/// the guard it returns is resolved at once into a copy of the field.
#[verifier::external_body]
pub(crate) fn store_get(m: &dashmap::DashMap<String, Field>, key: &str) -> (r: Option<Field>)
    ensures
        match r {
            Some(f) => store_map(*m).dom().contains(key@) && f == store_map(*m)[key@],
            None => !store_map(*m).dom().contains(key@),
        },
{
    m.get(key).map(|entry| entry.value().clone())
}

/// Relies on `dashmap::DashMap::iter`: walks every entry exactly once, in an
/// order seeded per process, so only the set of pairs is promised.
#[verifier::external_body]
pub(crate) fn store_entries(m: &dashmap::DashMap<String, Field>) -> (r: Vec<(String, Field)>)
    ensures
        r@.len() == store_map(*m).dom().len(),
        forall|i: int| 0 <= i < r@.len() ==>
            store_map(*m).contains_pair(#[trigger] r@[i].0@, r@[i].1),
        forall|i: int, j: int| 0 <= i < r@.len() && 0 <= j < r@.len() && i != j ==>
            #[trigger] r@[i].0@ != #[trigger] r@[j].0@,
        forall|k: Seq<char>| store_map(*m).dom().contains(k) ==>
            exists|i: int| 0 <= i < r@.len() && #[trigger] r@[i].0@ == k,
{
    m.iter().map(|entry| (entry.key().clone(), entry.value().clone())).collect()
}

} // verus!
