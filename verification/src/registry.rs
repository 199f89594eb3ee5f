//! The registry: a concurrent mapping from a unique string key to a
//! [`Field`], supporting insert-if-absent registration, point lookup, point
//! mutation of the value component, and full enumeration.
//!
//! The abstract state of a registry is a mathematical map from key
//! characters to fields, reached through [`Registry::view`]. Registration is
//! first-wins: a key is inserted at most once and later attempts with the
//! same key leave the stored field unchanged.

use vstd::prelude::*;

use crate::field::{Field, FieldValue};
use crate::store::{
    store_contains, store_entries, store_get, store_insert, store_len, store_map, store_new,
};

verus! {

/// Why an update was rejected.
#[derive(Clone, Copy, Debug, PartialEq, Eq, Structural)]
pub enum SetError {
    /// The key has never been registered.
    NotFound,
    /// The submitted value's kind disagrees with the stored field's kind.
    TypeMismatch,
}

/// What registering `field` under `key` leaves in a registry whose contents
/// are `m`: the first registration of a key wins and later ones are no-ops.
pub open spec fn spec_register(m: Map<Seq<char>, Field>, key: Seq<char>, field: Field) -> Map<
    Seq<char>,
    Field,
> {
    if m.dom().contains(key) {
        m
    } else {
        m.insert(key, field)
    }
}

/// What an update of `key` to `v` leaves in a registry whose contents are
/// `m`, together with the reported outcome: only the value component of a
/// stored field changes, and only when the key is present and the kinds
/// agree.
pub open spec fn spec_set_value(m: Map<Seq<char>, Field>, key: Seq<char>, v: FieldValue) -> (Map<
    Seq<char>,
    Field,
>, Result<(), SetError>) {
    if !m.dom().contains(key) {
        (m, Err(SetError::NotFound))
    } else if m[key].kind() != v.kind() {
        (m, Err(SetError::TypeMismatch))
    } else {
        (m.insert(key, m[key].with_value(v)), Ok(()))
    }
}

/// The key-to-field store. One instance is created at process warm-up,
/// shared with every registration site and with the editing service, and
/// lives for the process lifetime.
pub struct Registry {
    map: dashmap::DashMap<String, Field>,
}

impl Registry {
    /// The abstract contents: a map from key characters to fields.
    pub closed spec fn view(self) -> Map<Seq<char>, Field> {
        store_map(self.map)
    }

    /// Creates an empty registry.
    pub fn new() -> (r: Registry)
        ensures
            r@ == Map::<Seq<char>, Field>::empty(),
    {
        Registry { map: store_new() }
    }

    /// Inserts `field` under `key` iff the key is absent and returns whether
    /// the insertion happened; a later registration of the same key never
    /// replaces the stored field.
    pub fn register(&mut self, key: String, field: Field) -> (inserted: bool)
        ensures
            final(self)@ == spec_register(old(self)@, key@, field),
            inserted == !old(self)@.dom().contains(key@),
    {
        if store_contains(&self.map, key.as_str()) {
            false
        } else {
            store_insert(&mut self.map, key, field);
            true
        }
    }

    /// A copy of the current field stored under `key`, value and metadata
    /// both, or `None` when the key has never been registered.
    pub fn get(&self, key: &str) -> (r: Option<Field>)
        ensures
            match r {
                Some(f) => self@.dom().contains(key@) && f == self@[key@],
                None => !self@.dom().contains(key@),
            },
    {
        store_get(&self.map, key)
    }

    /// Replaces the value component of the field stored under `key`. The
    /// metadata is immutable; on `NotFound` or `TypeMismatch` the registry
    /// is left exactly as it was.
    pub fn set_value(&mut self, key: &str, v: FieldValue) -> (r: Result<(), SetError>)
        ensures
            (final(self)@, r) == spec_set_value(old(self)@, key@, v),
    {
        match store_get(&self.map, key) {
            None => Err(SetError::NotFound),
            Some(mut f) => {
                if f.set_value(v) {
                    store_insert(&mut self.map, key.to_owned(), f);
                    Ok(())
                } else {
                    Err(SetError::TypeMismatch)
                }
            }
        }
    }

    /// The current entry count.
    pub fn size(&self) -> (n: usize)
        ensures
            n == self@.dom().len(),
    {
        store_len(&self.map)
    }

    /// A point-in-time snapshot of every entry: each listed pair is stored
    /// in the registry, no key is listed twice, and every stored key is
    /// listed. The order of the pairs is not specified.
    pub fn enumerate(&self) -> (r: Vec<(String, Field)>)
        ensures
            r@.len() == self@.dom().len(),
            forall|i: int| 0 <= i < r@.len() ==> self@.contains_pair(#[trigger] r@[i].0@, r@[i].1),
            forall|i: int, j: int| 0 <= i < r@.len() && 0 <= j < r@.len() && i != j ==>
                #[trigger] r@[i].0@ != #[trigger] r@[j].0@,
            forall|k: Seq<char>| self@.dom().contains(k) ==>
                exists|i: int| 0 <= i < r@.len() && #[trigger] r@[i].0@ == k,
    {
        store_entries(&self.map)
    }
}

/// Law: the first registration of a key wins. Registering `f1` under a key
/// not yet present and then registering anything else under the same key
/// leaves the registry exactly as the first registration left it, with `f1`
/// stored.
pub proof fn lemma_register_first_wins(
    m: Map<Seq<char>, Field>,
    key: Seq<char>,
    f1: Field,
    f2: Field,
)
    requires
        !m.dom().contains(key),
    ensures
        spec_register(spec_register(m, key, f1), key, f2) == spec_register(m, key, f1),
        spec_register(m, key, f1)[key] == f1,
{
}

/// Law: an update whose kind matches the stored field succeeds, and a lookup
/// of the same key then yields a field holding exactly the submitted value,
/// with the kind and every metadata component unchanged. No other key is
/// touched.
pub proof fn lemma_set_value_then_get(m: Map<Seq<char>, Field>, key: Seq<char>, v: FieldValue)
    requires
        m.dom().contains(key),
        m[key].kind() == v.kind(),
    ensures
        ({
            let (m2, outcome) = spec_set_value(m, key, v);
            &&& outcome == Ok::<(), SetError>(())
            &&& m2.dom() == m.dom()
            &&& m2[key].value() == v
            &&& m2[key].kind() == m[key].kind()
            &&& m2[key].module_view() == m[key].module_view()
            &&& m2[key].file_view() == m[key].file_view()
            &&& m2[key].line_view() == m[key].line_view()
            &&& forall|other: Seq<char>|
                m.dom().contains(other) && other != key ==> m2[other] == #[trigger] m[other]
        }),
{
    let (m2, outcome) = spec_set_value(m, key, v);
    assert(m2.dom() =~= m.dom());
}

/// Law: an update whose kind disagrees with the stored field reports
/// `TypeMismatch` and leaves the registry exactly as it was.
pub proof fn lemma_mismatched_set_value_rejected(
    m: Map<Seq<char>, Field>,
    key: Seq<char>,
    v: FieldValue,
)
    requires
        m.dom().contains(key),
        m[key].kind() != v.kind(),
    ensures
        spec_set_value(m, key, v) == (m, Err::<(), SetError>(SetError::TypeMismatch)),
{
}

} // verus!
