//! The grouped display view: a pure projection of a registry snapshot into a
//! list of module groups, module paths sorted lexicographically and entries
//! within a module sorted by declaring source location (file, then line).

use vstd::prelude::*;

use crate::field::Field;
use crate::registry::Registry;
use crate::text::{
    lemma_lex_lt_irreflexive, lemma_lex_lt_trans, lemma_lex_lt_trichotomy, lex_lt, str_compare,
    TextOrder,
};

verus! {

/// A list of strings strictly ascending in lexicographic order (hence
/// without duplicates).
pub open spec fn strictly_sorted(v: Seq<String>) -> bool {
    forall|i: int, j: int| 0 <= i < j < v.len() ==> lex_lt(#[trigger] v[i]@, #[trigger] v[j]@)
}

/// Whether some string of `v` has exactly the characters `s`.
pub open spec fn contains_text(v: Seq<String>, s: Seq<char>) -> bool {
    exists|i: int| 0 <= i < v.len() && #[trigger] v[i]@ == s
}

/// Inserts `x` into a strictly sorted list of strings, keeping it strictly
/// sorted; a string already present (by characters) is not duplicated.
fn insert_name(v: &mut Vec<String>, x: String)
    requires
        strictly_sorted(old(v)@),
    ensures
        strictly_sorted(final(v)@),
        forall|s: Seq<char>|
            contains_text(final(v)@, s) == (contains_text(old(v)@, s) || s == x@),
{
    let mut idx: usize = 0;
    while idx < v.len() && matches!(str_compare(v[idx].as_str(), x.as_str()), TextOrder::Before)
        invariant
            0 <= idx <= v@.len(),
            strictly_sorted(v@),
            v == old(v),
            forall|k: int| 0 <= k < idx ==> lex_lt(#[trigger] v@[k]@, x@),
        decreases v@.len() - idx,
    {
        idx = idx + 1;
    }
    if idx < v.len() && matches!(str_compare(v[idx].as_str(), x.as_str()), TextOrder::Same) {
        proof {
            assert(contains_text(v@, x@)) by {
                assert(v@[idx as int]@ == x@);
            }
            assert(forall|s: Seq<char>|
                contains_text(v@, s) == (contains_text(v@, s) || s == x@)) by {
                assert(contains_text(v@, x@));
            }
        }
        return ;
    }
    proof {
        if idx < v@.len() {
            lemma_lex_lt_trichotomy(v@[idx as int]@, x@);
            assert(lex_lt(x@, v@[idx as int]@));
        }
    }
    let ghost before = v@;
    v.insert(idx, x);
    proof {
        before.insert_ensures(idx as int, x);
        assert forall|i: int, j: int| 0 <= i < j < v@.len() implies lex_lt(
            #[trigger] v@[i]@,
            #[trigger] v@[j]@,
        ) by {
            if j < idx {
                assert(v@[i] == before[i] && v@[j] == before[j]);
            } else if j == idx {
                assert(v@[i] == before[i]);
                assert(lex_lt(before[i]@, x@));
            } else {
                // j > idx: v@[j] == before[j - 1]
                assert(v@[j] == before[j - 1]);
                if i < idx {
                    assert(v@[i] == before[i]);
                    if i < j - 1 {
                        assert(lex_lt(before[i]@, before[j - 1]@));
                    } else {
                        assert(lex_lt(before[i]@, x@));
                        assert(lex_lt(x@, before[j - 1]@) || before[j - 1]@ == x@);
                    }
                } else if i == idx {
                    assert(v@[i]@ == x@);
                    if j - 1 == idx {
                        assert(lex_lt(x@, before[j - 1]@));
                    } else {
                        assert(lex_lt(x@, before[idx as int]@));
                        assert(lex_lt(before[idx as int]@, before[j - 1]@));
                        lemma_lex_lt_trans(x@, before[idx as int]@, before[j - 1]@);
                    }
                } else {
                    assert(v@[i] == before[i - 1]);
                    assert(lex_lt(before[i - 1]@, before[j - 1]@));
                }
            }
        }
        assert forall|s: Seq<char>|
            contains_text(v@, s) == (contains_text(before, s) || s == x@) by {
            if contains_text(v@, s) {
                let i = choose|i: int| 0 <= i < v@.len() && #[trigger] v@[i]@ == s;
                if i < idx {
                    assert(before[i]@ == s);
                } else if i == idx {
                    assert(s == x@);
                } else {
                    assert(before[i - 1]@ == s);
                }
            }
            if contains_text(before, s) {
                let i = choose|i: int| 0 <= i < before.len() && #[trigger] before[i]@ == s;
                if i < idx {
                    assert(v@[i]@ == s);
                } else {
                    assert(v@[i + 1]@ == s);
                }
            }
            if s == x@ {
                assert(v@[idx as int]@ == s);
            }
        }
    }
}

/// Whether some field of the registry contents `m` was declared in module
/// `s`.
pub open spec fn has_module(m: Map<Seq<char>, Field>, s: Seq<char>) -> bool {
    exists|k: Seq<char>| #[trigger] m.dom().contains(k) && m[k].module_view() == s
}

/// The sorted list of all module paths with at least one registered tunable:
/// strictly ascending lexicographically, one entry per module, none missing
/// and none invented.
pub fn modules(reg: &Registry) -> (names: Vec<String>)
    ensures
        strictly_sorted(names@),
        forall|s: Seq<char>| #[trigger] contains_text(names@, s) == has_module(reg@, s),
{
    let snapshot = reg.enumerate();
    let mut names: Vec<String> = Vec::new();
    let mut t: usize = 0;
    while t < snapshot.len()
        invariant
            0 <= t <= snapshot@.len(),
            strictly_sorted(names@),
            forall|s: Seq<char>|
                #[trigger] contains_text(names@, s) == exists|u: int|
                    0 <= u < t && (#[trigger] snapshot@[u].1).module_view() == s,
        decreases snapshot@.len() - t,
    {
        let name = snapshot[t].1.module_name().to_owned();
        proof {
            assert(name@ == snapshot@[t as int].1.module_view());
        }
        insert_name(&mut names, name);
        t = t + 1;
    }
    proof {
        assert forall|s: Seq<char>| #[trigger] contains_text(names@, s) == has_module(reg@, s) by {
            if contains_text(names@, s) {
                let u = choose|u: int|
                    0 <= u < snapshot@.len() && (#[trigger] snapshot@[u].1).module_view() == s;
                assert(reg@.contains_pair(snapshot@[u].0@, snapshot@[u].1));
                assert(reg@.dom().contains(snapshot@[u].0@) && reg@[snapshot@[u].0@].module_view()
                    == s);
            }
            if has_module(reg@, s) {
                let k = choose|k: Seq<char>|
                    #[trigger] reg@.dom().contains(k) && reg@[k].module_view() == s;
                let i = choose|i: int|
                    0 <= i < snapshot@.len() && #[trigger] snapshot@[i].0@ == k;
                assert(reg@.contains_pair(snapshot@[i].0@, snapshot@[i].1));
                assert(snapshot@[i].1.module_view() == s);
            }
        }
    }
    names
}

/// The display order of two fields within one module: by source file
/// lexicographically, then by line number.
pub open spec fn location_le(a: Field, b: Field) -> bool {
    lex_lt(a.file_view(), b.file_view()) || (a.file_view() == b.file_view() && a.line_view()
        <= b.line_view())
}

/// The location order is total.
pub proof fn lemma_location_le_total(a: Field, b: Field)
    ensures
        location_le(a, b) || location_le(b, a),
{
    lemma_lex_lt_trichotomy(a.file_view(), b.file_view());
}

/// The location order is transitive.
pub proof fn lemma_location_le_trans(a: Field, b: Field, c: Field)
    requires
        location_le(a, b),
        location_le(b, c),
    ensures
        location_le(a, c),
{
    if lex_lt(a.file_view(), b.file_view()) && lex_lt(b.file_view(), c.file_view()) {
        lemma_lex_lt_trans(a.file_view(), b.file_view(), c.file_view());
    }
}

/// Whether `v` lists its entries in display order.
pub open spec fn sorted_by_location(v: Seq<(String, Field)>) -> bool {
    forall|i: int, j: int|
        0 <= i < j < v.len() ==> location_le(#[trigger] v[i].1, #[trigger] v[j].1)
}

/// Whether `v` holds the entry `(k, f)`.
pub open spec fn contains_entry(v: Seq<(String, Field)>, k: Seq<char>, f: Field) -> bool {
    exists|i: int| 0 <= i < v.len() && #[trigger] v[i].0@ == k && v[i].1 == f
}

/// Whether no two entries of `v` share a key.
pub open spec fn distinct_keys(v: Seq<(String, Field)>) -> bool {
    forall|i: int, j: int|
        0 <= i < v.len() && 0 <= j < v.len() && i != j ==> (#[trigger] v[i].0@) != (
        #[trigger] v[j].0@)
}

/// Decides the location order of two fields.
fn location_le_exec(a: &Field, b: &Field) -> (r: bool)
    ensures
        r == location_le(*a, *b),
{
    match str_compare(a.file_name(), b.file_name()) {
        TextOrder::Before => true,
        TextOrder::Same => a.line_number() <= b.line_number(),
        TextOrder::After => {
            proof {
                lemma_lex_lt_trichotomy(a.file_view(), b.file_view());
            }
            false
        },
    }
}

/// Inserts an entry into a list sorted by location, keeping it sorted.
fn insert_entry(v: &mut Vec<(String, Field)>, e: (String, Field))
    requires
        sorted_by_location(old(v)@),
        distinct_keys(old(v)@),
        forall|i: int| 0 <= i < old(v)@.len() ==> (#[trigger] old(v)@[i].0@) != e.0@,
    ensures
        sorted_by_location(final(v)@),
        distinct_keys(final(v)@),
        final(v)@.len() == old(v)@.len() + 1,
        forall|k: Seq<char>, f: Field|
            #[trigger] contains_entry(final(v)@, k, f) == (contains_entry(old(v)@, k, f) || (k
                == e.0@ && f == e.1)),
{
    let mut idx: usize = 0;
    while idx < v.len() && location_le_exec(&v[idx].1, &e.1)
        invariant
            0 <= idx <= v@.len(),
            sorted_by_location(v@),
            v == old(v),
            forall|k: int| 0 <= k < idx ==> location_le(#[trigger] v@[k].1, e.1),
        decreases v@.len() - idx,
    {
        idx = idx + 1;
    }
    proof {
        if idx < v@.len() {
            lemma_location_le_total(v@[idx as int].1, e.1);
            assert(location_le(e.1, v@[idx as int].1));
        }
    }
    let ghost before = v@;
    v.insert(idx, e);
    proof {
        before.insert_ensures(idx as int, e);
        assert forall|i: int, j: int| 0 <= i < j < v@.len() implies location_le(
            #[trigger] v@[i].1,
            #[trigger] v@[j].1,
        ) by {
            if j < idx {
                assert(v@[i] == before[i] && v@[j] == before[j]);
            } else if j == idx {
                assert(v@[i] == before[i]);
            } else {
                assert(v@[j] == before[j - 1]);
                if i < idx {
                    assert(v@[i] == before[i]);
                    if i == j - 1 {
                        assert(location_le(before[i].1, e.1));
                        assert(location_le(e.1, before[j - 1].1));
                        lemma_location_le_trans(before[i].1, e.1, before[j - 1].1);
                    }
                } else if i == idx {
                    assert(v@[i] == e);
                    if j - 1 == idx {
                        assert(location_le(e.1, before[j - 1].1));
                    } else {
                        assert(location_le(e.1, before[idx as int].1));
                        assert(location_le(before[idx as int].1, before[j - 1].1));
                        lemma_location_le_trans(e.1, before[idx as int].1, before[j - 1].1);
                    }
                } else {
                    assert(v@[i] == before[i - 1]);
                }
            }
        }
        assert forall|i: int, j: int|
            0 <= i < v@.len() && 0 <= j < v@.len() && i != j implies (#[trigger] v@[i].0@) != (
        #[trigger] v@[j].0@) by {
            if i < idx {
                assert(v@[i] == before[i]);
            } else if i > idx {
                assert(v@[i] == before[i - 1]);
            } else {
                assert(v@[i] == e);
            }
            if j < idx {
                assert(v@[j] == before[j]);
            } else if j > idx {
                assert(v@[j] == before[j - 1]);
            } else {
                assert(v@[j] == e);
            }
        }
        assert forall|k: Seq<char>, f: Field|
            #[trigger] contains_entry(v@, k, f) == (contains_entry(before, k, f) || (k == e.0@ && f
                == e.1)) by {
            if contains_entry(v@, k, f) {
                let i = choose|i: int| 0 <= i < v@.len() && #[trigger] v@[i].0@ == k && v@[i].1 == f;
                if i < idx {
                    assert(before[i].0@ == k && before[i].1 == f);
                } else if i > idx {
                    assert(before[i - 1].0@ == k && before[i - 1].1 == f);
                }
            }
            if contains_entry(before, k, f) {
                let i = choose|i: int|
                    0 <= i < before.len() && #[trigger] before[i].0@ == k && before[i].1 == f;
                if i < idx {
                    assert(v@[i].0@ == k && v@[i].1 == f);
                } else {
                    assert(v@[i + 1].0@ == k && v@[i + 1].1 == f);
                }
            }
            if k == e.0@ && f == e.1 {
                assert(v@[idx as int].0@ == k && v@[idx as int].1 == f);
            }
        }
    }
}

/// One module's section of the grouped view: the module path and its
/// entries, sorted by declaring location.
pub struct Group {
    /// The module path shared by every entry of the group.
    pub module: String,
    /// The `(key, field)` pairs declared in this module.
    pub entries: Vec<(String, Field)>,
}

/// What one group states about the registry contents `m`: its entries are
/// sorted by location, each belongs to the group's module and is stored in
/// the registry, no key repeats, and every registry entry of this module is
/// listed.
pub open spec fn group_ok(g: Group, m: Map<Seq<char>, Field>) -> bool {
    &&& sorted_by_location(g.entries@)
    &&& forall|i: int|
        0 <= i < g.entries@.len() ==> (#[trigger] g.entries@[i].1).module_view() == g.module@
    &&& forall|i: int|
        0 <= i < g.entries@.len() ==> m.contains_pair(#[trigger] g.entries@[i].0@, g.entries@[i].1)
    &&& forall|i: int, j: int|
        0 <= i < g.entries@.len() && 0 <= j < g.entries@.len() && i != j ==> (
        #[trigger] g.entries@[i].0@) != (#[trigger] g.entries@[j].0@)
    &&& forall|k: Seq<char>|
        #[trigger] m.dom().contains(k) && m[k].module_view() == g.module@ ==> contains_entry(
            g.entries@,
            k,
            m[k],
        )
}

/// What the whole grouped view states about the registry contents `m`: the
/// groups' modules are strictly sorted (hence distinct), every group is
/// sound and complete for its module, and every registered key's module has
/// a group.
pub open spec fn grouped_view_ok(groups: Seq<Group>, m: Map<Seq<char>, Field>) -> bool {
    &&& forall|i: int, j: int|
        0 <= i < j < groups.len() ==> lex_lt(
            (#[trigger] groups[i]).module@,
            (#[trigger] groups[j]).module@,
        )
    &&& forall|i: int| 0 <= i < groups.len() ==> group_ok(#[trigger] groups[i], m)
    &&& forall|k: Seq<char>|
        #[trigger] m.dom().contains(k) ==> exists|i: int|
            0 <= i < groups.len() && (#[trigger] groups[i]).module@ == m[k].module_view()
}

/// Collects, in display order, the snapshot entries declared in `module`.
fn collect_group(snapshot: &Vec<(String, Field)>, module: &str) -> (r: Vec<(String, Field)>)
    requires
        distinct_keys(snapshot@),
    ensures
        sorted_by_location(r@),
        distinct_keys(r@),
        forall|k: Seq<char>, f: Field|
            #[trigger] contains_entry(r@, k, f) == (contains_entry(snapshot@, k, f)
                && f.module_view() == module@),
        forall|i: int|
            0 <= i < r@.len() ==> (#[trigger] r@[i].1).module_view() == module@,
{
    let mut out: Vec<(String, Field)> = Vec::new();
    let mut t: usize = 0;
    while t < snapshot.len()
        invariant
            0 <= t <= snapshot@.len(),
            distinct_keys(snapshot@),
            sorted_by_location(out@),
            distinct_keys(out@),
            forall|k: Seq<char>, f: Field|
                #[trigger] contains_entry(out@, k, f) == (exists|u: int|
                    0 <= u < t && #[trigger] snapshot@[u].0@ == k && snapshot@[u].1 == f
                        && f.module_view() == module@),
            forall|i: int|
                0 <= i < out@.len() ==> (#[trigger] out@[i].1).module_view() == module@,
        decreases snapshot@.len() - t,
    {
        let same = matches!(
            str_compare(snapshot[t].1.module_name(), module),
            TextOrder::Same
        );
        if same {
            let key = snapshot[t].0.clone();
            let fld = snapshot[t].1.clone();
            proof {
                assert forall|i: int| 0 <= i < out@.len() implies (#[trigger] out@[i].0@)
                    != key@ by {
                    assert(contains_entry(out@, out@[i].0@, out@[i].1)) by {
                        assert(out@[i].0@ == out@[i].0@ && out@[i].1 == out@[i].1);
                    }
                    if out@[i].0@ == key@ {
                        let u = choose|u: int|
                            0 <= u < t && #[trigger] snapshot@[u].0@ == out@[i].0@ && snapshot@[u].1
                                == out@[i].1;
                        assert(snapshot@[u].0@ == snapshot@[t as int].0@);
                    }
                }
            }
            insert_entry(&mut out, (key, fld));
            proof {
                assert forall|i: int| 0 <= i < out@.len() implies (
                #[trigger] out@[i].1).module_view() == module@ by {
                    assert(contains_entry(out@, out@[i].0@, out@[i].1)) by {
                        assert(out@[i].0@ == out@[i].0@ && out@[i].1 == out@[i].1);
                    }
                }
                assert forall|k: Seq<char>, f: Field| #[trigger] contains_entry(out@, k, f) == (
                exists|u: int|
                    0 <= u < t + 1 && #[trigger] snapshot@[u].0@ == k && snapshot@[u].1 == f
                        && f.module_view() == module@) by {
                    if contains_entry(out@, k, f) {
                        if k == key@ && f == fld {
                            assert(snapshot@[t as int].0@ == k && snapshot@[t as int].1 == f
                                && f.module_view() == module@);
                        } else {
                            let u = choose|u: int|
                                0 <= u < t && #[trigger] snapshot@[u].0@ == k && snapshot@[u].1 == f
                                    && f.module_view() == module@;
                            assert(0 <= u < t + 1 && snapshot@[u].0@ == k && snapshot@[u].1 == f
                                && f.module_view() == module@);
                        }
                    }
                    if exists|u: int|
                        0 <= u < t + 1 && #[trigger] snapshot@[u].0@ == k && snapshot@[u].1 == f
                            && f.module_view() == module@ {
                        let u = choose|u: int|
                            0 <= u < t + 1 && #[trigger] snapshot@[u].0@ == k && snapshot@[u].1 == f
                                && f.module_view() == module@;
                        if u < t {
                            assert(contains_entry(out@, k, f));
                        } else {
                            assert(k == key@ && f == fld);
                            assert(contains_entry(out@, k, f));
                        }
                    }
                }
            }
        } else {
            proof {
                assert(snapshot@[t as int].1.module_view() != module@);
                assert forall|k: Seq<char>, f: Field| #[trigger] contains_entry(out@, k, f) == (
                exists|u: int|
                    0 <= u < t + 1 && #[trigger] snapshot@[u].0@ == k && snapshot@[u].1 == f
                        && f.module_view() == module@) by {
                    if exists|u: int|
                        0 <= u < t + 1 && #[trigger] snapshot@[u].0@ == k && snapshot@[u].1 == f
                            && f.module_view() == module@ {
                        let u = choose|u: int|
                            0 <= u < t + 1 && #[trigger] snapshot@[u].0@ == k && snapshot@[u].1 == f
                                && f.module_view() == module@;
                        assert(u < t);
                    }
                }
            }
        }
        t = t + 1;
    }
    proof {
        assert forall|k: Seq<char>, f: Field|
            #[trigger] contains_entry(out@, k, f) == (contains_entry(snapshot@, k, f)
                && f.module_view() == module@) by {
            if contains_entry(snapshot@, k, f) && f.module_view() == module@ {
                let i = choose|i: int|
                    0 <= i < snapshot@.len() && #[trigger] snapshot@[i].0@ == k && snapshot@[i].1
                        == f;
                assert(0 <= i < snapshot@.len() && snapshot@[i].0@ == k && snapshot@[i].1 == f
                    && f.module_view() == module@);
            }
        }
    }
    out
}

/// Builds the grouped display view of the registry: one group per module
/// with at least one tunable, modules sorted lexicographically, entries
/// within each module sorted by declaring source location.
pub fn build_view(reg: &Registry) -> (groups: Vec<Group>)
    ensures
        grouped_view_ok(groups@, reg@),
{
    let names = modules(reg);
    let snapshot = reg.enumerate();
    let mut groups: Vec<Group> = Vec::new();
    let mut n: usize = 0;
    while n < names.len()
        invariant
            0 <= n <= names@.len(),
            strictly_sorted(names@),
            forall|s: Seq<char>| #[trigger] contains_text(names@, s) == has_module(reg@, s),
            snapshot@.len() == reg@.dom().len(),
            forall|i: int|
                0 <= i < snapshot@.len() ==> reg@.contains_pair(
                    #[trigger] snapshot@[i].0@,
                    snapshot@[i].1,
                ),
            forall|i: int, j: int|
                0 <= i < snapshot@.len() && 0 <= j < snapshot@.len() && i != j ==> (
                #[trigger] snapshot@[i].0@) != (#[trigger] snapshot@[j].0@),
            forall|k: Seq<char>|
                #[trigger] reg@.dom().contains(k) ==> exists|i: int|
                    0 <= i < snapshot@.len() && #[trigger] snapshot@[i].0@ == k,
            groups@.len() == n,
            forall|i: int| 0 <= i < n ==> (#[trigger] groups@[i]).module@ == names@[i]@,
            forall|i: int| 0 <= i < n ==> group_ok(#[trigger] groups@[i], reg@),
        decreases names@.len() - n,
    {
        let module = names[n].clone();
        let entries = collect_group(&snapshot, module.as_str());
        proof {
            assert forall|k: Seq<char>|
                #[trigger] reg@.dom().contains(k) && reg@[k].module_view() == module@
                    implies contains_entry(entries@, k, reg@[k]) by {
                let i = choose|i: int|
                    0 <= i < snapshot@.len() && #[trigger] snapshot@[i].0@ == k;
                assert(reg@.contains_pair(snapshot@[i].0@, snapshot@[i].1));
                assert(snapshot@[i].1 == reg@[k]);
                assert(contains_entry(snapshot@, k, reg@[k]));
            }
            assert forall|i: int|
                0 <= i < entries@.len() implies reg@.contains_pair(
                #[trigger] entries@[i].0@,
                entries@[i].1,
            ) by {
                assert(contains_entry(entries@, entries@[i].0@, entries@[i].1)) by {
                    assert(entries@[i].0@ == entries@[i].0@ && entries@[i].1 == entries@[i].1);
                }
                let u = choose|u: int|
                    0 <= u < snapshot@.len() && #[trigger] snapshot@[u].0@ == entries@[i].0@
                        && snapshot@[u].1 == entries@[i].1;
            }
        }
        groups.push(Group { module, entries });
        n = n + 1;
    }
    proof {
        assert forall|k: Seq<char>| #[trigger] reg@.dom().contains(k) implies exists|i: int|
            0 <= i < groups@.len() && (#[trigger] groups@[i]).module@ == reg@[k].module_view() by {
            assert(has_module(reg@, reg@[k].module_view())) by {
                assert(reg@.dom().contains(k) && reg@[k].module_view() == reg@[k].module_view());
            }
            assert(contains_text(names@, reg@[k].module_view()));
            let i = choose|i: int|
                0 <= i < names@.len() && #[trigger] names@[i]@ == reg@[k].module_view();
            assert(groups@[i].module@ == reg@[k].module_view());
        }
    }
    groups
}

} // verus!
