//! Tables keyed by name, kept in insertion order: the first entry under a
//! name is the one that counts, and putting a name that is already there
//! replaces its entry in place.

use vstd::prelude::*;
use vstd::string::*;
use crate::text::str_eq;

verus! {

/// A table as a mathematical value: names with what they stand for.
pub type SpecTable<M> = Seq<(Seq<char>, M)>;

/// The index of the first entry under `name` at or behind `from`.
pub open spec fn first_index_from<M>(table: SpecTable<M>, name: Seq<char>, from: int) -> Option<
    int,
>
    decreases table.len() - from,
{
    if from < 0 || from >= table.len() {
        None
    } else if table[from].0 == name {
        Some(from)
    } else {
        first_index_from(table, name, from + 1)
    }
}

/// The index of the entry that `name` stands for.
pub open spec fn lookup_index<M>(table: SpecTable<M>, name: Seq<char>) -> Option<int> {
    first_index_from(table, name, 0)
}

/// What `name` stands for in the table.
pub open spec fn lookup<M>(table: SpecTable<M>, name: Seq<char>) -> Option<M> {
    match lookup_index(table, name) {
        Some(i) => Some(table[i].1),
        None => None,
    }
}

/// Whether the table has an entry under `name`.
pub open spec fn has_name<M>(table: SpecTable<M>, name: Seq<char>) -> bool {
    lookup_index(table, name) is Some
}

/// The table with `name` standing for `value`.
pub open spec fn with_entry<M>(table: SpecTable<M>, name: Seq<char>, value: M) -> SpecTable<M> {
    match lookup_index(table, name) {
        Some(i) => table.update(i, (name, value)),
        None => table.push((name, value)),
    }
}

/// The table after putting the entries of `extra`, one after the other.
pub open spec fn with_entries<M>(table: SpecTable<M>, extra: SpecTable<M>) -> SpecTable<M>
    decreases extra.len(),
{
    if extra.len() == 0 {
        table
    } else {
        with_entries(with_entry(table, extra[0].0, extra[0].1), extra.drop_first())
    }
}

/// An index found by a lookup lies in the table, holds the name, and no
/// earlier entry does.
pub proof fn lemma_first_index<M>(table: SpecTable<M>, name: Seq<char>, from: int)
    requires
        0 <= from,
    ensures
        match first_index_from(table, name, from) {
            Some(i) => from <= i < table.len() && table[i].0 == name && forall|j: int|
                from <= j < i ==> table[j].0 != name,
            None => forall|j: int| from <= j < table.len() ==> table[j].0 != name,
        },
    decreases table.len() - from,
{
    if from < table.len() && table[from].0 != name {
        lemma_first_index(table, name, from + 1);
    }
}

/// A name that was put is found, with the value that was put.
pub proof fn lemma_lookup_after_put<M>(table: SpecTable<M>, name: Seq<char>, value: M)
    ensures
        lookup(with_entry(table, name, value), name) == Some(value),
{
    let after = with_entry(table, name, value);
    lemma_first_index(table, name, 0);
    lemma_first_index(after, name, 0);
    match lookup_index(table, name) {
        Some(i) => {
            assert(after[i].0 == name);
            let found = lookup_index(after, name)->0;
            if found < i {
                assert(after[found] == table[found]);
            }
        },
        None => {
            let last = table.len() as int;
            assert(after[last].0 == name);
            let found = lookup_index(after, name)->0;
            if found < last {
                assert(after[found] == table[found]);
            }
        },
    }
}

/// Putting one name does not change what another name stands for.
pub proof fn lemma_lookup_other_after_put<M>(
    table: SpecTable<M>,
    name: Seq<char>,
    value: M,
    other: Seq<char>,
)
    requires
        other != name,
    ensures
        lookup(with_entry(table, name, value), other) == lookup(table, other),
{
    let after = with_entry(table, name, value);
    lemma_first_index(table, name, 0);
    lemma_first_index(table, other, 0);
    lemma_first_index(after, other, 0);
    assert forall|j: int| 0 <= j < table.len() implies (#[trigger] after[j].0 == other
        <==> table[j].0 == other) by {}
    match lookup_index(table, other) {
        Some(i) => {
            assert(after[i].0 == other);
            let found = lookup_index(after, other)->0;
            if found < i {
                assert(table[found].0 == other);
            }
            if found > i {
                assert(after[i].0 == other);
            }
            assert(after[i].1 == table[i].1);
        },
        None => {
            if lookup_index(after, other) is Some {
                let found = lookup_index(after, other)->0;
                if found < table.len() {
                    assert(table[found].0 == other);
                }
            }
        },
    }
}

/// Putting a name leaves every name in the table that was there.
pub proof fn lemma_put_keeps_names<M>(
    table: SpecTable<M>,
    name: Seq<char>,
    value: M,
    other: Seq<char>,
)
    requires
        has_name(table, other),
    ensures
        has_name(with_entry(table, name, value), other),
{
    if other == name {
        lemma_lookup_after_put(table, name, value);
    } else {
        lemma_lookup_other_after_put(table, name, value, other);
    }
}

/// Putting entries leaves every name in the table that was there.
pub proof fn lemma_puts_keep_names<M>(table: SpecTable<M>, extra: SpecTable<M>, other: Seq<char>)
    requires
        has_name(table, other),
    ensures
        has_name(with_entries(table, extra), other),
    decreases extra.len(),
{
    if extra.len() > 0 {
        lemma_put_keeps_names(table, extra[0].0, extra[0].1, other);
        lemma_puts_keep_names(
            with_entry(table, extra[0].0, extra[0].1),
            extra.drop_first(),
            other,
        );
    }
}

/// The index of the entry under `name`, if there is one.
pub fn find_entry<V: DeepView>(entries: &Vec<(String, V)>, name: &str) -> (r: Option<usize>)
    ensures
        r is Some <==> has_name(entries.deep_view(), name@),
        r is Some ==> r->0 as int == lookup_index(entries.deep_view(), name@)->0 && r->0
            < entries.len(),
{
    let ghost table = entries.deep_view();
    let mut i: usize = 0;
    while i < entries.len()
        invariant
            i <= entries.len(),
            table == entries.deep_view(),
            table.len() == entries.len(),
            lookup_index(table, name@) == first_index_from(table, name@, i as int),
        decreases entries.len() - i,
    {
        assert(table[i as int].0 == entries@[i as int].0@);
        if str_eq(entries[i].0.as_str(), name) {
            return Some(i);
        }
        i += 1;
    }
    None
}

/// Puts `value` under `name`.
pub fn put_entry<V: DeepView>(entries: &mut Vec<(String, V)>, name: String, value: V)
    ensures
        final(entries).deep_view() == with_entry(
            old(entries).deep_view(),
            name@,
            value.deep_view(),
        ),
{
    match find_entry(entries, name.as_str()) {
        Some(i) => {
            entries[i] = (name, value);
            assert(entries.deep_view() =~= old(entries).deep_view().update(
                i as int,
                (name@, value.deep_view()),
            ));
        },
        None => {
            entries.push((name, value));
            assert(entries.deep_view() =~= old(entries).deep_view().push(
                (name@, value.deep_view()),
            ));
        },
    }
}

/// Puts the entries of `extra`, one after the other.
pub fn put_entries<V: DeepView>(entries: &mut Vec<(String, V)>, extra: Vec<(String, V)>)
    ensures
        final(entries).deep_view() == with_entries(old(entries).deep_view(), extra.deep_view()),
{
    let mut rest = extra;
    while rest.len() > 0
        invariant
            with_entries(entries.deep_view(), rest.deep_view()) == with_entries(
                old(entries).deep_view(),
                extra.deep_view(),
            ),
        decreases rest.len(),
    {
        let ghost before = rest.deep_view();
        let (name, value) = rest.remove(0);
        assert(rest.deep_view() =~= before.drop_first());
        assert(before[0] == (name@, value.deep_view()));
        put_entry(entries, name, value);
    }
}

} // verus!
