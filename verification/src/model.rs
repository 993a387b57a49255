//! Python objects as mathematical values, and what item assignment does to a
//! mapping.

use vstd::prelude::*;

verus! {

/// What a Python object holds, seen as a mathematical value.
///
/// The five leaves stand for `None` and for objects of Python's own `bool`,
/// `int`, `str` and `bytes`. `List` stands for an object that holds a run of
/// objects in order, and `Mapping` for one that stores values under keys the
/// way a `dict` does: entries stay in the order in which their keys were
/// first assigned. `Opaque` stands for every other object, such as a float.
pub enum ObjectView {
    Null,
    Bool(bool),
    Number(int),
    Str(Seq<char>),
    Bytes(Seq<u8>),
    List(Seq<ObjectView>),
    Mapping(Seq<(ObjectView, ObjectView)>),
    Opaque,
}

/// The entries of a mapping: keys with their values, oldest key first.
pub type Entries = Seq<(ObjectView, ObjectView)>;

impl ObjectView {
    /// Null, booleans, numbers, strings and bytes: the leaves of a tree of
    /// objects, all of which can serve as keys of a mapping.
    pub open spec fn is_leaf(self) -> bool {
        self is Null || self is Bool || self is Number || self is Str || self is Bytes
    }

    /// Booleans count as the numbers 0 and 1 when keys are compared.
    pub open spec fn is_numeric(self) -> bool {
        self is Bool || self is Number
    }

    pub open spec fn numeric_value(self) -> int {
        match self {
            ObjectView::Bool(b) => if b { 1 } else { 0 },
            ObjectView::Number(n) => n,
            _ => 0,
        }
    }
}

/// Whether two keys address the same entry of a mapping: they are equal, or
/// they are numeric with the same value.
pub open spec fn same_key(a: ObjectView, b: ObjectView) -> bool {
    if a.is_numeric() && b.is_numeric() {
        a.numeric_value() == b.numeric_value()
    } else {
        a == b
    }
}

/// The first position at or after `from` whose key is the same as `key`, or
/// the number of entries if there is none.
pub open spec fn key_index_from(entries: Entries, key: ObjectView, from: int) -> int
    decreases entries.len() - from,
{
    if from < 0 || from >= entries.len() {
        entries.len() as int
    } else if same_key(entries[from].0, key) {
        from
    } else {
        key_index_from(entries, key, from + 1)
    }
}

/// The position of the first entry whose key is the same as `key`, or the
/// number of entries if there is none.
pub open spec fn key_index(entries: Entries, key: ObjectView) -> int {
    key_index_from(entries, key, 0)
}

/// Whether an entry is stored under `key`.
pub open spec fn has_key(entries: Entries, key: ObjectView) -> bool {
    key_index(entries, key) < entries.len()
}

/// The value stored under `key`, if any.
pub open spec fn value_of(entries: Entries, key: ObjectView) -> Option<ObjectView> {
    if has_key(entries, key) {
        Some(entries[key_index(entries, key)].1)
    } else {
        None
    }
}

/// The entries after `key` has been assigned `value`: an entry with the same
/// key keeps its place and its key and takes the new value; otherwise the pair
/// is added at the end.
pub open spec fn assign(entries: Entries, key: ObjectView, value: ObjectView) -> Entries {
    let i = key_index(entries, key);
    if i < entries.len() {
        entries.update(i, (entries[i].0, value))
    } else {
        entries.push((key, value))
    }
}

/// The entries of a mapping that started empty and was assigned the first
/// `n` of `pairs`, in order.
pub open spec fn assign_first(pairs: Entries, n: int) -> Entries
    decreases n,
{
    if n <= 0 {
        Seq::empty()
    } else {
        assign(assign_first(pairs, n - 1), pairs[n - 1].0, pairs[n - 1].1)
    }
}

/// The entries of a mapping that started empty and was assigned `pairs` in order.
pub open spec fn assign_all(pairs: Entries) -> Entries {
    assign_first(pairs, pairs.len() as int)
}

/// The value that was written last under `key` among the first `n` of
/// `pairs`, if any was.
pub open spec fn last_written_in(pairs: Entries, n: int, key: ObjectView) -> Option<ObjectView>
    decreases n,
{
    if n <= 0 {
        None
    } else if same_key(pairs[n - 1].0, key) {
        Some(pairs[n - 1].1)
    } else {
        last_written_in(pairs, n - 1, key)
    }
}

/// The value that was written last under `key`, if any was.
pub open spec fn last_written(pairs: Entries, key: ObjectView) -> Option<ObjectView> {
    last_written_in(pairs, pairs.len() as int, key)
}

/// A `bytes` key beside a string or a numeric key: an interpreter that is
/// run with bytes warnings as errors refuses to compare the two.
pub open spec fn kinds_clash(a: ObjectView, b: ObjectView) -> bool {
    ||| a is Bytes && (b is Str || b.is_numeric())
    ||| b is Bytes && (a is Str || a.is_numeric())
}

/// `key` can be looked up among `entries` in every interpreter: it is a leaf,
/// so are the keys that are there, and it clashes with none of them.
pub open spec fn key_fits(entries: Entries, key: ObjectView) -> bool {
    &&& key.is_leaf()
    &&& forall|i: int|
        0 <= i < entries.len() ==> (#[trigger] entries[i]).0.is_leaf() && !kinds_clash(
            entries[i].0,
            key,
        )
}

/// Every key is a string.
pub open spec fn string_keys(entries: Entries) -> bool {
    forall|i: int| 0 <= i < entries.len() ==> (#[trigger] entries[i]).0 is Str
}

/// Every key is a leaf.
pub open spec fn leaf_keys(entries: Entries) -> bool {
    forall|i: int| 0 <= i < entries.len() ==> (#[trigger] entries[i]).0.is_leaf()
}

/// No two entries have the same key.
pub open spec fn distinct_keys(entries: Entries) -> bool {
    forall|i: int, j: int|
        0 <= i < j < entries.len() ==> !same_key((#[trigger] entries[i]).0, (#[trigger] entries[j]).0)
}

/// `key_index_from` is the first position of the key at or after `from`, or
/// the number of entries.
pub proof fn lemma_key_index_from(entries: Entries, key: ObjectView, from: int)
    requires
        0 <= from <= entries.len(),
    ensures
        from <= key_index_from(entries, key, from) <= entries.len(),
        key_index_from(entries, key, from) < entries.len() ==> same_key(
            entries[key_index_from(entries, key, from)].0,
            key,
        ),
        forall|j: int|
            from <= j < key_index_from(entries, key, from) ==> !same_key(
                (#[trigger] entries[j]).0,
                key,
            ),
    decreases entries.len() - from,
{
    if from < entries.len() && !same_key(entries[from].0, key) {
        lemma_key_index_from(entries, key, from + 1);
    }
}

/// `key_index` is the first position of the key, or the number of entries.
pub proof fn lemma_key_index(entries: Entries, key: ObjectView)
    ensures
        0 <= key_index(entries, key) <= entries.len(),
        has_key(entries, key) ==> same_key(entries[key_index(entries, key)].0, key),
        forall|j: int| 0 <= j < key_index(entries, key) ==> !same_key((#[trigger] entries[j]).0, key),
{
    lemma_key_index_from(entries, key, 0);
}

/// A position that is the first under which `key` is found, or the number of
/// entries where `key` is found nowhere, is `key_index`.
pub proof fn lemma_key_index_unique(entries: Entries, key: ObjectView, j: int)
    requires
        0 <= j <= entries.len(),
        j < entries.len() ==> same_key(entries[j].0, key),
        forall|i: int| 0 <= i < j ==> !same_key((#[trigger] entries[i]).0, key),
    ensures
        key_index(entries, key) == j,
{
    lemma_key_index(entries, key);
}

/// Assigning under a leaf key keeps every key a leaf.
pub proof fn lemma_assign_leaf_keys(entries: Entries, key: ObjectView, value: ObjectView)
    requires
        leaf_keys(entries),
        key.is_leaf(),
    ensures
        leaf_keys(assign(entries, key, value)),
{
    lemma_key_index(entries, key);
}

/// A mapping that was only ever assigned leaf keys has only leaf keys.
pub proof fn lemma_assign_first_leaf_keys(pairs: Entries, n: int)
    requires
        0 <= n <= pairs.len(),
        leaf_keys(pairs),
    ensures
        leaf_keys(assign_first(pairs, n)),
    decreases n,
{
    if n > 0 {
        lemma_assign_first_leaf_keys(pairs, n - 1);
        lemma_assign_leaf_keys(assign_first(pairs, n - 1), pairs[n - 1].0, pairs[n - 1].1);
    }
}

/// An assignment under a key that fits `key` keeps `key` fitting.
pub proof fn lemma_assign_fits(entries: Entries, k: ObjectView, v: ObjectView, key: ObjectView)
    requires
        key_fits(entries, key),
        k.is_leaf(),
        !kinds_clash(k, key),
    ensures
        key_fits(assign(entries, k, v), key),
{
    lemma_key_index(entries, k);
}

/// A key that fits every key that was assigned fits the mapping.
pub proof fn lemma_assign_first_fits(pairs: Entries, n: int, key: ObjectView)
    requires
        0 <= n <= pairs.len(),
        key.is_leaf(),
        forall|j: int|
            0 <= j < n ==> (#[trigger] pairs[j]).0.is_leaf() && !kinds_clash(pairs[j].0, key),
    ensures
        key_fits(assign_first(pairs, n), key),
    decreases n,
{
    if n > 0 {
        lemma_assign_first_fits(pairs, n - 1, key);
        lemma_assign_fits(assign_first(pairs, n - 1), pairs[n - 1].0, pairs[n - 1].1, key);
    }
}

/// What was assigned first decides: runs of pairs that agree on their first
/// `n` pairs leave the same entries after those.
pub proof fn lemma_assign_first_agrees(pairs: Entries, others: Entries, n: int)
    requires
        forall|j: int| 0 <= j < n ==> pairs[j] == others[j],
    ensures
        assign_first(pairs, n) == assign_first(others, n),
    decreases n,
{
    if n > 0 {
        lemma_assign_first_agrees(pairs, others, n - 1);
    }
}

/// One more pair written: the entries are those before, with the pair assigned.
pub proof fn lemma_assign_pushed(written: Entries, key: ObjectView, value: ObjectView)
    ensures
        assign_all(written.push((key, value))) == assign(assign_all(written), key, value),
{
    lemma_assign_first_agrees(written.push((key, value)), written, written.len() as int);
}

/// Assigning under a string keeps every key a string.
pub proof fn lemma_assign_string_keys(entries: Entries, key: ObjectView, value: ObjectView)
    requires
        string_keys(entries),
        key is Str,
    ensures
        string_keys(assign(entries, key, value)),
        key_fits(entries, key),
{
    lemma_key_index(entries, key);
}

} // verus!
