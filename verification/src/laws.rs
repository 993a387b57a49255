//! What holds of every conversion: laws of item assignment, and of the object
//! that a value converts to.

use crate::model::{
    assign, assign_all, assign_first, distinct_keys, has_key, key_index, last_written,
    last_written_in, lemma_key_index, lemma_key_index_unique, same_key, value_of, Entries,
    ObjectView,
};
use crate::value::{
    fields_leaf_keyed, fields_shaped, items_leaf_keyed, items_shaped, pairs_leaf_keyed,
    pairs_shaped,
    pythonized_fields, pythonized_items, pythonized_pairs, Value,
};
use vstd::prelude::*;

verus! {

/// Reading after an assignment: the assigned key, and every key that is the
/// same, gives the new value; every other key gives what it gave before.
pub proof fn law_assign_value_of(
    entries: Entries,
    key: ObjectView,
    value: ObjectView,
    other: ObjectView,
)
    ensures
        value_of(assign(entries, key, value), other) == if same_key(key, other) {
            Some(value)
        } else {
            value_of(entries, other)
        },
{
    lemma_key_index(entries, key);
    lemma_key_index(entries, other);
    let after = assign(entries, key, value);
    let at = key_index(entries, key);
    let at_other = key_index(entries, other);
    if same_key(key, other) {
        lemma_key_index_unique(after, other, at);
    } else if at_other < entries.len() {
        lemma_key_index_unique(after, other, at_other);
    } else {
        lemma_key_index_unique(after, other, after.len() as int);
    }
}

/// An assignment never makes two entries with the same key.
pub proof fn law_assign_distinct(entries: Entries, key: ObjectView, value: ObjectView)
    requires
        distinct_keys(entries),
    ensures
        distinct_keys(assign(entries, key, value)),
{
    lemma_key_index(entries, key);
}

/// An assignment keeps the entries that were there in their places, with
/// their keys, and adds one entry exactly when the key is new.
pub proof fn law_assign_keeps_order(entries: Entries, key: ObjectView, value: ObjectView)
    ensures
        assign(entries, key, value).len() == if has_key(entries, key) {
            entries.len()
        } else {
            entries.len() + 1
        },
        forall|i: int|
            0 <= i < entries.len() ==> (#[trigger] assign(entries, key, value)[i]).0
                == entries[i].0,
        forall|i: int|
            0 <= i < entries.len() && !same_key(entries[i].0, key) ==> (#[trigger] assign(
                entries,
                key,
                value,
            )[i]) == entries[i],
{
    lemma_key_index(entries, key);
}

/// A mapping that started empty has no two entries with the same key,
/// whatever was assigned.
pub proof fn law_assign_all_distinct(pairs: Entries)
    ensures
        distinct_keys(assign_all(pairs)),
{
    lemma_assign_first_distinct(pairs, pairs.len() as int);
}

proof fn lemma_assign_first_distinct(pairs: Entries, n: int)
    ensures
        distinct_keys(assign_first(pairs, n)),
    decreases n,
{
    if n > 0 {
        lemma_assign_first_distinct(pairs, n - 1);
        law_assign_distinct(assign_first(pairs, n - 1), pairs[n - 1].0, pairs[n - 1].1);
    }
}

/// Last write wins: a mapping that started empty gives, under each key, the
/// value that was assigned last under that key or one that is the same, and
/// nothing under a key that was never assigned.
pub proof fn law_last_write_wins(pairs: Entries, key: ObjectView)
    ensures
        value_of(assign_all(pairs), key) == last_written(pairs, key),
{
    lemma_last_written_in(pairs, pairs.len() as int, key);
}

proof fn lemma_last_written_in(pairs: Entries, n: int, key: ObjectView)
    ensures
        value_of(assign_first(pairs, n), key) == last_written_in(pairs, n, key),
    decreases n,
{
    if n > 0 {
        lemma_last_written_in(pairs, n - 1, key);
        law_assign_value_of(assign_first(pairs, n - 1), pairs[n - 1].0, pairs[n - 1].1, key);
    } else {
        lemma_key_index(assign_first(pairs, n), key);
    }
}

/// Pairs whose keys all differ are stored as they were written, in the order
/// in which they were written.
pub proof fn law_distinct_keys_stored_in_order(pairs: Entries)
    requires
        distinct_keys(pairs),
    ensures
        assign_all(pairs) == pairs,
{
    lemma_assign_first_of_distinct(pairs, pairs.len() as int);
}

proof fn lemma_assign_first_of_distinct(pairs: Entries, n: int)
    requires
        distinct_keys(pairs),
        0 <= n <= pairs.len(),
    ensures
        assign_first(pairs, n) == pairs.take(n),
    decreases n,
{
    if n > 0 {
        lemma_assign_first_of_distinct(pairs, n - 1);
        lemma_key_index_unique(pairs.take(n - 1), pairs[n - 1].0, n - 1);
    }
}

/// A key written, then another key, then the first key again, in any form
/// that is the same key: the mapping holds two entries, the first under the
/// key as it was first written and with the value that was written last.
pub proof fn law_rewritten_key(
    k1: ObjectView,
    v1: ObjectView,
    k2: ObjectView,
    v2: ObjectView,
    k1_again: ObjectView,
    v3: ObjectView,
)
    requires
        same_key(k1, k1_again),
        !same_key(k1, k2),
    ensures
        assign_all(seq![(k1, v1), (k2, v2), (k1_again, v3)]) == seq![(k1, v3), (k2, v2)],
        value_of(assign_all(seq![(k1, v1), (k2, v2), (k1_again, v3)]), k1) == Some(v3),
        value_of(assign_all(seq![(k1, v1), (k2, v2), (k1_again, v3)]), k1_again) == Some(v3),
        value_of(assign_all(seq![(k1, v1), (k2, v2), (k1_again, v3)]), k2) == Some(v2),
{
    let pairs = seq![(k1, v1), (k2, v2), (k1_again, v3)];
    let one = seq![(k1, v1)];
    let two = seq![(k1, v1), (k2, v2)];
    let end = seq![(k1, v3), (k2, v2)];
    lemma_key_index_unique(assign_first(pairs, 0), k1, 0);
    assert(assign_first(pairs, 1) == one);
    lemma_key_index_unique(one, k2, 1);
    assert(assign_first(pairs, 2) == two);
    lemma_key_index_unique(two, k1_again, 0);
    lemma_key_index_unique(end, k1, 0);
    lemma_key_index_unique(end, k1_again, 0);
    lemma_key_index_unique(end, k2, 1);
}

/// A primitive value converts to the leaf of its kind that holds the same
/// value: integers of every width keep their value, and a character becomes
/// the string of that one character.
pub proof fn law_primitives(value: Value)
    ensures
        value matches Value::Bool(v) ==> value.pythonized() == ObjectView::Bool(v),
        value matches Value::I8(v) ==> value.pythonized() == ObjectView::Number(v as int),
        value matches Value::I16(v) ==> value.pythonized() == ObjectView::Number(v as int),
        value matches Value::I32(v) ==> value.pythonized() == ObjectView::Number(v as int),
        value matches Value::I64(v) ==> value.pythonized() == ObjectView::Number(v as int),
        value matches Value::U8(v) ==> value.pythonized() == ObjectView::Number(v as int),
        value matches Value::U16(v) ==> value.pythonized() == ObjectView::Number(v as int),
        value matches Value::U32(v) ==> value.pythonized() == ObjectView::Number(v as int),
        value matches Value::U64(v) ==> value.pythonized() == ObjectView::Number(v as int),
        value matches Value::Char(c) ==> value.pythonized() == ObjectView::Str(seq![c]),
        value matches Value::Str(s) ==> value.pythonized() == ObjectView::Str(s@),
        value matches Value::Bytes(b) ==> value.pythonized() == ObjectView::Bytes(b@),
{
}

/// The unit, a unit struct and an absent optional value convert to null, and
/// of the shapes that do not stand for another value, no other does.
pub proof fn law_null(value: Value)
    requires
        !(value is OptionSome),
        !(value is NewtypeStruct),
    ensures
        value.pythonized() is Null <==> value.is_null_shape(),
{
}

/// A value converts to null exactly when the value that it stands for is the
/// unit, a unit struct or an absent optional value.
pub proof fn law_null_unwrapped(value: Value)
    ensures
        value.pythonized() == value.unwrapped().pythonized(),
        value.pythonized() is Null <==> value.unwrapped().is_null_shape(),
    decreases value,
{
    match value {
        Value::OptionSome(inner) => {
            law_null_unwrapped(*inner);
        },
        Value::NewtypeStruct { value: inner, .. } => {
            law_null_unwrapped(*inner);
        },
        _ => {},
    }
}

/// A variant without payload converts to the bare string of its name; every
/// variant with a payload converts to a mapping of one entry, under its name.
pub proof fn law_variants(value: Value)
    ensures
        value matches Value::UnitVariant { variant, .. } ==> value.pythonized() == ObjectView::Str(
            variant@,
        ),
        value matches Value::NewtypeVariant { variant, value: inner, .. } ==> value.pythonized()
            == ObjectView::Mapping(seq![(ObjectView::Str(variant@), inner.pythonized())]),
        value matches Value::TupleVariant { variant, fields, .. } ==> value.pythonized()
            == ObjectView::Mapping(
            seq![(ObjectView::Str(variant@), ObjectView::List(pythonized_items(fields@)))],
        ),
        value matches Value::StructVariant { variant, fields, .. } ==> value.pythonized()
            == ObjectView::Mapping(
            seq![
                (
                    ObjectView::Str(variant@),
                    ObjectView::Mapping(assign_all(pythonized_fields(fields@))),
                ),
            ],
        ),
{
}

/// The list that a sequence, a tuple or a tuple struct converts to has one
/// element for each element of the input, at the same index.
pub proof fn law_element_order(name: &'static str, items: Vec<Value>)
    ensures
        Value::Sequence(items).pythonized() == ObjectView::List(pythonized_items(items@)),
        Value::Tuple(items).pythonized() == ObjectView::List(pythonized_items(items@)),
        (Value::TupleStruct { name, fields: items }).pythonized() == ObjectView::List(
            pythonized_items(items@),
        ),
        pythonized_items(items@).len() == items@.len(),
        forall|i: int|
            0 <= i < items@.len() ==> pythonized_items(items@)[i] == (
            #[trigger] items@[i]).pythonized(),
{
}

/// The mapping that a map converts to holds, under each key, the value of
/// the last entry of the input with that key, and no two entries with the
/// same key. Where no key occurs twice, it holds the entries in the order of
/// the input.
pub proof fn law_map_last_write_wins(entries: Vec<(Value, Value)>, key: ObjectView)
    ensures
        Value::Mapping(entries).pythonized() matches ObjectView::Mapping(stored) && {
            &&& distinct_keys(stored)
            &&& value_of(stored, key) == last_written(pythonized_pairs(entries@), key)
            &&& distinct_keys(pythonized_pairs(entries@)) ==> stored == pythonized_pairs(entries@)
        },
{
    law_assign_all_distinct(pythonized_pairs(entries@));
    law_last_write_wins(pythonized_pairs(entries@), key);
    if distinct_keys(pythonized_pairs(entries@)) {
        law_distinct_keys_stored_in_order(pythonized_pairs(entries@));
    }
}

/// The mapping that a struct converts to holds, under each field's name, the
/// value of the last field of that name. Where no name occurs twice, it holds
/// the fields in declaration order, each under its name.
pub proof fn law_struct_fields(name: &'static str, fields: Vec<(&'static str, Value)>, key: ObjectView)
    ensures
        (Value::Struct { name, fields }).pythonized() matches ObjectView::Mapping(stored) && {
            &&& distinct_keys(stored)
            &&& value_of(stored, key) == last_written(pythonized_fields(fields@), key)
            &&& distinct_keys(pythonized_fields(fields@)) ==> stored == pythonized_fields(fields@)
        },
{
    law_assign_all_distinct(pythonized_fields(fields@));
    law_last_write_wins(pythonized_fields(fields@), key);
    if distinct_keys(pythonized_fields(fields@)) {
        law_distinct_keys_stored_in_order(pythonized_fields(fields@));
    }
}

/// The shape decides the object wherever the keys are leaves: what has the
/// shape of a value whose maps all have keys that convert to leaves is the
/// object that the value converts to.
pub proof fn law_shape_is_exact(value: Value, view: ObjectView)
    requires
        value.shapes(view),
        value.leaf_keyed(),
    ensures
        view == value.pythonized(),
    decreases value,
{
    match value {
        Value::OptionSome(inner) => {
            law_shape_is_exact(*inner, view);
        },
        Value::NewtypeStruct { value: inner, .. } => {
            law_shape_is_exact(*inner, view);
        },
        Value::NewtypeVariant { variant, value: inner, .. } => {
            let entries = view->Mapping_0;
            law_shape_is_exact(*inner, entries[0].1);
            assert(entries =~= seq![(ObjectView::Str(variant@), inner.pythonized())]);
        },
        Value::Sequence(items) => {
            lemma_items_exact(items@, view->List_0);
        },
        Value::Tuple(items) => {
            lemma_items_exact(items@, view->List_0);
        },
        Value::TupleStruct { fields, .. } => {
            lemma_items_exact(fields@, view->List_0);
        },
        Value::TupleVariant { variant, fields, .. } => {
            let entries = view->Mapping_0;
            lemma_items_exact(fields@, entries[0].1->List_0);
            assert(entries =~= seq![
                (ObjectView::Str(variant@), ObjectView::List(pythonized_items(fields@))),
            ]);
        },
        Value::Mapping(entries) => {
            let stored = view->Mapping_0;
            assert(pairs_leaf_keyed(entries@));
            assert forall|i: int| 0 <= i < entries@.len() implies (
            #[trigger] entries@[i]).0.pythonized().is_leaf() by {}
            let written = choose|written: Entries|
                stored == #[trigger] assign_all(written) && pairs_shaped(entries@, written);
            assert forall|i: int| 0 <= i < entries@.len() implies written[i] == pythonized_pairs(
                entries@,
            )[i] by {
                assert(entries@[i].1.leaf_keyed());
                law_shape_is_exact(entries@[i].1, written[i].1);
            }
            assert(written =~= pythonized_pairs(entries@));
        },
        Value::Struct { fields, .. } => {
            lemma_fields_exact(fields@, view->Mapping_0);
        },
        Value::StructVariant { variant, fields, .. } => {
            let entries = view->Mapping_0;
            lemma_fields_exact(fields@, entries[0].1->Mapping_0);
            assert(entries =~= seq![
                (
                    ObjectView::Str(variant@),
                    ObjectView::Mapping(assign_all(pythonized_fields(fields@))),
                ),
            ]);
        },
        _ => {},
    }
}

proof fn lemma_items_exact(items: Seq<Value>, views: Seq<ObjectView>)
    requires
        items_shaped(items, views),
        items_leaf_keyed(items),
    ensures
        views == pythonized_items(items),
    decreases items,
{
    assert forall|i: int| 0 <= i < items.len() implies views[i] == pythonized_items(items)[i] by {
        law_shape_is_exact(items[i], views[i]);
    }
    assert(views =~= pythonized_items(items));
}

proof fn lemma_fields_exact(fields: Seq<(&'static str, Value)>, stored: Entries)
    requires
        exists|written: Entries|
            stored == #[trigger] assign_all(written) && fields_shaped(fields, written),
        fields_leaf_keyed(fields),
    ensures
        stored == assign_all(pythonized_fields(fields)),
    decreases fields,
{
    let written = choose|written: Entries|
        stored == #[trigger] assign_all(written) && fields_shaped(fields, written);
    assert forall|i: int| 0 <= i < fields.len() implies written[i] == pythonized_fields(
        fields,
    )[i] by {
        law_shape_is_exact(fields[i].1, written[i].1);
    }
    assert(written =~= pythonized_fields(fields));
}

} // verus!
