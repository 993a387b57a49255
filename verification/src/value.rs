//! Structured values, and the object that each converts to.

use crate::model::{assign_all, kinds_clash, Entries, ObjectView};
use crate::python::item_assigned;
use crate::types::{AsPyMapping, PythonizeTypes};
use vstd::prelude::*;

verus! {

/// A value, described by its shape: what one dispatch call, or one bracketed
/// run of element or field calls, says of it.
#[allow(inconsistent_fields)]
#[derive(Debug)]
pub enum Value {
    Bool(bool),
    I8(i8),
    I16(i16),
    I32(i32),
    I64(i64),
    U8(u8),
    U16(u16),
    U32(u32),
    U64(u64),
    Char(char),
    Str(String),
    Bytes(Vec<u8>),
    OptionNone,
    OptionSome(Box<Value>),
    Unit,
    UnitStruct { name: &'static str },
    UnitVariant { name: &'static str, variant_index: u32, variant: &'static str },
    NewtypeStruct { name: &'static str, value: Box<Value> },
    NewtypeVariant { name: &'static str, variant_index: u32, variant: &'static str, value: Box<Value> },
    Sequence(Vec<Value>),
    Tuple(Vec<Value>),
    TupleStruct { name: &'static str, fields: Vec<Value> },
    TupleVariant { name: &'static str, variant_index: u32, variant: &'static str, fields: Vec<Value> },
    Mapping(Vec<(Value, Value)>),
    Struct { name: &'static str, fields: Vec<(&'static str, Value)> },
    StructVariant {
        name: &'static str,
        variant_index: u32,
        variant: &'static str,
        fields: Vec<(&'static str, Value)>,
    },
}

/// The one-entry mapping that stands for a variant with a payload.
pub open spec fn tagged(variant: Seq<char>, inner: ObjectView) -> ObjectView {
    ObjectView::Mapping(seq![(ObjectView::Str(variant), inner)])
}

/// The objects that a run of elements converts to, in the same order.
pub open spec fn pythonized_items(items: Seq<Value>) -> Seq<ObjectView>
    decreases items,
{
    Seq::new(
        items.len(),
        |i: int|
            if 0 <= i < items.len() {
                items[i].pythonized()
            } else {
                ObjectView::Null
            },
    )
}

/// The key and value objects that the entries of a map convert to, in the
/// order in which they are written.
pub open spec fn pythonized_pairs(entries: Seq<(Value, Value)>) -> Entries
    decreases entries,
{
    Seq::new(
        entries.len(),
        |i: int|
            if 0 <= i < entries.len() {
                (entries[i].0.pythonized(), entries[i].1.pythonized())
            } else {
                (ObjectView::Null, ObjectView::Null)
            },
    )
}

/// The key and value objects that named fields convert to, in declaration
/// order: each key is the field's name as a string.
pub open spec fn pythonized_fields(fields: Seq<(&'static str, Value)>) -> Entries
    decreases fields,
{
    Seq::new(
        fields.len(),
        |i: int|
            if 0 <= i < fields.len() {
                (ObjectView::Str(fields[i].0@), fields[i].1.pythonized())
            } else {
                (ObjectView::Null, ObjectView::Null)
            },
    )
}

impl Value {
    /// The object that this value converts to.
    pub open spec fn pythonized(&self) -> ObjectView
        decreases self,
    {
        match self {
            Value::Bool(v) => ObjectView::Bool(*v),
            Value::I8(v) => ObjectView::Number(*v as int),
            Value::I16(v) => ObjectView::Number(*v as int),
            Value::I32(v) => ObjectView::Number(*v as int),
            Value::I64(v) => ObjectView::Number(*v as int),
            Value::U8(v) => ObjectView::Number(*v as int),
            Value::U16(v) => ObjectView::Number(*v as int),
            Value::U32(v) => ObjectView::Number(*v as int),
            Value::U64(v) => ObjectView::Number(*v as int),
            Value::Char(c) => ObjectView::Str(seq![*c]),
            Value::Str(s) => ObjectView::Str(s@),
            Value::Bytes(b) => ObjectView::Bytes(b@),
            Value::OptionNone => ObjectView::Null,
            Value::OptionSome(inner) => inner.pythonized(),
            Value::Unit => ObjectView::Null,
            Value::UnitStruct { .. } => ObjectView::Null,
            Value::UnitVariant { variant, .. } => ObjectView::Str(variant@),
            Value::NewtypeStruct { value, .. } => value.pythonized(),
            Value::NewtypeVariant { variant, value, .. } => tagged(variant@, value.pythonized()),
            Value::Sequence(items) => ObjectView::List(pythonized_items(items@)),
            Value::Tuple(items) => ObjectView::List(pythonized_items(items@)),
            Value::TupleStruct { fields, .. } => ObjectView::List(pythonized_items(fields@)),
            Value::TupleVariant { variant, fields, .. } => tagged(
                variant@,
                ObjectView::List(pythonized_items(fields@)),
            ),
            Value::Mapping(entries) => ObjectView::Mapping(
                assign_all(pythonized_pairs(entries@)),
            ),
            Value::Struct { fields, .. } => ObjectView::Mapping(
                assign_all(pythonized_fields(fields@)),
            ),
            Value::StructVariant { variant, fields, .. } => tagged(
                variant@,
                ObjectView::Mapping(assign_all(pythonized_fields(fields@))),
            ),
        }
    }

    /// Every key of every map inside this value converts to a leaf: a
    /// boolean, a number, a string, bytes or null.
    pub open spec fn leaf_keyed(&self) -> bool
        decreases self,
    {
        match self {
            Value::OptionSome(inner) => inner.leaf_keyed(),
            Value::NewtypeStruct { value, .. } => value.leaf_keyed(),
            Value::NewtypeVariant { value, .. } => value.leaf_keyed(),
            Value::Sequence(items) => items_leaf_keyed(items@),
            Value::Tuple(items) => items_leaf_keyed(items@),
            Value::TupleStruct { fields, .. } => items_leaf_keyed(fields@),
            Value::TupleVariant { fields, .. } => items_leaf_keyed(fields@),
            Value::Mapping(entries) => pairs_leaf_keyed(entries@),
            Value::Struct { fields, .. } => fields_leaf_keyed(fields@),
            Value::StructVariant { fields, .. } => fields_leaf_keyed(fields@),
            _ => true,
        }
    }

    /// In every map inside this value, no key that converts to bytes stands
    /// beside one that converts to a string, a boolean or a number: an
    /// interpreter may refuse to compare the two.
    pub open spec fn keys_agree(&self) -> bool
        decreases self,
    {
        match self {
            Value::OptionSome(inner) => inner.keys_agree(),
            Value::NewtypeStruct { value, .. } => value.keys_agree(),
            Value::NewtypeVariant { value, .. } => value.keys_agree(),
            Value::Sequence(items) => items_keys_agree(items@),
            Value::Tuple(items) => items_keys_agree(items@),
            Value::TupleStruct { fields, .. } => items_keys_agree(fields@),
            Value::TupleVariant { fields, .. } => items_keys_agree(fields@),
            Value::Mapping(entries) => pairs_keys_agree(entries@),
            Value::Struct { fields, .. } => fields_keys_agree(fields@),
            Value::StructVariant { fields, .. } => fields_keys_agree(fields@),
            _ => true,
        }
    }

    /// The value that decides what this one converts to: a present optional
    /// value and a struct of one unnamed field stand for what they hold.
    pub open spec fn unwrapped(&self) -> &Value
        decreases self,
    {
        match self {
            Value::OptionSome(inner) => inner.unwrapped(),
            Value::NewtypeStruct { value, .. } => value.unwrapped(),
            _ => self,
        }
    }

    /// The shapes that convert to null.
    pub open spec fn is_null_shape(&self) -> bool {
        self is OptionNone || self is Unit || self is UnitStruct
    }

    /// `view` has the shape of what this value converts to, whatever the
    /// keys inside: a leaf is the leaf, a sequence is a list of as many
    /// elements, each of the shape of its element, a variant with a payload
    /// is a mapping of one entry under its name, and a struct is a mapping
    /// that was assigned each field under its name. A map is a mapping; where
    /// all its keys convert to leaves, it was assigned each entry under its
    /// key, and else what it holds is left open.
    pub open spec fn shapes(&self, view: ObjectView) -> bool
        decreases self,
    {
        match self {
            Value::OptionSome(inner) => inner.shapes(view),
            Value::NewtypeStruct { value, .. } => value.shapes(view),
            Value::NewtypeVariant { variant, value, .. } => match view {
                ObjectView::Mapping(entries) => {
                    &&& entries.len() == 1
                    &&& entries[0].0 == ObjectView::Str(variant@)
                    &&& value.shapes(entries[0].1)
                },
                _ => false,
            },
            Value::Sequence(items) => match view {
                ObjectView::List(views) => items_shaped(items@, views),
                _ => false,
            },
            Value::Tuple(items) => match view {
                ObjectView::List(views) => items_shaped(items@, views),
                _ => false,
            },
            Value::TupleStruct { fields, .. } => match view {
                ObjectView::List(views) => items_shaped(fields@, views),
                _ => false,
            },
            Value::TupleVariant { variant, fields, .. } => match view {
                ObjectView::Mapping(entries) => {
                    &&& entries.len() == 1
                    &&& entries[0].0 == ObjectView::Str(variant@)
                    &&& match entries[0].1 {
                        ObjectView::List(views) => items_shaped(fields@, views),
                        _ => false,
                    }
                },
                _ => false,
            },
            Value::Mapping(entries) => match view {
                ObjectView::Mapping(stored) => keys_leaf(entries@) ==> exists|written: Entries|
                    stored == #[trigger] assign_all(written) && pairs_shaped(entries@, written),
                _ => false,
            },
            Value::Struct { fields, .. } => match view {
                ObjectView::Mapping(stored) => exists|written: Entries|
                    stored == #[trigger] assign_all(written) && fields_shaped(fields@, written),
                _ => false,
            },
            Value::StructVariant { variant, fields, .. } => match view {
                ObjectView::Mapping(entries) => {
                    &&& entries.len() == 1
                    &&& entries[0].0 == ObjectView::Str(variant@)
                    &&& match entries[0].1 {
                        ObjectView::Mapping(stored) => exists|written: Entries|
                            stored == #[trigger] assign_all(written) && fields_shaped(
                                fields@,
                                written,
                            ),
                        _ => false,
                    }
                },
                _ => false,
            },
            _ => view == self.pythonized(),
        }
    }

    /// Converting this value assigns at least one item of a mapping.
    pub open spec fn assigns_items(&self) -> bool
        decreases self,
    {
        match self {
            Value::OptionSome(inner) => inner.assigns_items(),
            Value::NewtypeStruct { value, .. } => value.assigns_items(),
            Value::NewtypeVariant { .. } => true,
            Value::Sequence(items) => items_assign(items@),
            Value::Tuple(items) => items_assign(items@),
            Value::TupleStruct { fields, .. } => items_assign(fields@),
            Value::TupleVariant { .. } => true,
            Value::Mapping(entries) => entries@.len() > 0,
            Value::Struct { fields, .. } => fields@.len() > 0,
            Value::StructVariant { .. } => true,
            _ => false,
        }
    }
}

/// Each of `items` is leaf-keyed.
pub open spec fn items_leaf_keyed(items: Seq<Value>) -> bool
    decreases items,
{
    forall|i: int| 0 <= i < items.len() ==> (#[trigger] items[i]).leaf_keyed()
}

/// Each key converts to a leaf, and each key and each value is leaf-keyed.
pub open spec fn pairs_leaf_keyed(entries: Seq<(Value, Value)>) -> bool
    decreases entries,
{
    forall|i: int|
        0 <= i < entries.len() ==> {
            &&& (#[trigger] entries[i]).0.leaf_keyed()
            &&& entries[i].0.pythonized().is_leaf()
            &&& entries[i].1.leaf_keyed()
        }
}

/// The value of each field is leaf-keyed.
pub open spec fn fields_leaf_keyed(fields: Seq<(&'static str, Value)>) -> bool
    decreases fields,
{
    forall|i: int| 0 <= i < fields.len() ==> (#[trigger] fields[i]).1.leaf_keyed()
}

/// The keys agree inside each of `items`.
pub open spec fn items_keys_agree(items: Seq<Value>) -> bool
    decreases items,
{
    forall|i: int| 0 <= i < items.len() ==> (#[trigger] items[i]).keys_agree()
}

/// No two keys clash, and the keys agree inside each key and each value.
pub open spec fn pairs_keys_agree(entries: Seq<(Value, Value)>) -> bool
    decreases entries,
{
    &&& forall|i: int|
        0 <= i < entries.len() ==> (#[trigger] entries[i]).0.keys_agree()
            && entries[i].1.keys_agree()
    &&& forall|i: int, j: int|
        0 <= i < entries.len() && 0 <= j < entries.len() ==> !kinds_clash(
            (#[trigger] entries[i]).0.pythonized(),
            (#[trigger] entries[j]).0.pythonized(),
        )
}

/// The keys agree inside the value of each field.
pub open spec fn fields_keys_agree(fields: Seq<(&'static str, Value)>) -> bool
    decreases fields,
{
    forall|i: int| 0 <= i < fields.len() ==> (#[trigger] fields[i]).1.keys_agree()
}

/// `views` are as many as `items`, each of the shape of its element.
pub open spec fn items_shaped(items: Seq<Value>, views: Seq<ObjectView>) -> bool
    decreases items,
{
    &&& views.len() == items.len()
    &&& forall|i: int| 0 <= i < items.len() ==> (#[trigger] items[i]).shapes(views[i])
}

/// Every key converts to a leaf.
pub open spec fn keys_leaf(entries: Seq<(Value, Value)>) -> bool {
    forall|i: int| 0 <= i < entries.len() ==> (#[trigger] entries[i]).0.pythonized().is_leaf()
}

/// `written` are as many pairs as `entries`: each key is what the key
/// converts to, and each value has the shape of its value.
pub open spec fn pairs_shaped(entries: Seq<(Value, Value)>, written: Entries) -> bool
    decreases entries,
{
    &&& written.len() == entries.len()
    &&& forall|i: int|
        0 <= i < entries.len() ==> written[i].0 == (#[trigger] entries[i]).0.pythonized()
            && entries[i].1.shapes(written[i].1)
}

/// `written` are as many pairs as `fields`: each key is the field's name as
/// a string, and each value has the shape of the field's value.
pub open spec fn fields_shaped(fields: Seq<(&'static str, Value)>, written: Entries) -> bool
    decreases fields,
{
    &&& written.len() == fields.len()
    &&& forall|i: int|
        0 <= i < fields.len() ==> written[i].0 == ObjectView::Str((#[trigger] fields[i]).0@)
            && fields[i].1.shapes(written[i].1)
}

/// Converting one of `items` assigns an item of a mapping.
pub open spec fn items_assign(items: Seq<Value>) -> bool
    decreases items,
{
    exists|i: int| 0 <= i < items.len() && (#[trigger] items[i]).assigns_items()
}

/// `view` is what `value` converts to. It has the shape that `shapes`
/// describes; it is null exactly where `value` is, or stands for, the unit,
/// a unit struct or an absent optional value; and where every key of every
/// map inside `value` converts to a leaf, it is the object that `pythonized`
/// gives.
pub open spec fn converted(value: &Value, view: ObjectView) -> bool {
    &&& value.shapes(view)
    &&& view is Null <==> value.unwrapped().is_null_shape()
    &&& value.leaf_keyed() ==> view == value.pythonized()
}

/// `view` is the mapping of one entry that stands for a variant with a
/// payload: the variant's name, and under it what `value` converts to.
pub open spec fn converted_tagged(variant: Seq<char>, value: &Value, view: ObjectView) -> bool {
    &&& view matches ObjectView::Mapping(entries)
    &&& entries.len() == 1
    &&& entries[0].0 == ObjectView::Str(variant)
    &&& converted(value, entries[0].1)
}

/// What a mapping holds after what `value` converts to has been assigned
/// under `key`.
pub open spec fn value_assigned(
    before: ObjectView,
    key: ObjectView,
    value: &Value,
    after: ObjectView,
) -> bool {
    exists|view: ObjectView| #[trigger]
        converted(value, view) && item_assigned(before, key, view, after)
}

/// The object that was assigned, where `value_assigned` holds.
pub open spec fn assigned_view(
    before: ObjectView,
    key: ObjectView,
    value: &Value,
    after: ObjectView,
) -> ObjectView {
    choose|view: ObjectView| #[trigger]
        converted(value, view) && item_assigned(before, key, view, after)
}

/// `written` is what the entries of a map convert to, pair by pair.
pub open spec fn pairs_converted(entries: Seq<(Value, Value)>, written: Entries) -> bool {
    &&& written.len() == entries.len()
    &&& forall|i: int|
        0 <= i < entries.len() ==> converted(&(#[trigger] entries[i]).0, written[i].0)
            && converted(&entries[i].1, written[i].1)
}

/// `written` is what named fields convert to, field by field, each under its
/// name as a string.
pub open spec fn fields_converted(fields: Seq<(&'static str, Value)>, written: Entries) -> bool {
    &&& written.len() == fields.len()
    &&& forall|i: int|
        0 <= i < fields.len() ==> written[i].0 == ObjectView::Str((#[trigger] fields[i]).0@)
            && converted(&fields[i].1, written[i].1)
}

/// The conversion of `value` is sure to succeed, as long as Python can
/// allocate: it assigns no item, or every item that it assigns goes into a
/// `dict` under a leaf that the `dict` can compare with its keys.
pub open spec fn success_owed<P: PythonizeTypes>(value: &Value) -> bool {
    !value.assigns_items() || (P::Map::builds_dicts() && value.leaf_keyed() && value.keys_agree())
}

/// The conversion of each of `items` is sure to succeed.
pub open spec fn items_owed<P: PythonizeTypes>(items: Seq<Value>) -> bool {
    forall|i: int| 0 <= i < items.len() ==> success_owed::<P>(&#[trigger] items[i])
}

} // verus!
