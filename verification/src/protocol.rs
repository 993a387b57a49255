//! How a value describes itself to the dispatcher.

use crate::error::PythonizeError;
use crate::model::{assign_all, leaf_keys, Entries, ObjectView};
use crate::python::object_view;
use crate::ser::Pythonizer;
use crate::types::{AsPyMapping, PythonizeTypes};
use crate::value::{
    converted, converted_tagged, fields_converted, fields_leaf_keyed, fields_shaped,
    items_assign, items_keys_agree, items_leaf_keyed, items_owed, items_shaped, keys_leaf,
    pairs_converted, pairs_leaf_keyed, pairs_shaped, pythonized_fields, pythonized_items,
    pythonized_pairs, success_owed, tagged, Value,
};
use pyo3::PyObject;
use vstd::prelude::*;

verus! {

impl Value {
    /// Describes this value to `serializer`, by the one call that fits its
    /// shape, or by the bracketed run of element or field calls, and returns
    /// the object that comes of it.
    pub fn serialize<'py, P: PythonizeTypes>(&self, serializer: Pythonizer<'py, P>) -> (r: Result<
        PyObject,
        PythonizeError,
    >)
        ensures
            r matches Ok(o) ==> converted(self, object_view(o)),
            r matches Err(e) ==> e is AdapterFailure,
            success_owed::<P>(self) ==> r is Ok,
        decreases self, 0int,
    {
        match self {
            Value::Bool(v) => serializer.serialize_bool(*v),
            Value::I8(v) => serializer.serialize_i8(*v),
            Value::I16(v) => serializer.serialize_i16(*v),
            Value::I32(v) => serializer.serialize_i32(*v),
            Value::I64(v) => serializer.serialize_i64(*v),
            Value::U8(v) => serializer.serialize_u8(*v),
            Value::U16(v) => serializer.serialize_u16(*v),
            Value::U32(v) => serializer.serialize_u32(*v),
            Value::U64(v) => serializer.serialize_u64(*v),
            Value::Char(v) => serializer.serialize_char(*v),
            Value::Str(v) => serializer.serialize_str(v.as_str()),
            Value::Bytes(v) => serializer.serialize_bytes(v.as_slice()),
            Value::OptionNone => serializer.serialize_none(),
            Value::OptionSome(inner) => serializer.serialize_some(inner),
            Value::Unit => serializer.serialize_unit(),
            Value::UnitStruct { name } => serializer.serialize_unit_struct(name),
            Value::UnitVariant { name, variant_index, variant } => {
                serializer.serialize_unit_variant(name, *variant_index, variant)
            },
            Value::NewtypeStruct { name, value } => serializer.serialize_newtype_struct(name, value),
            Value::NewtypeVariant { name, variant_index, variant, value } => {
                let wrapped = serializer.serialize_newtype_variant(
                    name,
                    *variant_index,
                    variant,
                    value,
                );
                proof {
                    if wrapped is Ok {
                        lemma_tagged(variant@, value, object_view(wrapped->Ok_0));
                    }
                }
                wrapped
            },
            Value::Sequence(items) => {
                let mut seq = serializer.serialize_seq(Some(items.len()))?;
                proof {
                    if success_owed::<P>(self) {
                        lemma_items_owed::<P>(items@);
                    }
                }
                seq.serialize_elements(items)?;
                proof {
                    lemma_list_converted(self, items@, seq.views());
                }
                seq.end()
            },
            Value::Tuple(items) => {
                let mut tuple = serializer.serialize_tuple(items.len())?;
                proof {
                    if success_owed::<P>(self) {
                        lemma_items_owed::<P>(items@);
                    }
                }
                tuple.serialize_elements(items)?;
                proof {
                    lemma_list_converted(self, items@, tuple.views());
                }
                tuple.end()
            },
            Value::TupleStruct { name, fields } => {
                let mut tuple = serializer.serialize_tuple_struct(name, fields.len())?;
                proof {
                    if success_owed::<P>(self) {
                        lemma_items_owed::<P>(fields@);
                    }
                }
                tuple.serialize_elements(fields)?;
                proof {
                    lemma_list_converted(self, fields@, tuple.views());
                }
                tuple.end()
            },
            Value::TupleVariant { name, variant_index, variant, fields } => {
                let mut tuple = serializer.serialize_tuple_variant(
                    name,
                    *variant_index,
                    variant,
                    fields.len(),
                )?;
                proof {
                    if success_owed::<P>(self) {
                        lemma_items_owed::<P>(fields@);
                    }
                }
                tuple.serialize_fields(fields)?;
                proof {
                    lemma_tuple_variant_converted(self, tuple.views());
                }
                tuple.end()
            },
            Value::Mapping(entries) => {
                let mut map = serializer.serialize_map(Some(entries.len()))?;
                let written = map.serialize_entries(entries)?;
                proof {
                    lemma_mapping_converted(self, written@, map.mapping());
                }
                map.end()
            },
            Value::Struct { name, fields } => {
                let mut dict = serializer.serialize_struct(name, fields.len())?;
                let written = dict.serialize_fields(fields)?;
                proof {
                    lemma_struct_converted(self, written@, dict.mapping());
                }
                dict.end()
            },
            Value::StructVariant { name, variant_index, variant, fields } => {
                let mut dict = serializer.serialize_struct_variant(
                    name,
                    *variant_index,
                    variant,
                    fields.len(),
                )?;
                let written = dict.serialize_fields(fields)?;
                proof {
                    lemma_struct_variant_converted(self, written@, dict.mapping());
                }
                dict.end()
            },
        }
    }
}

/// The mapping of one entry around a converted payload is the tagged payload.
proof fn lemma_tagged(variant: Seq<char>, payload: &Value, view: ObjectView)
    requires
        converted_tagged(variant, payload, view),
    ensures
        view is Mapping,
        payload.leaf_keyed() ==> view == tagged(variant, payload.pythonized()),
{
    if payload.leaf_keyed() {
        assert(view->Mapping_0 =~= seq![(ObjectView::Str(variant), payload.pythonized())]);
    }
}

/// Where the conversion of a run of elements is sure to succeed as a whole,
/// that of each element is.
proof fn lemma_items_owed<P: PythonizeTypes>(items: Seq<Value>)
    requires
        !items_assign(items) || (P::Map::builds_dicts() && items_leaf_keyed(items)
            && items_keys_agree(items)),
    ensures
        items_owed::<P>(items),
{
}

/// Elements that were converted one by one make up the converted sequence.
proof fn lemma_collected(items: Seq<Value>, views: Seq<ObjectView>)
    requires
        views.len() == items.len(),
        forall|j: int| 0 <= j < items.len() ==> converted(&#[trigger] items[j], views[j]),
    ensures
        items_shaped(items, views),
        items_leaf_keyed(items) ==> views == pythonized_items(items),
{
}

/// What has the shape of a value that converts to a leaf is that leaf.
proof fn lemma_leaf_exact(key: Value, view: ObjectView)
    requires
        key.shapes(view),
        key.pythonized().is_leaf(),
    ensures
        view == key.pythonized(),
    decreases key,
{
    match key {
        Value::OptionSome(inner) => {
            lemma_leaf_exact(*inner, view);
        },
        Value::NewtypeStruct { value, .. } => {
            lemma_leaf_exact(*value, view);
        },
        _ => {},
    }
}

/// Entries that were converted one by one are the converted entries.
proof fn lemma_written_pairs(entries: Seq<(Value, Value)>, written: Entries)
    requires
        pairs_converted(entries, written),
    ensures
        keys_leaf(entries) ==> pairs_shaped(entries, written) && leaf_keys(written),
        pairs_leaf_keyed(entries) ==> written == pythonized_pairs(entries) && leaf_keys(written),
{
    if keys_leaf(entries) {
        assert forall|j: int| 0 <= j < entries.len() implies written[j].0 == (
        #[trigger] entries[j]).0.pythonized() && entries[j].1.shapes(written[j].1) by {
            lemma_leaf_exact(entries[j].0, written[j].0);
        }
        assert forall|j: int| 0 <= j < written.len() implies (#[trigger] written[j]).0.is_leaf() by {
            assert(written[j].0 == entries[j].0.pythonized());
        }
    }
}

/// Fields that were converted one by one are the converted fields.
proof fn lemma_written_fields(fields: Seq<(&'static str, Value)>, written: Entries)
    requires
        fields_converted(fields, written),
    ensures
        fields_shaped(fields, written),
        fields_leaf_keyed(fields) ==> written == pythonized_fields(fields),
{
}

/// A list of the converted elements is what a sequence, a tuple or a tuple
/// struct converts to.
proof fn lemma_list_converted(value: &Value, items: Seq<Value>, views: Seq<ObjectView>)
    requires
        match value {
            Value::Sequence(v) => v@ == items,
            Value::Tuple(v) => v@ == items,
            Value::TupleStruct { fields, .. } => fields@ == items,
            _ => false,
        },
        views.len() == items.len(),
        forall|j: int| 0 <= j < items.len() ==> converted(&#[trigger] items[j], views[j]),
    ensures
        converted(value, ObjectView::List(views)),
{
    lemma_collected(items, views);
}

/// The tagged list of the converted fields is what a tuple variant converts to.
proof fn lemma_tuple_variant_converted(value: &Value, views: Seq<ObjectView>)
    requires
        value matches Value::TupleVariant { fields, .. } && views.len() == fields@.len() && forall|
            j: int,
        | 0 <= j < fields@.len() ==> converted(&#[trigger] fields@[j], views[j]),
    ensures
        value matches Value::TupleVariant { variant, .. } && converted(
            value,
            tagged(variant@, ObjectView::List(views)),
        ),
{
    lemma_collected(value->TupleVariant_fields@, views);
}

/// The mapping that was assigned the converted entries is what a map
/// converts to.
proof fn lemma_mapping_converted(value: &Value, written: Entries, view: ObjectView)
    requires
        value matches Value::Mapping(entries) && pairs_converted(entries@, written),
        view is Mapping,
        leaf_keys(written) ==> view == ObjectView::Mapping(assign_all(written)),
    ensures
        converted(value, view),
{
    lemma_written_pairs(value->Mapping_0@, written);
}

/// The mapping that was assigned the converted fields is what a struct
/// converts to.
proof fn lemma_struct_converted(value: &Value, written: Entries, view: ObjectView)
    requires
        value matches Value::Struct { fields, .. } && fields_converted(fields@, written),
        view == ObjectView::Mapping(assign_all(written)),
    ensures
        converted(value, view),
{
    lemma_written_fields(value->Struct_fields@, written);
}

/// The tagged mapping that was assigned the converted fields is what a
/// struct variant converts to.
proof fn lemma_struct_variant_converted(value: &Value, written: Entries, inner: ObjectView)
    requires
        value matches Value::StructVariant { fields, .. } && fields_converted(fields@, written),
        inner == ObjectView::Mapping(assign_all(written)),
    ensures
        value matches Value::StructVariant { variant, .. } && converted(
            value,
            tagged(variant@, inner),
        ),
{
    lemma_written_fields(value->StructVariant_fields@, written);
}

} // verus!
