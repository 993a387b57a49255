//! The dispatcher and the compound serializers.

use crate::error::{adapter_outcome, PythonizeError};
use crate::model::{
    assign_all, kinds_clash, leaf_keys, lemma_assign_first_fits, lemma_assign_first_leaf_keys,
    lemma_assign_pushed, lemma_assign_string_keys, string_keys, Entries, ObjectView,
};
use crate::python::{
    assignment_owed, bool_object, bytes_object, i64_object, is_dict, item_assigned, none_object,
    object_view, object_views, set_item, str_object, u64_object,
};
use crate::types::{AsPyMapping, AsPySequence, PythonizeDefault, PythonizeTypes};
use crate::value::{
    assigned_view, converted, converted_tagged, fields_converted, fields_keys_agree,
    fields_leaf_keyed, items_owed, pairs_converted, pairs_keys_agree, pairs_leaf_keyed,
    success_owed, tagged, value_assigned, Value,
};
use pyo3::{PyObject, Python};
use std::marker::PhantomData;
use vstd::prelude::*;

verus! {

/// `char::to_string`: the string of that one character.
#[verifier::external_body]
fn char_to_string(c: char) -> (s: String)
    ensures
        s@ == seq![c],
{
    c.to_string()
}

/// The most elements that a collector reserves room for before the first
/// arrives. A longer sequence grows the buffer as it goes.
pub const RESERVE_LIMIT: usize = 65536;

/// An empty buffer with room for `len` elements, or for `RESERVE_LIMIT` where
/// `len` is more: a length that is only announced is not allocated in full.
fn reserved(len: usize) -> (buffer: Vec<PyObject>)
    ensures
        buffer@ == Seq::<PyObject>::empty(),
{
    if len <= RESERVE_LIMIT {
        Vec::with_capacity(len)
    } else {
        Vec::with_capacity(RESERVE_LIMIT)
    }
}

/// Converts `value` into a Python object built from `dict` and `list`.
///
/// On success the object holds what `Value::pythonized` gives, as long as
/// every key of every map inside `value` converts to a leaf. The conversion
/// fails only where Python rejects an item assignment. A `dict` rejects no
/// leaf, so the conversion succeeds where every key of every map converts to
/// a leaf, and where it assigns no item at all.
pub fn pythonize<'py>(py: Python<'py>, value: &Value) -> (r: Result<PyObject, PythonizeError>)
    ensures
        r matches Ok(o) ==> converted(value, object_view(o)),
        r matches Err(e) ==> e is AdapterFailure,
        value.leaf_keyed() && value.keys_agree() ==> r is Ok,
        !value.assigns_items() ==> r is Ok,
{
    pythonize_custom::<PythonizeDefault>(py, value)
}

/// Converts `value` into a Python object whose mappings and lists are built
/// from the classes that `P` names. The tree of objects is the one that
/// `pythonize` builds, whatever the classes. Success is owed where no item is
/// assigned, and where the mappings are `dict`s and every key of every map
/// converts to a leaf; of another class of mappings, Python decides.
pub fn pythonize_custom<'py, P: PythonizeTypes>(py: Python<'py>, value: &Value) -> (r: Result<
    PyObject,
    PythonizeError,
>)
    ensures
        r matches Ok(o) ==> converted(value, object_view(o)),
        r matches Err(e) ==> e is AdapterFailure,
        success_owed::<P>(value) ==> r is Ok,
    decreases value, 1int,
{
    value.serialize(Pythonizer::<P> { py, _ty: PhantomData })
}

/// The dispatcher: one method for each shape that a value can describe
/// itself by.
pub struct Pythonizer<'py, P> {
    py: Python<'py>,
    _ty: PhantomData<P>,
}

/// Collects the elements of a sequence, a tuple or a tuple struct.
pub struct PythonCollectionSerializer<'py, P> {
    items: Vec<PyObject>,
    py: Python<'py>,
    _ty: PhantomData<P>,
}

/// Collects the fields of a tuple variant.
pub struct PythonTupleVariantSerializer<'py, P> {
    variant: &'static str,
    inner: PythonCollectionSerializer<'py, P>,
}

/// Writes the fields of a struct variant.
pub struct PythonStructVariantSerializer<'py, P: PythonizeTypes> {
    variant: &'static str,
    inner: PythonDictSerializer<'py, P>,
}

/// Writes the fields of a struct into a mapping.
pub struct PythonDictSerializer<'py, P: PythonizeTypes> {
    dict: PyObject,
    py: Python<'py>,
    _ty: PhantomData<P>,
}

/// Writes the entries of a map into a mapping, a key and then its value.
pub struct PythonMapSerializer<'py, P: PythonizeTypes> {
    map: PyObject,
    key: Option<PyObject>,
    py: Python<'py>,
    _ty: PhantomData<P>,
}

impl<'py, P> Clone for Pythonizer<'py, P> {
    fn clone(&self) -> (r: Self)
        ensures
            r == *self,
    {
        Pythonizer { py: self.py, _ty: PhantomData }
    }
}

impl<'py, P> Copy for Pythonizer<'py, P> {
}

impl<'py, P: PythonizeTypes> Pythonizer<'py, P> {
    /// The token under which the dispatcher builds its objects.
    pub closed spec fn token(&self) -> Python<'py> {
        self.py
    }

    /// A dispatcher that builds its objects while `py` shows that the
    /// interpreter is held: that token is all that it holds.
    pub fn new(py: Python<'py>) -> (r: Self)
        ensures
            r.token() == py,
    {
        Pythonizer { py, _ty: PhantomData }
    }

    pub fn serialize_bool(self, v: bool) -> (r: Result<PyObject, PythonizeError>)
        ensures
            r matches Ok(o) && object_view(o) == ObjectView::Bool(v),
    {
        Ok(bool_object(self.py, v))
    }

    pub fn serialize_i8(self, v: i8) -> (r: Result<PyObject, PythonizeError>)
        ensures
            r matches Ok(o) && object_view(o) == ObjectView::Number(v as int),
    {
        Ok(i64_object(self.py, v as i64))
    }

    pub fn serialize_i16(self, v: i16) -> (r: Result<PyObject, PythonizeError>)
        ensures
            r matches Ok(o) && object_view(o) == ObjectView::Number(v as int),
    {
        Ok(i64_object(self.py, v as i64))
    }

    pub fn serialize_i32(self, v: i32) -> (r: Result<PyObject, PythonizeError>)
        ensures
            r matches Ok(o) && object_view(o) == ObjectView::Number(v as int),
    {
        Ok(i64_object(self.py, v as i64))
    }

    pub fn serialize_i64(self, v: i64) -> (r: Result<PyObject, PythonizeError>)
        ensures
            r matches Ok(o) && object_view(o) == ObjectView::Number(v as int),
    {
        Ok(i64_object(self.py, v))
    }

    pub fn serialize_u8(self, v: u8) -> (r: Result<PyObject, PythonizeError>)
        ensures
            r matches Ok(o) && object_view(o) == ObjectView::Number(v as int),
    {
        Ok(u64_object(self.py, v as u64))
    }

    pub fn serialize_u16(self, v: u16) -> (r: Result<PyObject, PythonizeError>)
        ensures
            r matches Ok(o) && object_view(o) == ObjectView::Number(v as int),
    {
        Ok(u64_object(self.py, v as u64))
    }

    pub fn serialize_u32(self, v: u32) -> (r: Result<PyObject, PythonizeError>)
        ensures
            r matches Ok(o) && object_view(o) == ObjectView::Number(v as int),
    {
        Ok(u64_object(self.py, v as u64))
    }

    pub fn serialize_u64(self, v: u64) -> (r: Result<PyObject, PythonizeError>)
        ensures
            r matches Ok(o) && object_view(o) == ObjectView::Number(v as int),
    {
        Ok(u64_object(self.py, v))
    }

    pub fn serialize_char(self, v: char) -> (r: Result<PyObject, PythonizeError>)
        ensures
            r matches Ok(o) && object_view(o) == ObjectView::Str(seq![v]),
    {
        let s = char_to_string(v);
        self.serialize_str(s.as_str())
    }

    pub fn serialize_str(self, v: &str) -> (r: Result<PyObject, PythonizeError>)
        ensures
            r matches Ok(o) && object_view(o) == ObjectView::Str(v@),
    {
        Ok(str_object(self.py, v))
    }

    pub fn serialize_bytes(self, v: &[u8]) -> (r: Result<PyObject, PythonizeError>)
        ensures
            r matches Ok(o) && object_view(o) == ObjectView::Bytes(v@),
    {
        Ok(bytes_object(self.py, v))
    }

    pub fn serialize_none(self) -> (r: Result<PyObject, PythonizeError>)
        ensures
            r matches Ok(o) && object_view(o) == ObjectView::Null,
    {
        Ok(none_object(self.py))
    }

    /// A present optional value converts as the value itself.
    pub fn serialize_some(self, value: &Value) -> (r: Result<PyObject, PythonizeError>)
        ensures
            r matches Ok(o) ==> converted(value, object_view(o)),
            r matches Err(e) ==> e is AdapterFailure,
            success_owed::<P>(value) ==> r is Ok,
        decreases value, 1int,
    {
        value.serialize(self)
    }

    pub fn serialize_unit(self) -> (r: Result<PyObject, PythonizeError>)
        ensures
            r matches Ok(o) && object_view(o) == ObjectView::Null,
    {
        self.serialize_none()
    }

    pub fn serialize_unit_struct(self, _name: &'static str) -> (r: Result<
        PyObject,
        PythonizeError,
    >)
        ensures
            r matches Ok(o) && object_view(o) == ObjectView::Null,
    {
        self.serialize_none()
    }

    /// A variant without payload converts to its name, a bare string.
    pub fn serialize_unit_variant(
        self,
        _name: &'static str,
        _variant_index: u32,
        variant: &'static str,
    ) -> (r: Result<PyObject, PythonizeError>)
        ensures
            r matches Ok(o) && object_view(o) == ObjectView::Str(variant@),
    {
        self.serialize_str(variant)
    }

    /// A struct of one unnamed field converts as the field itself.
    pub fn serialize_newtype_struct(self, _name: &'static str, value: &Value) -> (r: Result<
        PyObject,
        PythonizeError,
    >)
        ensures
            r matches Ok(o) ==> converted(value, object_view(o)),
            r matches Err(e) ==> e is AdapterFailure,
            success_owed::<P>(value) ==> r is Ok,
        decreases value, 1int,
    {
        value.serialize(self)
    }

    /// A variant of one unnamed field converts to a fresh mapping with the
    /// one entry `variant: value`. Where the mappings are `dict`s, the call
    /// succeeds wherever the conversion of `value` does.
    pub fn serialize_newtype_variant(
        self,
        _name: &'static str,
        _variant_index: u32,
        variant: &'static str,
        value: &Value,
    ) -> (r: Result<PyObject, PythonizeError>)
        ensures
            r matches Ok(o) ==> converted_tagged(variant@, value, object_view(o)),
            r matches Err(e) ==> e is AdapterFailure,
            P::Map::builds_dicts() && success_owed::<P>(value) ==> r is Ok,
        decreases value, 1int,
    {
        let inner = value.serialize(self)?;
        self.wrap_variant(variant, inner)
    }

    /// Wraps `inner` in a fresh mapping with the one entry `variant: inner`.
    /// Where the mappings are `dict`s, the call succeeds.
    pub fn wrap_variant(self, variant: &'static str, inner: PyObject) -> (r: Result<
        PyObject,
        PythonizeError,
    >)
        ensures
            r matches Ok(o) ==> object_view(o) == tagged(variant@, object_view(inner)),
            r matches Err(e) ==> e is AdapterFailure,
            P::Map::builds_dicts() ==> r is Ok,
    {
        let mut wrapper = P::Map::new(self.py);
        let key = str_object(self.py, variant);
        adapter_outcome(set_item(self.py, &mut wrapper, key, inner))?;
        Ok(wrapper)
    }

    /// Begins a sequence; `len` is the number of elements, where it is known.
    /// Room is reserved for them, up to `RESERVE_LIMIT`.
    pub fn serialize_seq(self, len: Option<usize>) -> (r: Result<
        PythonCollectionSerializer<'py, P>,
        PythonizeError,
    >)
        ensures
            r matches Ok(ser) && {
                &&& ser.token() == self.token()
                &&& ser.views() == Seq::<ObjectView>::empty()
            },
    {
        let items = match len {
            Some(len) => reserved(len),
            None => Vec::new(),
        };
        Ok(PythonCollectionSerializer { items, py: self.py, _ty: PhantomData })
    }

    /// Begins a tuple of `len` elements. Room is reserved for them, up to
    /// `RESERVE_LIMIT`.
    pub fn serialize_tuple(self, len: usize) -> (r: Result<
        PythonCollectionSerializer<'py, P>,
        PythonizeError,
    >)
        ensures
            r matches Ok(ser) && {
                &&& ser.token() == self.token()
                &&& ser.views() == Seq::<ObjectView>::empty()
            },
    {
        Ok(
            PythonCollectionSerializer {
                items: reserved(len),
                py: self.py,
                _ty: PhantomData,
            },
        )
    }

    /// Begins a tuple struct of `len` fields.
    pub fn serialize_tuple_struct(self, _name: &'static str, len: usize) -> (r: Result<
        PythonCollectionSerializer<'py, P>,
        PythonizeError,
    >)
        ensures
            r matches Ok(ser) && {
                &&& ser.token() == self.token()
                &&& ser.views() == Seq::<ObjectView>::empty()
            },
    {
        self.serialize_tuple(len)
    }

    /// Begins a tuple variant of `len` fields.
    pub fn serialize_tuple_variant(
        self,
        _name: &'static str,
        _variant_index: u32,
        variant: &'static str,
        len: usize,
    ) -> (r: Result<PythonTupleVariantSerializer<'py, P>, PythonizeError>)
        ensures
            r matches Ok(ser) && {
                &&& ser.token() == self.token()
                &&& ser.variant() == variant@
                &&& ser.views() == Seq::<ObjectView>::empty()
            },
    {
        let inner = self.serialize_tuple(len)?;
        Ok(PythonTupleVariantSerializer { variant, inner })
    }

    /// Begins a map: a fresh, empty mapping and no pending key.
    pub fn serialize_map(self, _len: Option<usize>) -> (r: Result<
        PythonMapSerializer<'py, P>,
        PythonizeError,
    >)
        ensures
            r matches Ok(ser) && {
                &&& ser.token() == self.token()
                &&& ser.mapping() == ObjectView::Mapping(Seq::empty())
                &&& ser.pending() is None
                &&& P::Map::builds_dicts() ==> ser.native()
            },
    {
        Ok(
            PythonMapSerializer {
                map: P::Map::new(self.py),
                key: None,
                py: self.py,
                _ty: PhantomData,
            },
        )
    }

    /// Begins a struct: a fresh, empty mapping.
    pub fn serialize_struct(self, _name: &'static str, _len: usize) -> (r: Result<
        PythonDictSerializer<'py, P>,
        PythonizeError,
    >)
        ensures
            r matches Ok(ser) && {
                &&& ser.token() == self.token()
                &&& ser.mapping() == ObjectView::Mapping(Seq::empty())
                &&& P::Map::builds_dicts() ==> ser.native()
            },
    {
        Ok(PythonDictSerializer { dict: P::Map::new(self.py), py: self.py, _ty: PhantomData })
    }

    /// Begins a struct variant: a fresh, empty mapping for the fields.
    pub fn serialize_struct_variant(
        self,
        _name: &'static str,
        _variant_index: u32,
        variant: &'static str,
        _len: usize,
    ) -> (r: Result<PythonStructVariantSerializer<'py, P>, PythonizeError>)
        ensures
            r matches Ok(ser) && {
                &&& ser.token() == self.token()
                &&& ser.variant() == variant@
                &&& ser.mapping() == ObjectView::Mapping(Seq::empty())
                &&& P::Map::builds_dicts() ==> ser.native()
            },
    {
        Ok(
            PythonStructVariantSerializer {
                variant,
                inner: PythonDictSerializer {
                    dict: P::Map::new(self.py),
                    py: self.py,
                    _ty: PhantomData,
                },
            },
        )
    }
}

impl<'py, P: PythonizeTypes> PythonCollectionSerializer<'py, P> {
    /// The token under which the serializer builds its objects.
    pub closed spec fn token(&self) -> Python<'py> {
        self.py
    }

    /// The elements collected so far, oldest first.
    pub closed spec fn views(&self) -> Seq<ObjectView> {
        object_views(self.items@)
    }

    /// Takes an element that has been converted already.
    pub fn push(&mut self, item: PyObject)
        ensures
            final(self).token() == old(self).token(),
            final(self).views() == old(self).views().push(object_view(item)),
    {
        self.items.push(item);
    }

    /// Converts `value` and adds it behind the elements collected so far.
    /// Where the conversion fails, nothing is added.
    pub fn serialize_element(&mut self, value: &Value) -> (r: Result<(), PythonizeError>)
        ensures
            final(self).token() == old(self).token(),
            r is Ok ==> final(self).views() == old(self).views().push(final(self).views().last())
                && converted(value, final(self).views().last()),
            r matches Err(e) ==> e is AdapterFailure && final(self).views() == old(self).views(),
            success_owed::<P>(value) ==> r is Ok,
        decreases value, 2int,
    {
        let item = pythonize_custom::<P>(self.py, value)?;
        self.push(item);
        Ok(())
    }

    /// A field of a tuple struct is collected as an element is.
    pub fn serialize_field(&mut self, value: &Value) -> (r: Result<(), PythonizeError>)
        ensures
            final(self).token() == old(self).token(),
            r is Ok ==> final(self).views() == old(self).views().push(final(self).views().last())
                && converted(value, final(self).views().last()),
            r matches Err(e) ==> e is AdapterFailure && final(self).views() == old(self).views(),
            success_owed::<P>(value) ==> r is Ok,
        decreases value, 3int,
    {
        self.serialize_element(value)
    }

    /// Converts `items` one by one, in order, into a collector that is empty,
    /// and stops at the first that fails.
    pub(crate) fn serialize_elements(&mut self, items: &Vec<Value>) -> (r: Result<
        (),
        PythonizeError,
    >)
        requires
            old(self).views().len() == 0,
        ensures
            final(self).token() == old(self).token(),
            r is Ok ==> final(self).views().len() == items@.len() && forall|j: int|
                0 <= j < items@.len() ==> converted(&#[trigger] items@[j], final(self).views()[j]),
            r matches Err(e) ==> e is AdapterFailure,
            items_owed::<P>(items@) ==> r is Ok,
        decreases items, 3int,
    {
        let mut i: usize = 0;
        while i < items.len()
            invariant
                0 <= i <= items@.len(),
                self.token() == old(self).token(),
                self.views().len() == i,
                forall|j: int| 0 <= j < i ==> converted(&#[trigger] items@[j], self.views()[j]),
            decreases items@.len() - i,
        {
            self.serialize_element(&items[i])?;
            i += 1;
        }
        Ok(())
    }

    /// Builds the list of the collected elements, in the order of the calls.
    pub fn end(self) -> (r: Result<PyObject, PythonizeError>)
        ensures
            r matches Ok(o) && object_view(o) == ObjectView::List(self.views()),
    {
        Ok(P::List::new(self.py, self.items))
    }
}

impl<'py, P: PythonizeTypes> PythonTupleVariantSerializer<'py, P> {
    /// The token under which the serializer builds its objects.
    pub closed spec fn token(&self) -> Python<'py> {
        self.inner.token()
    }

    /// The variant's name.
    pub closed spec fn variant(&self) -> Seq<char> {
        self.variant@
    }

    /// The fields collected so far, oldest first.
    pub closed spec fn views(&self) -> Seq<ObjectView> {
        self.inner.views()
    }

    /// Takes a field that has been converted already.
    pub fn push(&mut self, item: PyObject)
        ensures
            final(self).token() == old(self).token(),
            final(self).views() == old(self).views().push(object_view(item)),
            final(self).variant() == old(self).variant(),
    {
        self.inner.push(item);
    }

    /// Converts `value` and adds it behind the fields collected so far.
    pub fn serialize_field(&mut self, value: &Value) -> (r: Result<(), PythonizeError>)
        ensures
            final(self).token() == old(self).token(),
            final(self).variant() == old(self).variant(),
            r is Ok ==> final(self).views() == old(self).views().push(final(self).views().last())
                && converted(value, final(self).views().last()),
            r matches Err(e) ==> e is AdapterFailure && final(self).views() == old(self).views(),
            success_owed::<P>(value) ==> r is Ok,
        decreases value, 3int,
    {
        self.inner.serialize_element(value)
    }

    /// Converts `fields` one by one, in order, into a collector that is
    /// empty, and stops at the first that fails.
    pub(crate) fn serialize_fields(&mut self, fields: &Vec<Value>) -> (r: Result<
        (),
        PythonizeError,
    >)
        requires
            old(self).views().len() == 0,
        ensures
            final(self).token() == old(self).token(),
            final(self).variant() == old(self).variant(),
            r is Ok ==> final(self).views().len() == fields@.len() && forall|j: int|
                0 <= j < fields@.len() ==> converted(
                    &#[trigger] fields@[j],
                    final(self).views()[j],
                ),
            r matches Err(e) ==> e is AdapterFailure,
            items_owed::<P>(fields@) ==> r is Ok,
        decreases fields, 4int,
    {
        self.inner.serialize_elements(fields)
    }

    /// Builds the list of the fields and wraps it in a fresh mapping with
    /// the one entry `variant: list`. Where the mappings are `dict`s, the call
    /// succeeds.
    pub fn end(self) -> (r: Result<PyObject, PythonizeError>)
        ensures
            r matches Ok(o) ==> object_view(o) == tagged(
                self.variant(),
                ObjectView::List(self.views()),
            ),
            r matches Err(e) ==> e is AdapterFailure,
            P::Map::builds_dicts() ==> r is Ok,
    {
        let py = self.inner.py;
        let list = self.inner.end()?;
        Pythonizer::<P>::new(py).wrap_variant(self.variant, list)
    }
}

impl<'py, P: PythonizeTypes> PythonMapSerializer<'py, P> {
    /// The token under which the serializer builds its objects.
    pub closed spec fn token(&self) -> Python<'py> {
        self.py
    }

    /// The handle of the mapping that the entries are written into.
    pub closed spec fn handle(&self) -> PyObject {
        self.map
    }

    /// What the mapping holds so far.
    pub closed spec fn mapping(&self) -> ObjectView {
        object_view(self.map)
    }

    /// Whether the mapping is a `dict` of Python's own class.
    pub closed spec fn native(&self) -> bool {
        is_dict(self.map)
    }

    /// The key that waits for its value, if one does.
    pub closed spec fn pending(&self) -> Option<ObjectView> {
        match self.key {
            Some(k) => Some(object_view(k)),
            None => None,
        }
    }

    /// Whether a key waits for its value.
    pub fn key_is_pending(&self) -> (b: bool)
        ensures
            b == (self.pending() is Some),
    {
        self.key.is_some()
    }

    /// Takes a key that has been converted already. It is a protocol
    /// violation to hand in a key while another one waits for its value; the
    /// serializer is then left as it was.
    pub fn put_key(&mut self, key: PyObject) -> (r: Result<(), PythonizeError>)
        ensures
            final(self).token() == old(self).token(),
            final(self).handle() == old(self).handle(),
            final(self).mapping() == old(self).mapping(),
            final(self).native() == old(self).native(),
            old(self).pending() is None ==> {
                &&& r is Ok
                &&& final(self).pending() == Some(object_view(key))
            },
            old(self).pending() is Some ==> {
                &&& r matches Err(e) && e is ProtocolViolation
                &&& final(self).pending() == old(self).pending()
            },
    {
        if self.key_is_pending() {
            return Err(PythonizeError::ProtocolViolation);
        }
        self.key = Some(key);
        Ok(())
    }

    /// Takes a value that has been converted already and assigns it under the
    /// pending key, which is used up. It is a protocol violation to hand in a
    /// value while no key is pending; the serializer is then left as it was.
    /// A `dict` takes every leaf that it can compare with its keys, and holds
    /// what it held where an assignment fails.
    pub fn put_value(&mut self, value: PyObject) -> (r: Result<(), PythonizeError>)
        ensures
            final(self).token() == old(self).token(),
            old(self).native() ==> final(self).native(),
            old(self).native() && r is Err ==> final(self).mapping() == old(self).mapping(),
            old(self).pending() is None ==> {
                &&& r matches Err(e) && e is ProtocolViolation
                &&& final(self).pending() is None
                &&& final(self).handle() == old(self).handle()
                &&& final(self).mapping() == old(self).mapping()
            },
            old(self).pending() matches Some(k) ==> {
                &&& final(self).pending() is None
                &&& r is Ok ==> item_assigned(
                    old(self).mapping(),
                    k,
                    object_view(value),
                    final(self).mapping(),
                )
                &&& r matches Err(e) ==> e is AdapterFailure
                &&& old(self).native() && assignment_owed(old(self).mapping(), k) ==> r is Ok
            },
    {
        match self.key.take() {
            Some(key) => adapter_outcome(set_item(self.py, &mut self.map, key, value)),
            None => Err(PythonizeError::ProtocolViolation),
        }
    }

    /// Converts `key` and keeps it until its value arrives. Where a key is
    /// pending already, nothing is converted and the call is a protocol
    /// violation.
    pub fn serialize_key(&mut self, key: &Value) -> (r: Result<(), PythonizeError>)
        ensures
            final(self).token() == old(self).token(),
            final(self).handle() == old(self).handle(),
            final(self).mapping() == old(self).mapping(),
            final(self).native() == old(self).native(),
            old(self).pending() is Some ==> {
                &&& r matches Err(e) && e is ProtocolViolation
                &&& final(self).pending() == old(self).pending()
            },
            old(self).pending() is None ==> {
                &&& r is Ok ==> (final(self).pending() matches Some(k) && converted(key, k))
                &&& r matches Err(e) ==> e is AdapterFailure && final(self).pending() is None
                &&& success_owed::<P>(key) ==> r is Ok
            },
        decreases key, 2int,
    {
        if self.key_is_pending() {
            return Err(PythonizeError::ProtocolViolation);
        }
        let object = pythonize_custom::<P>(self.py, key)?;
        self.put_key(object)
    }

    /// Converts `value` and assigns it under the pending key, which is used
    /// up. Where no key is pending, nothing is converted and the call is a
    /// protocol violation. Where the conversion of `value` fails, nothing is
    /// assigned. A `dict` takes every leaf that it can compare with its keys,
    /// and holds what it held where an assignment fails.
    pub fn serialize_value(&mut self, value: &Value) -> (r: Result<(), PythonizeError>)
        ensures
            final(self).token() == old(self).token(),
            old(self).native() ==> final(self).native(),
            old(self).native() && r is Err ==> final(self).mapping() == old(self).mapping(),
            old(self).pending() is None ==> {
                &&& r matches Err(e) && e is ProtocolViolation
                &&& final(self).pending() is None
                &&& final(self).handle() == old(self).handle()
                &&& final(self).mapping() == old(self).mapping()
            },
            old(self).pending() matches Some(k) ==> {
                &&& final(self).pending() is None
                &&& r is Ok ==> value_assigned(old(self).mapping(), k, value, final(self).mapping())
                &&& r matches Err(e) ==> e is AdapterFailure
                &&& old(self).native() && assignment_owed(old(self).mapping(), k) && success_owed::<
                    P,
                >(value) ==> r is Ok
            },
        decreases value, 2int,
    {
        if !self.key_is_pending() {
            return Err(PythonizeError::ProtocolViolation);
        }
        match pythonize_custom::<P>(self.py, value) {
            Ok(object) => self.put_value(object),
            Err(e) => {
                self.key = None;
                Err(e)
            },
        }
    }

    /// Converts `entries` one by one, in order, each key and then its value,
    /// into a mapping that is empty, and stops at the first that fails. What
    /// comes back, for the proof alone, is what was assigned.
    pub(crate) fn serialize_entries(&mut self, entries: &Vec<(Value, Value)>) -> (r: Result<
        Ghost<Entries>,
        PythonizeError,
    >)
        requires
            old(self).mapping() == ObjectView::Mapping(Seq::empty()),
            old(self).pending() is None,
        ensures
            final(self).token() == old(self).token(),
            old(self).native() ==> final(self).native(),
            r matches Ok(written) ==> {
                &&& pairs_converted(entries@, written@)
                &&& final(self).pending() is None
                &&& final(self).mapping() is Mapping
                &&& leaf_keys(written@) ==> final(self).mapping() == ObjectView::Mapping(
                    assign_all(written@),
                )
            },
            r matches Err(e) ==> e is AdapterFailure,
            entries@.len() == 0 ==> r is Ok,
            old(self).native() && P::Map::builds_dicts() && pairs_leaf_keyed(entries@)
                && pairs_keys_agree(entries@) ==> r is Ok,
        decreases entries, 3int,
    {
        let ghost mut written: Entries = Seq::empty();
        let mut i: usize = 0;
        while i < entries.len()
            invariant
                0 <= i <= entries@.len(),
                written.len() == i,
                forall|j: int|
                    0 <= j < i ==> converted(&(#[trigger] entries@[j]).0, written[j].0)
                        && converted(&entries@[j].1, written[j].1),
                self.token() == old(self).token(),
                old(self).native() ==> self.native(),
                self.pending() is None,
                self.mapping() is Mapping,
                leaf_keys(written) ==> self.mapping() == ObjectView::Mapping(assign_all(written)),
            decreases entries@.len() - i,
        {
            self.serialize_key(&entries[i].0)?;
            let ghost key = self.pending().unwrap();
            let ghost before = self.mapping();
            proof {
                if pairs_leaf_keyed(entries@) && pairs_keys_agree(entries@) {
                    assert forall|j: int| 0 <= j < i implies (#[trigger] written[j]).0.is_leaf()
                        && !kinds_clash(written[j].0, key) by {
                        assert(entries@[j].0.leaf_keyed());
                    }
                    lemma_assign_first_fits(written, i as int, key);
                }
            }
            self.serialize_value(&entries[i].1)?;
            proof {
                let view = assigned_view(before, key, &entries@[i as int].1, self.mapping());
                if leaf_keys(written.push((key, view))) {
                    assert forall|j: int| 0 <= j < i implies (#[trigger] written[j]).0.is_leaf() by {
                        assert(written[j] == written.push((key, view))[j]);
                    }
                    lemma_assign_first_leaf_keys(written, i as int);
                    lemma_assign_pushed(written, key, view);
                }
                written = written.push((key, view));
            }
            i += 1;
        }
        Ok(Ghost(written))
    }

    /// Hands out the mapping that the entries were written into: the same
    /// object, not a copy.
    pub fn end(self) -> (r: Result<PyObject, PythonizeError>)
        ensures
            r matches Ok(o) && o == self.handle() && object_view(o) == self.mapping(),
    {
        Ok(self.map)
    }
}

impl<'py, P: PythonizeTypes> PythonDictSerializer<'py, P> {
    /// The token under which the serializer builds its objects.
    pub closed spec fn token(&self) -> Python<'py> {
        self.py
    }

    /// The handle of the mapping that the fields are written into.
    pub closed spec fn handle(&self) -> PyObject {
        self.dict
    }

    /// What the mapping holds so far.
    pub closed spec fn mapping(&self) -> ObjectView {
        object_view(self.dict)
    }

    /// Whether the mapping is a `dict` of Python's own class, with no keys
    /// but strings: such a `dict` takes every field.
    pub closed spec fn native(&self) -> bool {
        &&& is_dict(self.dict)
        &&& object_view(self.dict) matches ObjectView::Mapping(entries) && string_keys(entries)
    }

    /// Assigns a value that has been converted already under the string
    /// `key`. A `dict` of string keys takes every string as a key.
    pub fn put_field(&mut self, key: &'static str, value: PyObject) -> (r: Result<
        (),
        PythonizeError,
    >)
        ensures
            final(self).token() == old(self).token(),
            r is Ok ==> item_assigned(
                old(self).mapping(),
                ObjectView::Str(key@),
                object_view(value),
                final(self).mapping(),
            ),
            r matches Err(e) ==> e is AdapterFailure,
            old(self).native() ==> final(self).native() && r is Ok,
    {
        proof {
            if self.native() {
                lemma_assign_string_keys(
                    self.mapping()->Mapping_0,
                    ObjectView::Str(key@),
                    object_view(value),
                );
            }
        }
        let k = str_object(self.py, key);
        adapter_outcome(set_item(self.py, &mut self.dict, k, value))
    }

    /// Converts `value` and assigns it under the string `key`, the field's
    /// name. Where the conversion of `value` fails, nothing is assigned. A
    /// `dict` of string keys takes every string as a key.
    pub fn serialize_field(&mut self, key: &'static str, value: &Value) -> (r: Result<
        (),
        PythonizeError,
    >)
        ensures
            final(self).token() == old(self).token(),
            r is Ok ==> value_assigned(
                old(self).mapping(),
                ObjectView::Str(key@),
                value,
                final(self).mapping(),
            ),
            r matches Err(e) ==> e is AdapterFailure,
            old(self).native() ==> final(self).native(),
            old(self).native() && r is Err ==> final(self).mapping() == old(self).mapping(),
            old(self).native() && success_owed::<P>(value) ==> r is Ok,
        decreases value, 2int,
    {
        let object = pythonize_custom::<P>(self.py, value)?;
        self.put_field(key, object)
    }

    /// Converts `fields` one by one, in declaration order, into a mapping
    /// that is empty, and stops at the first that fails. What comes back, for
    /// the proof alone, is what was assigned.
    pub(crate) fn serialize_fields(&mut self, fields: &Vec<(&'static str, Value)>) -> (r: Result<
        Ghost<Entries>,
        PythonizeError,
    >)
        requires
            old(self).mapping() == ObjectView::Mapping(Seq::empty()),
        ensures
            final(self).token() == old(self).token(),
            old(self).native() ==> final(self).native(),
            r matches Ok(written) ==> {
                &&& fields_converted(fields@, written@)
                &&& final(self).mapping() == ObjectView::Mapping(assign_all(written@))
            },
            r matches Err(e) ==> e is AdapterFailure,
            fields@.len() == 0 ==> r is Ok,
            old(self).native() && P::Map::builds_dicts() && fields_leaf_keyed(fields@)
                && fields_keys_agree(fields@) ==> r is Ok,
        decreases fields, 3int,
    {
        let ghost mut written: Entries = Seq::empty();
        let mut i: usize = 0;
        while i < fields.len()
            invariant
                0 <= i <= fields@.len(),
                written.len() == i,
                forall|j: int|
                    0 <= j < i ==> written[j].0 == ObjectView::Str((#[trigger] fields@[j]).0@)
                        && converted(&fields@[j].1, written[j].1),
                self.token() == old(self).token(),
                old(self).native() ==> self.native(),
                self.mapping() == ObjectView::Mapping(assign_all(written)),
            decreases fields@.len() - i,
        {
            let ghost key = ObjectView::Str(fields@[i as int].0@);
            let ghost before = self.mapping();
            self.serialize_field(fields[i].0, &fields[i].1)?;
            proof {
                let view = assigned_view(before, key, &fields@[i as int].1, self.mapping());
                assert forall|j: int| 0 <= j < i implies (#[trigger] written[j]).0.is_leaf() by {
                    assert(written[j].0 == ObjectView::Str(fields@[j].0@));
                }
                lemma_assign_first_leaf_keys(written, i as int);
                lemma_assign_pushed(written, key, view);
                written = written.push((key, view));
            }
            i += 1;
        }
        Ok(Ghost(written))
    }

    /// Hands out the mapping that the fields were written into: the same
    /// object, not a copy.
    pub fn end(self) -> (r: Result<PyObject, PythonizeError>)
        ensures
            r matches Ok(o) && o == self.handle() && object_view(o) == self.mapping(),
    {
        Ok(self.dict)
    }
}

impl<'py, P: PythonizeTypes> PythonStructVariantSerializer<'py, P> {
    /// The token under which the serializer builds its objects.
    pub closed spec fn token(&self) -> Python<'py> {
        self.inner.token()
    }

    /// The variant's name.
    pub closed spec fn variant(&self) -> Seq<char> {
        self.variant@
    }

    /// What the mapping of the fields holds so far.
    pub closed spec fn mapping(&self) -> ObjectView {
        self.inner.mapping()
    }

    /// Whether the mapping of the fields is a `dict` of Python's own class,
    /// with no keys but strings.
    pub closed spec fn native(&self) -> bool {
        self.inner.native()
    }

    /// Assigns a value that has been converted already under the string
    /// `key`. A `dict` of string keys takes every string as a key.
    pub fn put_field(&mut self, key: &'static str, value: PyObject) -> (r: Result<
        (),
        PythonizeError,
    >)
        ensures
            final(self).token() == old(self).token(),
            final(self).variant() == old(self).variant(),
            r is Ok ==> item_assigned(
                old(self).mapping(),
                ObjectView::Str(key@),
                object_view(value),
                final(self).mapping(),
            ),
            r matches Err(e) ==> e is AdapterFailure,
            old(self).native() ==> final(self).native() && r is Ok,
    {
        self.inner.put_field(key, value)
    }

    /// Converts `value` and assigns it under the string `key`, the field's
    /// name. Where the conversion of `value` fails, nothing is assigned. A
    /// `dict` of string keys takes every string as a key.
    pub fn serialize_field(&mut self, key: &'static str, value: &Value) -> (r: Result<
        (),
        PythonizeError,
    >)
        ensures
            final(self).token() == old(self).token(),
            final(self).variant() == old(self).variant(),
            r is Ok ==> value_assigned(
                old(self).mapping(),
                ObjectView::Str(key@),
                value,
                final(self).mapping(),
            ),
            r matches Err(e) ==> e is AdapterFailure,
            old(self).native() ==> final(self).native(),
            old(self).native() && r is Err ==> final(self).mapping() == old(self).mapping(),
            old(self).native() && success_owed::<P>(value) ==> r is Ok,
        decreases value, 3int,
    {
        self.inner.serialize_field(key, value)
    }

    /// Converts `fields` one by one, in declaration order, into a mapping
    /// that is empty, and stops at the first that fails. What comes back, for
    /// the proof alone, is what was assigned.
    pub(crate) fn serialize_fields(&mut self, fields: &Vec<(&'static str, Value)>) -> (r: Result<
        Ghost<Entries>,
        PythonizeError,
    >)
        requires
            old(self).mapping() == ObjectView::Mapping(Seq::empty()),
        ensures
            final(self).token() == old(self).token(),
            final(self).variant() == old(self).variant(),
            old(self).native() ==> final(self).native(),
            r matches Ok(written) ==> {
                &&& fields_converted(fields@, written@)
                &&& final(self).mapping() == ObjectView::Mapping(assign_all(written@))
            },
            r matches Err(e) ==> e is AdapterFailure,
            fields@.len() == 0 ==> r is Ok,
            old(self).native() && P::Map::builds_dicts() && fields_leaf_keyed(fields@)
                && fields_keys_agree(fields@) ==> r is Ok,
        decreases fields, 4int,
    {
        self.inner.serialize_fields(fields)
    }

    /// Wraps the mapping of the fields in a fresh mapping with the one entry
    /// `variant: mapping`. Where the mappings are `dict`s, the call succeeds.
    pub fn end(self) -> (r: Result<PyObject, PythonizeError>)
        ensures
            r matches Ok(o) ==> object_view(o) == tagged(self.variant(), self.mapping()),
            r matches Err(e) ==> e is AdapterFailure,
            P::Map::builds_dicts() ==> r is Ok,
    {
        let py = self.inner.py;
        let fields = self.inner.end()?;
        Pythonizer::<P>::new(py).wrap_variant(self.variant, fields)
    }
}

} // verus!
