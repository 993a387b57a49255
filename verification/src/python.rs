//! The calls into pyo3, each with what is taken on trust of it.

use crate::model::{assign, key_fits, leaf_keys, ObjectView};
use pyo3::types::{PyDict, PyList};
use pyo3::{IntoPy, Py, PyAny, PyErr, PyObject, Python};
use vstd::prelude::*;

verus! {

/// `pyo3::Python`: the token that shows that the interpreter is held.
#[verifier::external_type_specification]
#[verifier::external_body]
pub struct ExPython<'py>(Python<'py>);

/// `pyo3::PyAny`: any Python object.
#[verifier::external_type_specification]
#[verifier::external_body]
pub struct ExPyAny(PyAny);

/// `pyo3::Py`: an owned handle to a Python object.
#[verifier::external_type_specification]
#[verifier::external_body]
#[verifier::reject_recursive_types(T)]
pub struct ExPy<T>(Py<T>);

/// `pyo3::PyErr`: a Python exception.
#[verifier::external_type_specification]
#[verifier::external_body]
pub struct ExPyErr(PyErr);

/// `pyo3::types::PyDict`: Python's `dict`.
#[verifier::external_type_specification]
#[verifier::external_body]
pub struct ExPyDict(PyDict);

/// `pyo3::types::PyList`: Python's `list`.
#[verifier::external_type_specification]
#[verifier::external_body]
pub struct ExPyList(PyList);

/// What the object behind a handle holds.
///
/// This library uses a handle linearly: it moves the handle into the object
/// that comes to hold it, and changes an object only through `&mut` to its
/// handle. So what a handle's object holds changes only where a contract
/// says so.
pub uninterp spec fn object_view(o: Py<PyAny>) -> ObjectView;

/// Whether the object behind a handle is a `dict` of Python's own class.
pub uninterp spec fn is_dict(o: Py<PyAny>) -> bool;

/// The views of a run of handles, in order.
pub open spec fn object_views(items: Seq<PyObject>) -> Seq<ObjectView> {
    Seq::new(items.len(), |i: int| object_view(items[i]))
}

/// What a successful item assignment does to a mapping: it leaves a
/// mapping, and where the keys in it are leaves and the new key is a leaf too,
/// the entries are those that `assign` gives.
pub open spec fn item_assigned(
    before: ObjectView,
    key: ObjectView,
    value: ObjectView,
    after: ObjectView,
) -> bool {
    match before {
        ObjectView::Mapping(entries) => {
            &&& after is Mapping
            &&& leaf_keys(entries) && key.is_leaf() ==> after == ObjectView::Mapping(
                assign(entries, key, value),
            )
        },
        _ => true,
    }
}

/// A `dict` that holds `before` is sure to take `key`: the key can be hashed,
/// and it can be compared with every key that is there.
pub open spec fn assignment_owed(before: ObjectView, key: ObjectView) -> bool {
    before matches ObjectView::Mapping(entries) && key_fits(entries, key)
}

/// `Python::None`: the handle refers to Python's `None`.
#[verifier::external_body]
pub(crate) fn none_object<'py>(py: Python<'py>) -> (r: PyObject)
    ensures
        object_view(r) == ObjectView::Null,
{
    py.None()
}

/// `IntoPy<PyObject>` for `bool`: Python's `True` or `False`.
#[verifier::external_body]
pub(crate) fn bool_object<'py>(py: Python<'py>, v: bool) -> (r: PyObject)
    ensures
        object_view(r) == ObjectView::Bool(v),
{
    v.into_py(py)
}

/// `IntoPy<PyObject>` for `i64`: a Python `int` of the same value.
#[verifier::external_body]
pub(crate) fn i64_object<'py>(py: Python<'py>, v: i64) -> (r: PyObject)
    ensures
        object_view(r) == ObjectView::Number(v as int),
{
    v.into_py(py)
}

/// `IntoPy<PyObject>` for `u64`: a Python `int` of the same value.
#[verifier::external_body]
pub(crate) fn u64_object<'py>(py: Python<'py>, v: u64) -> (r: PyObject)
    ensures
        object_view(r) == ObjectView::Number(v as int),
{
    v.into_py(py)
}

/// `IntoPy<PyObject>` for `&str`: a Python `str` of the same characters.
#[verifier::external_body]
pub(crate) fn str_object<'py>(py: Python<'py>, v: &str) -> (r: PyObject)
    ensures
        object_view(r) == ObjectView::Str(v@),
{
    v.into_py(py)
}

/// `IntoPy<PyObject>` for `&[u8]`: a Python `bytes` object, a copy of the slice.
#[verifier::external_body]
pub(crate) fn bytes_object<'py>(py: Python<'py>, v: &[u8]) -> (r: PyObject)
    ensures
        object_view(r) == ObjectView::Bytes(v@),
{
    v.into_py(py)
}

/// `PyDict::new`: a new, empty `dict`.
#[verifier::external_body]
pub(crate) fn new_dict<'py>(py: Python<'py>) -> (r: PyObject)
    ensures
        is_dict(r),
        object_view(r) == ObjectView::Mapping(Seq::empty()),
{
    PyDict::new(py).into()
}

/// `PyList::new`: a new `list` of the objects that `elements` refers to, in
/// the order of `elements`.
#[verifier::external_body]
pub(crate) fn new_list<'py>(py: Python<'py>, elements: Vec<PyObject>) -> (r: PyObject)
    ensures
        object_view(r) == ObjectView::List(object_views(elements@)),
{
    PyList::new(py, elements).into()
}

/// `PyAny::set_item`: the Python statement `target[key] = value`.
///
/// Where the statement succeeds on a mapping, the target is a mapping still;
/// where its keys are leaves and `key` is a leaf, it holds afterwards what
/// `assign` describes, which is `dict`'s item assignment: a key that is equal
/// to one in the mapping (`True` and `False` equal `1` and `0`) has its value
/// replaced in place, and a new key goes to the end.
///
/// A `dict` stays a `dict`. A leaf can be hashed, and a `dict` compares a
/// new key only with the keys that it holds. So a `dict` whose keys are
/// leaves takes a leaf, as long as Python can allocate and no `bytes` key
/// meets a string or a numeric key, which an interpreter may refuse to
/// compare. Where the statement fails on a `dict`, the `dict` holds what it
/// held. Of another class nothing is claimed of when the statement succeeds,
/// nor of what the target holds after a failure.
#[verifier::external_body]
pub(crate) fn set_item<'py>(
    py: Python<'py>,
    target: &mut PyObject,
    key: PyObject,
    value: PyObject,
) -> (r: Result<(), PyErr>)
    ensures
        r is Ok ==> item_assigned(
            object_view(*old(target)),
            object_view(key),
            object_view(value),
            object_view(*final(target)),
        ),
        is_dict(*old(target)) ==> is_dict(*final(target)),
        is_dict(*old(target)) && assignment_owed(object_view(*old(target)), object_view(key))
            ==> r is Ok,
        is_dict(*old(target)) && r is Err ==> object_view(*final(target)) == object_view(
            *old(target),
        ),
{
    target.as_ref(py).set_item(key, value)
}

} // verus!
