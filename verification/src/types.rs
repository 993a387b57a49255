//! The classes that mappings and lists are built from.

use crate::model::ObjectView;
use crate::python::{is_dict, new_dict, new_list, object_view, object_views};
use pyo3::types::{PyDict, PyList};
use pyo3::{PyObject, Python};
use vstd::prelude::*;

verus! {

/// A Python class whose objects can stand for a mapping: they take item
/// assignment, `object[key] = value`, and keep what was assigned the way a
/// `dict` does.
pub trait AsPyMapping {
    /// Whether the class is Python's own `dict`, of which it is known when an
    /// item assignment succeeds. Of a class that does not say so, nothing of
    /// the kind is taken as known.
    open spec fn builds_dicts() -> bool {
        false
    }

    /// Constructor: a fresh mapping without entries.
    fn new<'py>(py: Python<'py>) -> (r: PyObject)
        ensures
            object_view(r) == ObjectView::Mapping(Seq::empty()),
            Self::builds_dicts() ==> is_dict(r),
    ;
}

/// A Python class whose objects can stand for a list: they hold a run of
/// objects in order.
pub trait AsPySequence {
    /// Constructor: a fresh sequence that holds `elements`, in their order.
    fn new<'py>(py: Python<'py>, elements: Vec<PyObject>) -> (r: PyObject)
        ensures
            object_view(r) == ObjectView::List(object_views(elements@)),
    ;
}

/// The pair of classes that a conversion builds its mappings and lists from.
pub trait PythonizeTypes {
    type Map: AsPyMapping;

    type List: AsPySequence;
}

impl AsPyMapping for PyDict {
    open spec fn builds_dicts() -> bool {
        true
    }

    fn new<'py>(py: Python<'py>) -> (r: PyObject) {
        new_dict(py)
    }
}

impl AsPySequence for PyList {
    fn new<'py>(py: Python<'py>, elements: Vec<PyObject>) -> (r: PyObject) {
        new_list(py, elements)
    }
}

/// Python's own `dict` and `list`.
pub struct PythonizeDefault;

impl PythonizeTypes for PythonizeDefault {
    type Map = PyDict;

    type List = PyList;
}

} // verus!
