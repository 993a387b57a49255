//! Conversion of structured values into Python objects.

pub mod error;
pub mod laws;
pub mod model;
pub mod protocol;
pub mod python;
pub mod ser;
pub mod types;
pub mod value;

pub use crate::error::PythonizeError;
pub use crate::ser::{
    pythonize, pythonize_custom, PythonCollectionSerializer, PythonDictSerializer,
    PythonMapSerializer, PythonStructVariantSerializer, PythonTupleVariantSerializer, Pythonizer,
};
pub use crate::types::{AsPyMapping, AsPySequence, PythonizeDefault, PythonizeTypes};
pub use crate::value::Value;
