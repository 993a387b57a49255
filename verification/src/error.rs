//! The error of a conversion.

use pyo3::PyErr;
use vstd::prelude::*;

verus! {

/// Why a conversion stopped.
#[derive(Debug)]
pub enum PythonizeError {
    /// Python rejected an allocation or an item assignment; the cause is inside.
    AdapterFailure(PyErr),
    /// A compound serializer was called out of order: a value without a
    /// pending key, or a key while another key is pending.
    ProtocolViolation,
}

/// What a conversion step reports for the outcome of a call into Python:
/// success stays success, and a Python error becomes an adapter failure that
/// carries it.
pub fn adapter_outcome(outcome: Result<(), PyErr>) -> (r: Result<(), PythonizeError>)
    ensures
        r is Ok <==> outcome is Ok,
        outcome matches Err(e) ==> r == Err::<(), PythonizeError>(PythonizeError::AdapterFailure(e)),
{
    match outcome {
        Ok(()) => Ok(()),
        Err(e) => Err(PythonizeError::AdapterFailure(e)),
    }
}

} // verus!
