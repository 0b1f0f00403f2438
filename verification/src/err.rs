//! Error values, and how a failed runtime call becomes one.
//!
//! A runtime call can fail in two ways that must be kept apart. It can hand
//! out null, which means that it raised a condition and left it in the
//! pending-error slot: [`PyErr::fetch`] turns the slot into a [`PyErr`] and
//! empties it. Or an object can turn out not to be of the expected type,
//! which the runtime knows nothing about: that gives a [`PyDowncastError`]
//! and leaves the slot alone.

use vstd::prelude::*;
use vstd::std_specs::convert::FromSpecImpl;
use crate::object::{Value, ValueView};
use crate::python::Python;
use crate::runtime::{RaisedView, Runtime};
use crate::typeob::{ExcType, PyType};

verus! {

/// A condition raised by the runtime: its type and, where it has one, the
/// value that goes with it.
#[derive(Debug, PartialEq, Eq)]
pub struct PyErr {
    /// The type of the condition.
    pub ptype: PyType,
    /// The value that was raised with it.
    pub pvalue: Option<Value>,
}

/// The mathematical value of a [`PyErr`].
pub struct PyErrView {
    pub ptype: PyType,
    pub pvalue: Option<ValueView>,
}

impl View for PyErr {
    type V = PyErrView;

    open spec fn view(&self) -> PyErrView {
        PyErrView { ptype: self.ptype, pvalue: crate::runtime::payload_view(self.pvalue) }
    }
}

/// The result of a call that can fail with a raised condition.
pub type PyResult<T> = Result<T, PyErr>;

/// The error that the content of the pending-error slot stands for.
///
/// A pending condition gives an error of its type and value. An empty slot,
/// seen where a call reported failure, gives a plain `RuntimeError`: the call
/// broke the convention, and no other error is made up for it.
pub open spec fn raised_error(pending: Option<RaisedView>) -> PyErrView {
    match pending {
        Some((ptype, pvalue)) => PyErrView { ptype, pvalue },
        None => PyErrView { ptype: PyType::Exc(ExcType::RuntimeError), pvalue: None },
    }
}

/// The error that reports a failed allocation.
pub open spec fn out_of_memory() -> PyErrView {
    PyErrView { ptype: PyType::Exc(ExcType::MemoryError), pvalue: None }
}

/// The error that a failed downcast turns into: a `TypeError` without a
/// value.
pub open spec fn wrong_type() -> PyErrView {
    PyErrView { ptype: PyType::Exc(ExcType::TypeError), pvalue: None }
}

impl PyErr {
    /// Takes the pending condition out of the runtime: reads the
    /// pending-error slot, empties it, and returns what it held as an error
    /// value.
    pub fn fetch(rt: &mut Runtime, py: Python) -> (e: PyErr)
        requires
            old(rt).wf(),
            old(rt)@.admits(py),
        ensures
            final(rt).wf(),
            e@ == raised_error(old(rt)@.pending),
            final(rt)@ == old(rt)@.clear_error(),
    {
        match rt.fetch_error() {
            Some((ptype, pvalue)) => PyErr { ptype, pvalue },
            None => PyErr { ptype: ExcType::RuntimeError.type_object(), pvalue: None },
        }
    }
}

/// The failure of a typed cast: the object is not an instance of the
/// expected type.
#[derive(Clone, Copy, Debug, PartialEq, Eq, Structural)]
pub struct PyDowncastError(
    /// The token the cast was made under.
    pub Python,
    /// The type that was expected, for diagnostics.
    pub Option<PyType>,
);

impl From<PyDowncastError> for PyErr {
    /// Lifts a failed downcast into the channel of raised conditions.
    fn from(e: PyDowncastError) -> (err: PyErr) {
        PyErr { ptype: PyType::Exc(ExcType::TypeError), pvalue: None }
    }
}

impl FromSpecImpl<PyDowncastError> for PyErr {
    open spec fn obeys_from_spec() -> bool {
        true
    }

    open spec fn from_spec(e: PyDowncastError) -> PyErr {
        PyErr { ptype: PyType::Exc(ExcType::TypeError), pvalue: None }
    }
}

/// The failure of a text rendering. It says no more than that the rendering
/// failed: a rendering has no way to hand a raised condition on.
#[derive(Clone, Copy, Debug, PartialEq, Eq, Structural)]
pub struct FormatError;

} // verus!
