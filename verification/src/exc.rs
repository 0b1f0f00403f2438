//! The two built-in exception classes that are raised through an operation
//! of their own rather than by type and value alone.

use std::ops::Range;
use vstd::prelude::*;
use crate::err::PyResult;
use crate::pointer::{creation, pyptr};
use crate::python::Python;
use crate::object::ValueView;
use crate::runtime::Runtime;
use crate::typeob::{ExcType, PyType};

verus! {

/// The marker of the `UnicodeDecodeError` class.
#[derive(Clone, Copy, Debug, PartialEq, Eq, Structural)]
pub struct UnicodeDecodeError;

impl UnicodeDecodeError {
    /// The type object of the class.
    pub fn type_object() -> (t: PyType)
        ensures
            t == PyType::Exc(ExcType::UnicodeDecodeError),
    {
        ExcType::UnicodeDecodeError.type_object()
    }

    /// Makes a decoding-error object: the codec `encoding` failed on `input`
    /// at the bytes of `range`, for `reason`.
    ///
    /// Returns a handle that holds the one claim on the new object. Fails
    /// with the `MemoryError` that the runtime raises where it has no room;
    /// the pending-error slot is empty afterwards.
    pub fn new(
        rt: &mut Runtime,
        py: Python,
        encoding: &str,
        input: &[u8],
        range: Range<usize>,
        reason: &str,
    ) -> (r: PyResult<pyptr>)
        requires
            old(rt).wf(),
            old(rt)@.admits(py),
        ensures
            final(rt).wf(),
            creation(
                old(rt)@,
                py,
                ValueView::decode_error(encoding@, input@, range.start, range.end, reason@),
                r,
                final(rt)@,
            ),
    {
        let ptr = rt.decode_error_create(encoding, input, range.start, range.end, reason);
        pyptr::from_owned_ptr_or_err(rt, py, ptr)
    }

    /// Makes a decoding-error object for a failed UTF-8 decoding of `input`,
    /// of which only the length `valid_up_to` of the valid prefix is known.
    ///
    /// The error names the single byte at `valid_up_to` as bad, whatever the
    /// length of `input` and however many bytes the bad sequence had, and
    /// gives the fixed reason `invalid utf-8`.
    pub fn new_utf8(rt: &mut Runtime, py: Python, input: &[u8], valid_up_to: usize) -> (r: PyResult<
        pyptr,
    >)
        requires
            old(rt).wf(),
            old(rt)@.admits(py),
            valid_up_to < usize::MAX,
        ensures
            final(rt).wf(),
            creation(
                old(rt)@,
                py,
                ValueView::decode_error(
                    "utf-8"@,
                    input@,
                    valid_up_to,
                    (valid_up_to + 1) as usize,
                    "invalid utf-8"@,
                ),
                r,
                final(rt)@,
            ),
    {
        let pos = valid_up_to;
        UnicodeDecodeError::new(rt, py, "utf-8", input, pos..pos + 1, "invalid utf-8")
    }
}

/// The marker of the `StopIteration` class.
#[derive(Clone, Copy, Debug, PartialEq, Eq, Structural)]
pub struct StopIteration;

impl StopIteration {
    /// The type object of the class.
    pub fn type_object() -> (t: PyType)
        ensures
            t == PyType::Exc(ExcType::StopIteration),
    {
        ExcType::StopIteration.type_object()
    }

    /// Signals that an iteration is exhausted: raises `StopIteration` with
    /// the values of the tuple `args`.
    ///
    /// Nothing is allocated and nothing is returned. The condition replaces
    /// whatever was pending, and the claim that `args` held is given up.
    pub fn stop_iteration(rt: &mut Runtime, args: pyptr)
        requires
            old(rt).wf(),
            args.valid(old(rt)@),
            old(rt)@.instance_of(args.as_ptr(), PyType::Tuple),
        ensures
            final(rt).wf(),
            final(rt)@ == old(rt)@.raise(
                PyType::Exc(ExcType::StopIteration),
                Some(old(rt)@.value(args.as_ptr())),
            ).decref(args.as_ptr()),
    {
        let values = match rt.value(args.as_ptr()) {
            Some(v) => Some(v.clone()),
            None => None,
        };
        rt.set_error(StopIteration::type_object(), values);
        args.release(rt);
    }
}

} // verus!
