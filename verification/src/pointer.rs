//! The owning handle on a heap object.
//!
//! A [`pyptr`] stands for one claim on the reference count of the object at
//! its address. Each constructor is for one provenance of an address and says
//! what it does to the count:
//!
//! | the address comes               | a null address is           | the count      |
//! |---------------------------------|-----------------------------|----------------|
//! | from [`pyptr::new`]             | an error                    | starts at one  |
//! | with a claim (`from_owned_*`)   | ruled out, an error, `None` | stays          |
//! | without one (`from_borrowed_*`) | ruled out, `None`           | goes up by one |
//!
//! The `cast_*` constructors check the dynamic type of the object first.
//! [`pyptr::release`] gives the claim up; [`pyptr::into_ptr`] hands it back to
//! the caller. A handle cannot be copied, so its claim is given up at most
//! once.

use vstd::prelude::*;
use vstd::slice::slice_to_vec;
use crate::err::{out_of_memory, raised_error, wrong_type};
use crate::err::{FormatError, PyDowncastError, PyErr, PyResult};
use crate::object::{Value, ValueView};
use crate::python::Python;
use crate::runtime::{Runtime, State};
use crate::text::{decode_lossy, is_lossy_decoding};
use crate::typeob::PyType;

verus! {

/// An owned reference to a heap object: a token and the address of the
/// object.
#[allow(non_camel_case_types)]
#[derive(Debug)]
pub struct pyptr {
    py: Python,
    ptr: usize,
}

/// Whether `r` and `after` are what comes of making a new object that holds
/// `value`, under the token `py`, in the state `before`.
///
/// Where there is room, `r` is a handle on the new object, which sits at the
/// lowest free address with a count of one. Where the table is full, `r` is
/// the `MemoryError` that the runtime raised, and the pending-error slot is
/// empty again.
pub open spec fn creation(
    before: State,
    py: Python,
    value: ValueView,
    r: PyResult<pyptr>,
    after: State,
) -> bool {
    if before.full() {
        r matches Err(e) && e@ == out_of_memory() && after == before.clear_error()
    } else {
        r matches Ok(p) && p.token() == py && before.first_free(p.as_ptr()) && after
            == before.with_object(p.as_ptr(), value)
    }
}

/// Whether `r` and `after` are what comes of rendering an object as `bytes`
/// in the state `before`.
///
/// Where there is room for the text object that the runtime renders into,
/// `r` holds the bytes and the runtime is as it was. Where the table is
/// full, the rendering fails and the pending-error slot is empty.
pub open spec fn rendering(
    before: State,
    bytes: Seq<u8>,
    r: Result<Vec<u8>, FormatError>,
    after: State,
) -> bool {
    if before.full() {
        r is Err && after == before.clear_error()
    } else {
        r matches Ok(b) && b@ == bytes && after == before
    }
}

/// Whether `r` and `after` are what comes of rendering an object, whose text
/// has the encoding `bytes`, as host text in the state `before`.
pub open spec fn rendering_as_text(
    before: State,
    bytes: Seq<u8>,
    r: Result<String, FormatError>,
    after: State,
) -> bool {
    if before.full() {
        r is Err && after == before.clear_error()
    } else {
        r matches Ok(s) && is_lossy_decoding(s@, bytes) && after == before
    }
}

impl pyptr {
    /// A handle never wraps the null address.
    #[verifier::type_invariant]
    spec fn not_null(&self) -> bool {
        self.ptr != 0
    }

    /// The token the handle was made under.
    pub closed spec fn token_spec(&self) -> Python {
        self.py
    }

    /// The address of the object the handle refers to.
    pub closed spec fn as_ptr_spec(&self) -> usize {
        self.ptr
    }

    /// The handle is good for use with a runtime in state `s`: its token is
    /// one of that interpreter, and its object is alive there.
    pub open spec fn valid(&self, s: State) -> bool {
        s.admits(self.token()) && s.live(self.as_ptr())
    }

    /// Moves `value` into a new heap object and returns a handle on it. The
    /// object starts with a count of one, and the handle holds that claim.
    ///
    /// Fails with the `MemoryError` that the runtime raises where it has no
    /// room; the pending-error slot is empty afterwards.
    pub fn new(rt: &mut Runtime, py: Python, value: Value) -> (r: PyResult<pyptr>)
        requires
            old(rt).wf(),
            old(rt)@.admits(py),
        ensures
            final(rt).wf(),
            creation(old(rt)@, py, value@, r, final(rt)@),
    {
        let ptr = rt.allocate(value);
        if ptr == 0 {
            Err(PyErr::fetch(rt, py))
        } else {
            Ok(pyptr { py, ptr })
        }
    }

    /// Wraps an address that comes with a claim. The claim moves into the
    /// handle: the count is not touched.
    ///
    /// The address must be that of a live object, which rules out null.
    pub fn from_owned_ptr(rt: &Runtime, py: Python, ptr: usize) -> (p: pyptr)
        requires
            rt.wf(),
            rt@.admits(py),
            rt@.live(ptr),
        ensures
            p.as_ptr() == ptr,
            p.token() == py,
            p.valid(rt@),
    {
        pyptr { py, ptr }
    }

    /// Wraps an address that comes with a claim, for callers that have no
    /// way to report a null address and so must rule it out.
    pub fn from_owned_ptr_or_panic(rt: &Runtime, py: Python, ptr: usize) -> (p: pyptr)
        requires
            rt.wf(),
            rt@.admits(py),
            rt@.live(ptr),
        ensures
            p.as_ptr() == ptr,
            p.token() == py,
            p.valid(rt@),
    {
        pyptr::from_owned_ptr(rt, py, ptr)
    }

    /// Wraps the result of a runtime call that returns an address with a
    /// claim, or null after raising a condition.
    ///
    /// A null address gives the pending condition as an error and leaves the
    /// pending-error slot empty. Any other address is wrapped as it is, and
    /// the runtime is not touched.
    pub fn from_owned_ptr_or_err(rt: &mut Runtime, py: Python, ptr: usize) -> (r: PyResult<pyptr>)
        requires
            old(rt).wf(),
            old(rt)@.admits(py),
            ptr != 0 ==> old(rt)@.live(ptr),
        ensures
            final(rt).wf(),
            ptr == 0 ==> (r matches Err(e) && e@ == raised_error(old(rt)@.pending)),
            ptr == 0 ==> final(rt)@ == old(rt)@.clear_error(),
            ptr != 0 ==> (r matches Ok(p) && p.as_ptr() == ptr && p.token() == py),
            ptr != 0 ==> final(rt)@ == old(rt)@,
    {
        if ptr == 0 {
            Err(PyErr::fetch(rt, py))
        } else {
            Ok(pyptr::from_owned_ptr(rt, py, ptr))
        }
    }

    /// Wraps an address that comes with a claim; a null address gives `None`.
    /// The runtime is only looked at.
    pub fn from_owned_ptr_or_opt(rt: &Runtime, py: Python, ptr: usize) -> (r: Option<pyptr>)
        requires
            rt.wf(),
            rt@.admits(py),
            ptr != 0 ==> rt@.live(ptr),
        ensures
            ptr == 0 ==> r is None,
            ptr != 0 ==> (r matches Some(p) && p.as_ptr() == ptr && p.token() == py),
    {
        if ptr == 0 {
            None
        } else {
            Some(pyptr::from_owned_ptr(rt, py, ptr))
        }
    }

    /// Wraps an address that comes without a claim: takes a claim of its own
    /// on the object, so the count goes up by one.
    ///
    /// The address must be that of a live object, which rules out null.
    pub fn from_borrowed_ptr(rt: &mut Runtime, py: Python, ptr: usize) -> (p: pyptr)
        requires
            old(rt).wf(),
            old(rt)@.admits(py),
            old(rt)@.live(ptr),
            old(rt)@.count(ptr) < usize::MAX,
        ensures
            final(rt).wf(),
            final(rt)@ == old(rt)@.incref(ptr),
            p.as_ptr() == ptr,
            p.token() == py,
    {
        rt.incref(ptr);
        pyptr { py, ptr }
    }

    /// Wraps an address that comes without a claim; a null address gives
    /// `None` and leaves the runtime as it is.
    pub fn from_borrowed_ptr_or_opt(rt: &mut Runtime, py: Python, ptr: usize) -> (r: Option<pyptr>)
        requires
            old(rt).wf(),
            old(rt)@.admits(py),
            ptr != 0 ==> old(rt)@.live(ptr) && old(rt)@.count(ptr) < usize::MAX,
        ensures
            final(rt).wf(),
            ptr == 0 ==> r is None && final(rt)@ == old(rt)@,
            ptr != 0 ==> (r matches Some(p) && p.as_ptr() == ptr && p.token() == py),
            ptr != 0 ==> final(rt)@ == old(rt)@.incref(ptr),
    {
        if ptr == 0 {
            None
        } else {
            rt.incref(ptr);
            Some(pyptr { py, ptr })
        }
    }

    /// The current reference count of the object; zero where it is no longer
    /// alive. For diagnostics only: others may hold claims on the same
    /// object.
    pub fn get_refcnt(&self, rt: &Runtime) -> (n: usize)
        ensures
            n == rt@.count(self.as_ptr()),
    {
        rt.refcount(self.ptr)
    }

    /// The token the handle was made under.
    #[verifier::when_used_as_spec(token_spec)]
    pub fn token(&self) -> (py: Python)
        ensures
            py == self.token_spec(),
    {
        self.py
    }

    /// The address of the object, lent out: the handle keeps its claim.
    /// It is never null.
    #[verifier::when_used_as_spec(as_ptr_spec)]
    pub fn as_ptr(&self) -> (ptr: usize)
        ensures
            ptr == self.as_ptr_spec(),
            ptr != 0,
    {
        proof {
            use_type_invariant(self);
        }
        self.ptr
    }

    /// The address of the object, handed over together with the claim: the
    /// handle is gone and nothing is released.
    #[must_use]
    pub fn into_ptr(self) -> (ptr: usize)
        ensures
            ptr == self.as_ptr(),
            ptr != 0,
    {
        proof {
            use_type_invariant(&self);
        }
        self.ptr
    }

    /// Ends the handle's life: gives up its claim, so the count goes down by
    /// one, and the object dies if that was the last claim on it.
    pub fn release(self, rt: &mut Runtime)
        requires
            old(rt).wf(),
            self.valid(old(rt)@),
        ensures
            final(rt).wf(),
            final(rt)@ == old(rt)@.decref(self.as_ptr()),
    {
        rt.decref(self.ptr);
    }

    /// Wraps an address that comes with a claim if the object is an instance
    /// of `ty`. If it is not, the claim stays with the caller. The
    /// pending-error slot is not consulted either way.
    pub fn cast_from_owned_ptr(rt: &Runtime, py: Python, ptr: usize, ty: PyType) -> (r: Result<
        pyptr,
        PyDowncastError,
    >)
        requires
            rt.wf(),
            rt@.admits(py),
            rt@.live(ptr),
        ensures
            rt@.instance_of(ptr, ty) ==> (r matches Ok(p) && p.as_ptr() == ptr && p.token() == py),
            !rt@.instance_of(ptr, ty) ==> (r matches Err(e) && e == PyDowncastError(py, Some(ty))),
    {
        if rt.type_check(ptr, ty) {
            Ok(pyptr::from_owned_ptr(rt, py, ptr))
        } else {
            Err(PyDowncastError(py, Some(ty)))
        }
    }

    /// Wraps an address that comes without a claim if the object is an
    /// instance of `ty`, taking a claim on it. If it is not, no claim is
    /// taken and the runtime is left as it is.
    pub fn cast_from_borrowed_ptr(rt: &mut Runtime, py: Python, ptr: usize, ty: PyType) -> (r:
        Result<pyptr, PyDowncastError>)
        requires
            old(rt).wf(),
            old(rt)@.admits(py),
            old(rt)@.live(ptr),
            old(rt)@.instance_of(ptr, ty) ==> old(rt)@.count(ptr) < usize::MAX,
        ensures
            final(rt).wf(),
            old(rt)@.instance_of(ptr, ty) ==> (r matches Ok(p) && p.as_ptr() == ptr && p.token()
                == py),
            old(rt)@.instance_of(ptr, ty) ==> final(rt)@ == old(rt)@.incref(ptr),
            !old(rt)@.instance_of(ptr, ty) ==> (r matches Err(e) && e == PyDowncastError(
                py,
                Some(ty),
            )),
            !old(rt)@.instance_of(ptr, ty) ==> final(rt)@ == old(rt)@,
    {
        if rt.type_check(ptr, ty) {
            Ok(pyptr::from_borrowed_ptr(rt, py, ptr))
        } else {
            Err(PyDowncastError(py, Some(ty)))
        }
    }

    /// Wraps an address that comes with a claim and refers to an instance of
    /// `ty`, for callers that have no way to report a failure and so must
    /// rule it out.
    pub fn cast_from_owned_ptr_or_panic(rt: &Runtime, py: Python, ptr: usize, ty: PyType) -> (p:
        pyptr)
        requires
            rt.wf(),
            rt@.admits(py),
            rt@.instance_of(ptr, ty),
        ensures
            p.as_ptr() == ptr,
            p.token() == py,
            p.valid(rt@),
    {
        pyptr::from_owned_ptr(rt, py, ptr)
    }

    /// Wraps the result of a runtime call that returns an address with a
    /// claim, or null after raising a condition, if the object is an instance
    /// of `ty`.
    ///
    /// A null address gives the pending condition as an error and leaves the
    /// pending-error slot empty. An object of another type gives the
    /// `TypeError` that a failed downcast turns into, and the slot is not
    /// touched.
    pub fn cast_from_owned_ptr_or_err(rt: &mut Runtime, py: Python, ptr: usize, ty: PyType) -> (r:
        PyResult<pyptr>)
        requires
            old(rt).wf(),
            old(rt)@.admits(py),
            ptr != 0 ==> old(rt)@.live(ptr),
        ensures
            final(rt).wf(),
            ptr == 0 ==> (r matches Err(e) && e@ == raised_error(old(rt)@.pending)),
            ptr == 0 ==> final(rt)@ == old(rt)@.clear_error(),
            ptr != 0 ==> final(rt)@ == old(rt)@,
            old(rt)@.instance_of(ptr, ty) ==> (r matches Ok(p) && p.as_ptr() == ptr && p.token()
                == py),
            ptr != 0 && !old(rt)@.instance_of(ptr, ty) ==> (r matches Err(e) && e@ == wrong_type()),
    {
        if ptr == 0 {
            Err(PyErr::fetch(rt, py))
        } else {
            match pyptr::cast_from_owned_ptr(rt, py, ptr, ty) {
                Ok(p) => Ok(p),
                Err(e) => Err(PyErr::from(e)),
            }
        }
    }

    /// The bytes of the debug representation of the object.
    ///
    /// Asks the runtime to represent the object, takes the text object that
    /// comes back, copies its bytes out and lets it go again, so that on
    /// success the runtime is as it was. Where the runtime has no room for
    /// the text object the rendering fails, and the condition that the
    /// runtime raised is dropped: the pending-error slot is empty afterwards.
    pub fn repr_bytes(&self, rt: &mut Runtime) -> (r: Result<Vec<u8>, FormatError>)
        requires
            old(rt).wf(),
            self.valid(old(rt)@),
        ensures
            final(rt).wf(),
            rendering(old(rt)@, old(rt)@.value(self.as_ptr()).repr_bytes(), r, final(rt)@),
    {
        let raw = rt.represent(self.ptr);
        take_text(
            rt,
            self.py,
            raw,
            Ghost(old(rt)@),
            Ghost(old(rt)@.value(self.as_ptr()).repr_bytes()),
        )
    }

    /// The bytes of the text that the object reads as.
    ///
    /// Works as [`pyptr::repr_bytes`] does, on the runtime's stringification
    /// of the object.
    pub fn str_bytes(&self, rt: &mut Runtime) -> (r: Result<Vec<u8>, FormatError>)
        requires
            old(rt).wf(),
            self.valid(old(rt)@),
        ensures
            final(rt).wf(),
            rendering(old(rt)@, old(rt)@.value(self.as_ptr()).str_bytes(), r, final(rt)@),
    {
        let raw = rt.stringify(self.ptr);
        take_text(
            rt,
            self.py,
            raw,
            Ghost(old(rt)@),
            Ghost(old(rt)@.value(self.as_ptr()).str_bytes()),
        )
    }

    /// The debug representation of the object as host text: the bytes of
    /// [`pyptr::repr_bytes`], decoded as UTF-8 with U+FFFD in place of what
    /// is not valid.
    pub fn debug_string(&self, rt: &mut Runtime) -> (r: Result<String, FormatError>)
        requires
            old(rt).wf(),
            self.valid(old(rt)@),
        ensures
            final(rt).wf(),
            rendering_as_text(
                old(rt)@,
                old(rt)@.value(self.as_ptr()).repr_bytes(),
                r,
                final(rt)@,
            ),
    {
        match self.repr_bytes(rt) {
            Ok(bytes) => Ok(decode_lossy(bytes.as_slice())),
            Err(e) => Err(e),
        }
    }

    /// The object as host text: the bytes of [`pyptr::str_bytes`], decoded as
    /// UTF-8 with U+FFFD in place of what is not valid.
    pub fn display_string(&self, rt: &mut Runtime) -> (r: Result<String, FormatError>)
        requires
            old(rt).wf(),
            self.valid(old(rt)@),
        ensures
            final(rt).wf(),
            rendering_as_text(
                old(rt)@,
                old(rt)@.value(self.as_ptr()).str_bytes(),
                r,
                final(rt)@,
            ),
    {
        match self.str_bytes(rt) {
            Ok(bytes) => Ok(decode_lossy(bytes.as_slice())),
            Err(e) => Err(e),
        }
    }
}

/// Takes over the text object that a rendering call of the runtime handed
/// out at `raw`, copies its bytes and releases it.
///
/// `before` is the state in which the rendering call was made and `bytes`
/// what it rendered; the runtime is now in the state that the allocation of
/// the text left.
fn take_text(
    rt: &mut Runtime,
    py: Python,
    raw: usize,
    Ghost(before): Ghost<State>,
    Ghost(bytes): Ghost<Seq<u8>>,
) -> (r: Result<Vec<u8>, FormatError>)
    requires
        old(rt).wf(),
        before.wf(),
        before.admits(py),
        before.allocation(ValueView::Text(bytes), raw, old(rt)@),
    ensures
        final(rt).wf(),
        rendering(before, bytes, r, final(rt)@),
{
    match pyptr::cast_from_owned_ptr_or_err(rt, py, raw, PyType::Str) {
        Err(_) => Err(FormatError),
        Ok(text) => {
            let copied = match rt.value(text.ptr) {
                Some(Value::Text(found)) => Ok(slice_to_vec(found.as_slice())),
                _ => Err(FormatError),
            };
            text.release(rt);
            proof {
                assert(rt@.objects =~= before.objects);
            }
            copied
        },
    }
}

/// A handle is no more than its token and its address. So handing a
/// handle's claim out with [`pyptr::into_ptr`] and wrapping the address again
/// under the same token with [`pyptr::from_owned_ptr`] gives the handle back.
/// Neither step changes the runtime, so the count of the object is what it
/// was, and the second handle is valid wherever the first one was.
pub proof fn lemma_into_ptr_round_trip(first: pyptr, again: pyptr, s: State)
    requires
        again.token() == first.token(),
        again.as_ptr() == first.as_ptr(),
    ensures
        again == first,
        first.valid(s) ==> again.valid(s),
{
}

/// The address of a handle that is valid in a well-formed state is not null.
pub proof fn lemma_valid_is_not_null(p: pyptr, s: State)
    requires
        s.wf(),
        p.valid(s),
    ensures
        p.as_ptr() != 0,
{
}

} // verus!
