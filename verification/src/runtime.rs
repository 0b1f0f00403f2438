//! The object runtime: a table of reference-counted heap objects and one
//! pending-error slot.
//!
//! Objects live at addresses `1..=capacity`; address `0` is the null address
//! and never holds an object. A call that hands out an address reports
//! failure by handing out null and leaving the reason in the pending-error
//! slot. The slot holds at most one raised condition; reading it empties it.
//!
//! [`State`] is the mathematical picture of a runtime, and the contracts of
//! [`Runtime`] and of everything built on it are written over that picture.

use vstd::prelude::*;
use vstd::slice::slice_to_vec;
use crate::object::{DecodeFailure, Value, ValueView};
use crate::python::Python;
use crate::typeob::{ExcType, PyType};

verus! {

/// A heap object as the contracts see it.
pub struct ObjectView {
    /// How many claims are held on the object. At least one while it lives.
    pub refcnt: nat,
    /// What the object holds.
    pub value: ValueView,
}

/// A raised condition as the contracts see it: its type and, where it has
/// one, the value that goes with it.
pub type RaisedView = (PyType, Option<ValueView>);

/// A raised condition: its type and, where it has one, the value that goes
/// with it.
pub type Raised = (PyType, Option<Value>);

/// The value of an optional payload.
pub open spec fn payload_view(value: Option<Value>) -> Option<ValueView> {
    match value {
        Some(v) => Some(v@),
        None => None,
    }
}

/// The value of what the pending-error slot holds.
pub open spec fn raised_view(raised: Option<Raised>) -> Option<RaisedView> {
    match raised {
        Some((ty, value)) => Some((ty, payload_view(value))),
        None => None,
    }
}

/// The mathematical picture of a runtime.
pub struct State {
    /// The number of the interpreter.
    pub interp: u64,
    /// The highest address an object can live at.
    pub capacity: nat,
    /// The live objects, by address.
    pub objects: Map<usize, ObjectView>,
    /// The pending-error slot.
    pub pending: Option<RaisedView>,
}

impl State {
    /// Every live object sits at an address of the table and has at least
    /// one claim on it.
    pub open spec fn wf(self) -> bool {
        &&& self.capacity <= usize::MAX
        &&& forall|a: usize| #[trigger]
            self.objects.contains_key(a) ==> 1 <= a <= self.capacity && self.objects[a].refcnt
                >= 1
    }

    /// Whether `py` is a token of this interpreter.
    pub open spec fn admits(self, py: Python) -> bool {
        py.interp() == self.interp
    }

    /// Whether an object lives at `a`.
    pub open spec fn live(self, a: usize) -> bool {
        self.objects.contains_key(a)
    }

    /// The reference count at `a`: that of the object living there, zero
    /// where none does.
    pub open spec fn count(self, a: usize) -> nat {
        if self.live(a) {
            self.objects[a].refcnt
        } else {
            0
        }
    }

    /// What the object at `a` holds.
    pub open spec fn value(self, a: usize) -> ValueView {
        self.objects[a].value
    }

    /// Whether an object lives at `a` and its dynamic type is `ty` or a
    /// subtype of it.
    pub open spec fn instance_of(self, a: usize, ty: PyType) -> bool {
        self.live(a) && self.value(a).py_type().is_subtype_spec(ty)
    }

    /// Whether every address of the table is taken.
    pub open spec fn full(self) -> bool {
        forall|a: usize| 1 <= a <= self.capacity ==> #[trigger] self.live(a)
    }

    /// Whether `a` is the lowest free address of the table: the address the
    /// next allocation takes.
    pub open spec fn first_free(self, a: usize) -> bool {
        &&& 1 <= a <= self.capacity
        &&& !self.live(a)
        &&& forall|b: usize| 1 <= b < a ==> #[trigger] self.live(b)
    }

    /// The state after a new object holding `value` has been put at `a`, with
    /// one claim on it.
    pub open spec fn with_object(self, a: usize, value: ValueView) -> State {
        State { objects: self.objects.insert(a, ObjectView { refcnt: 1, value }), ..self }
    }

    /// Whether an allocation of `value` in this state hands out `ptr` and
    /// leaves `after`.
    ///
    /// Where there is room, `ptr` is the lowest free address and the new
    /// object is all that changes. Where the table is full, `ptr` is null
    /// and `MemoryError` is raised.
    pub open spec fn allocation(self, value: ValueView, ptr: usize, after: State) -> bool {
        if self.full() {
            ptr == 0 && after == self.raise(memory_error(), None)
        } else {
            self.first_free(ptr) && after == self.with_object(ptr, value)
        }
    }

    /// The state after one more claim has been taken on the object at `a`.
    pub open spec fn incref(self, a: usize) -> State {
        State {
            objects: self.objects.insert(
                a,
                ObjectView { refcnt: self.objects[a].refcnt + 1, value: self.objects[a].value },
            ),
            ..self
        }
    }

    /// The state after one claim on the object at `a` has been given up. The
    /// object dies with its last claim.
    pub open spec fn decref(self, a: usize) -> State {
        if self.objects[a].refcnt <= 1 {
            State { objects: self.objects.remove(a), ..self }
        } else {
            State {
                objects: self.objects.insert(
                    a,
                    ObjectView {
                        refcnt: (self.objects[a].refcnt - 1) as nat,
                        value: self.objects[a].value,
                    },
                ),
                ..self
            }
        }
    }

    /// Whether `other` differs from this state at most in the object at `a`:
    /// the same objects live everywhere else, with the same counts and
    /// values, and the interpreter, the capacity and the pending-error slot
    /// are the same.
    pub open spec fn same_but_at(self, other: State, a: usize) -> bool {
        &&& other.interp == self.interp
        &&& other.capacity == self.capacity
        &&& other.pending == self.pending
        &&& forall|q: usize| q != a ==> #[trigger] other.live(q) == self.live(q)
        &&& forall|q: usize| q != a ==> #[trigger] other.objects[q] == self.objects[q]
    }

    /// The state after a condition has been raised: it replaces whatever the
    /// slot held.
    pub open spec fn raise(self, ty: PyType, value: Option<ValueView>) -> State {
        State { pending: Some((ty, value)), ..self }
    }

    /// The state after the pending-error slot has been emptied.
    pub open spec fn clear_error(self) -> State {
        State { pending: None, ..self }
    }
}

/// The type object of the condition raised when an allocation finds the
/// table full.
pub open spec fn memory_error() -> PyType {
    PyType::Exc(ExcType::MemoryError)
}

/// The runtime.
///
/// The object at address `a` is kept at index `a - 1` of two parallel
/// tables: its reference count, which is zero exactly where no object
/// lives, and its value.
pub struct Runtime {
    interp: u64,
    capacity: usize,
    refcnts: Vec<usize>,
    values: Vec<Value>,
    pending: Option<Raised>,
}

impl View for Runtime {
    type V = State;

    closed spec fn view(&self) -> State {
        State {
            interp: self.interp,
            capacity: self.capacity as nat,
            objects: Map::new(
                |a: usize| 1 <= a <= self.refcnts@.len() && self.refcnts@[a - 1] > 0,
                |a: usize|
                    ObjectView {
                        refcnt: self.refcnts@[a - 1] as nat,
                        value: self.values@[a - 1]@,
                    },
            ),
            pending: raised_view(self.pending),
        }
    }
}

impl Runtime {
    /// The two tables run in step and stay within the capacity.
    pub closed spec fn inv(&self) -> bool {
        &&& self.refcnts@.len() == self.values@.len()
        &&& self.refcnts@.len() <= self.capacity
    }

    /// The runtime is consistent, and so is its picture.
    pub open spec fn wf(&self) -> bool {
        self.inv() && self@.wf()
    }

    /// A runtime for interpreter number `interp` with room for `capacity`
    /// objects, no object and no pending error.
    pub fn new(interp: u64, capacity: usize) -> (rt: Runtime)
        ensures
            rt.wf(),
            rt@ == (State {
                interp,
                capacity: capacity as nat,
                objects: Map::empty(),
                pending: None,
            }),
            capacity > 0 ==> rt@.first_free(1),
            capacity == 0 ==> rt@.full(),
    {
        let rt = Runtime {
            interp,
            capacity,
            refcnts: Vec::new(),
            values: Vec::new(),
            pending: None,
        };
        assert(rt@.objects =~= Map::empty());
        rt
    }

    /// Hands out a token of this interpreter.
    pub fn python(&self) -> (py: Python)
        ensures
            self@.admits(py),
    {
        Python::for_interp(self.interp)
    }

    /// The highest address an object can live at.
    pub fn capacity(&self) -> (n: usize)
        ensures
            n == self@.capacity,
    {
        self.capacity
    }

    /// Whether an object lives at `ptr`.
    pub fn is_live(&self, ptr: usize) -> (b: bool)
        ensures
            b == self@.live(ptr),
    {
        ptr >= 1 && ptr <= self.refcnts.len() && self.refcnts[ptr - 1] > 0
    }

    /// The reference count at `ptr`; zero where no object lives.
    pub fn refcount(&self, ptr: usize) -> (n: usize)
        ensures
            n == self@.count(ptr),
    {
        if ptr >= 1 && ptr <= self.refcnts.len() {
            self.refcnts[ptr - 1]
        } else {
            0
        }
    }

    /// What the object at `ptr` holds; `None` where no object lives.
    pub fn value(&self, ptr: usize) -> (v: Option<&Value>)
        requires
            self.wf(),
        ensures
            self@.live(ptr) <==> v is Some,
            v matches Some(x) ==> x@ == self@.value(ptr),
    {
        if self.is_live(ptr) {
            Some(&self.values[ptr - 1])
        } else {
            None
        }
    }

    /// The dynamic type check: whether an object lives at `ptr` and is an
    /// instance of `ty`.
    pub fn type_check(&self, ptr: usize, ty: PyType) -> (b: bool)
        requires
            self.wf(),
        ensures
            b == self@.instance_of(ptr, ty),
    {
        if self.is_live(ptr) {
            self.values[ptr - 1].py_type().is_subtype(ty)
        } else {
            false
        }
    }

    /// Whether a condition is pending.
    pub fn err_occurred(&self) -> (b: bool)
        ensures
            b == (self@.pending is Some),
    {
        self.pending.is_some()
    }

    /// The index of the first free slot of the tables, or their length where
    /// every slot is taken.
    fn first_vacant(&self) -> (i: usize)
        requires
            self.inv(),
        ensures
            i <= self.refcnts@.len(),
            forall|j: int| 0 <= j < i ==> self.refcnts@[j] > 0,
            i < self.refcnts@.len() ==> self.refcnts@[i as int] == 0,
    {
        let mut i: usize = 0;
        while i < self.refcnts.len()
            invariant
                i <= self.refcnts@.len(),
                forall|j: int| 0 <= j < i ==> self.refcnts@[j] > 0,
            decreases self.refcnts@.len() - i,
        {
            if self.refcnts[i] == 0 {
                return i;
            }
            i += 1;
        }
        i
    }

    /// Allocates an object holding `value`, with one claim on it, at the
    /// lowest free address, and returns that address.
    ///
    /// Where the table is full nothing is allocated: the call raises
    /// `MemoryError` and returns null.
    pub fn allocate(&mut self, value: Value) -> (ptr: usize)
        requires
            old(self).wf(),
        ensures
            final(self).wf(),
            old(self)@.allocation(value@, ptr, final(self)@),
    {
        let i = self.first_vacant();
        let ghost before = self@;
        let ghost payload = value@;
        if i < self.refcnts.len() {
            self.refcnts.set(i, 1);
            self.values.set(i, value);
            let ptr = i + 1;
            proof {
                assert(!before.live(ptr));
                assert forall|b: usize| 1 <= b < ptr implies #[trigger] before.live(b) by {
                    assert(old(self).refcnts@[b - 1] > 0);
                }
                assert(self@.objects =~= before.with_object(ptr, payload).objects);
            }
            ptr
        } else if i < self.capacity {
            self.refcnts.push(1);
            self.values.push(value);
            let ptr = i + 1;
            proof {
                assert(!before.live(ptr));
                assert forall|b: usize| 1 <= b < ptr implies #[trigger] before.live(b) by {
                    assert(old(self).refcnts@[b - 1] > 0);
                }
                assert(self@.objects =~= before.with_object(ptr, payload).objects);
            }
            ptr
        } else {
            self.pending = Some((ExcType::MemoryError.type_object(), None));
            proof {
                assert forall|a: usize| 1 <= a <= before.capacity implies #[trigger] before.live(
                    a,
                ) by {
                    assert(old(self).refcnts@[a - 1] > 0);
                }
                assert(self@.objects =~= before.objects);
            }
            0
        }
    }

    /// Takes one more claim on the object at `ptr`.
    pub fn incref(&mut self, ptr: usize)
        requires
            old(self).wf(),
            old(self)@.live(ptr),
            old(self)@.count(ptr) < usize::MAX,
        ensures
            final(self).wf(),
            final(self)@ == old(self)@.incref(ptr),
    {
        let i = ptr - 1;
        let n = self.refcnts[i];
        self.refcnts.set(i, n + 1);
        proof {
            assert(self@.objects =~= old(self)@.incref(ptr).objects);
        }
    }

    /// Gives up one claim on the object at `ptr`. With its last claim the
    /// object dies and its address becomes free.
    pub fn decref(&mut self, ptr: usize)
        requires
            old(self).wf(),
            old(self)@.live(ptr),
        ensures
            final(self).wf(),
            final(self)@ == old(self)@.decref(ptr),
    {
        let i = ptr - 1;
        let n = self.refcnts[i];
        self.refcnts.set(i, n - 1);
        if n == 1 {
            self.values.set(i, Value::Plain);
        }
        proof {
            assert(self@.objects =~= old(self)@.decref(ptr).objects);
        }
    }

    /// Reads the pending-error slot and empties it.
    pub fn fetch_error(&mut self) -> (raised: Option<Raised>)
        requires
            old(self).wf(),
        ensures
            final(self).wf(),
            raised_view(raised) == old(self)@.pending,
            final(self)@ == old(self)@.clear_error(),
    {
        let raised = self.pending.take();
        proof {
            assert(self@.objects =~= old(self)@.objects);
        }
        raised
    }

    /// Raises a condition of type `ty` with `value`: puts it in the
    /// pending-error slot, in place of whatever the slot held.
    pub fn set_error(&mut self, ty: PyType, value: Option<Value>)
        requires
            old(self).wf(),
        ensures
            final(self).wf(),
            final(self)@ == old(self)@.raise(ty, payload_view(value)),
    {
        self.pending = Some((ty, value));
        proof {
            assert(self@.objects =~= old(self)@.objects);
        }
    }

    /// Allocates a text object holding the debug representation of the
    /// object at `ptr` and returns its address, or raises `MemoryError` and
    /// returns null where the table is full.
    pub fn represent(&mut self, ptr: usize) -> (text: usize)
        requires
            old(self).wf(),
            old(self)@.live(ptr),
        ensures
            final(self).wf(),
            old(self)@.allocation(
                ValueView::Text(old(self)@.value(ptr).repr_bytes()),
                text,
                final(self)@,
            ),
    {
        let bytes = self.values[ptr - 1].repr_bytes();
        self.allocate(Value::Text(bytes))
    }

    /// Allocates a text object holding the text that the object at `ptr`
    /// reads as and returns its address, or raises `MemoryError` and returns
    /// null where the table is full.
    pub fn stringify(&mut self, ptr: usize) -> (text: usize)
        requires
            old(self).wf(),
            old(self)@.live(ptr),
        ensures
            final(self).wf(),
            old(self)@.allocation(
                ValueView::Text(old(self)@.value(ptr).str_bytes()),
                text,
                final(self)@,
            ),
    {
        let bytes = self.values[ptr - 1].str_bytes();
        self.allocate(Value::Text(bytes))
    }

    /// Allocates a decoding-error object and returns its address, or raises
    /// `MemoryError` and returns null where the table is full.
    ///
    /// The object records that the codec `encoding` failed on `object` at the
    /// bytes from `start` up to, not including, `end`, for `reason`.
    pub fn decode_error_create(
        &mut self,
        encoding: &str,
        object: &[u8],
        start: usize,
        end: usize,
        reason: &str,
    ) -> (ptr: usize)
        requires
            old(self).wf(),
        ensures
            final(self).wf(),
            old(self)@.allocation(
                ValueView::decode_error(encoding@, object@, start, end, reason@),
                ptr,
                final(self)@,
            ),
    {
        let failure = DecodeFailure {
            encoding: encoding.to_owned(),
            object: slice_to_vec(object),
            start,
            end,
            reason: reason.to_owned(),
        };
        self.allocate(Value::DecodeError(failure))
    }
}

} // verus!
