//! What holds of the reference counts whatever the state of the runtime.
//!
//! The contracts of the handle's operations give their effect on the runtime
//! as a step of [`State`]: taking a claim is [`State::incref`], giving one up
//! is [`State::decref`], and wrapping an address that comes with a claim, or
//! handing one back, is no step at all. The lemmas here say what those steps
//! add up to.

use vstd::prelude::*;
use crate::object::ValueView;
use crate::runtime::State;

verus! {

/// Taking a claim raises the count of that object by exactly one and changes
/// nothing else.
pub proof fn lemma_incref_adds_one(s: State, p: usize)
    requires
        s.wf(),
        s.live(p),
    ensures
        s.incref(p).wf(),
        s.incref(p).count(p) == s.count(p) + 1,
        s.incref(p).value(p) == s.value(p),
        s.same_but_at(s.incref(p), p),
{
}

/// Wrapping an address that comes with a claim and then releasing the handle
/// lowers the count of that object by exactly one: the wrapping takes
/// nothing, the release gives up one claim. An object that was down to its
/// last claim is dead afterwards; no other object and not the pending-error
/// slot is touched.
pub proof fn lemma_owned_then_release(s: State, p: usize)
    requires
        s.wf(),
        s.live(p),
    ensures
        s.decref(p).wf(),
        s.decref(p).count(p) == s.count(p) - 1,
        s.decref(p).live(p) <==> s.count(p) > 1,
        s.decref(p).live(p) ==> s.decref(p).value(p) == s.value(p),
        s.same_but_at(s.decref(p), p),
{
}

/// Wrapping an address that comes without a claim and then releasing the
/// handle leaves the runtime exactly as it was: one claim taken, one given
/// up.
pub proof fn lemma_borrowed_then_release(s: State, p: usize)
    requires
        s.wf(),
        s.live(p),
    ensures
        s.incref(p).live(p),
        s.incref(p).decref(p) == s,
{
    assert(s.incref(p).decref(p).objects =~= s.objects);
}

/// A new object has a count of one. A second handle made from its address
/// without a claim brings the count to two; releasing that handle brings it
/// back to one; releasing the first frees the object, and the runtime is as
/// it was before the object was made.
pub proof fn lemma_count_through_a_life(s: State, p: usize, value: ValueView)
    requires
        s.wf(),
        s.first_free(p),
    ensures
        ({
            let born = s.with_object(p, value);
            let shared = born.incref(p);
            let alone = shared.decref(p);
            let gone = alone.decref(p);
            &&& born.wf() && born.count(p) == 1
            &&& shared.count(p) == 2
            &&& alone == born
            &&& gone.count(p) == 0 && !gone.live(p)
            &&& gone == s
        }),
{
    let born = s.with_object(p, value);
    let shared = born.incref(p);
    let alone = shared.decref(p);
    let gone = alone.decref(p);
    assert(alone.objects =~= born.objects);
    assert(gone.objects =~= s.objects);
}

/// A state with an address of the table at which nothing lives is not full.
pub proof fn lemma_free_address_means_room(s: State, a: usize)
    requires
        1 <= a <= s.capacity,
        !s.live(a),
    ensures
        !s.full(),
{
}

/// The lowest free address is unique, and a state that has one is not full:
/// an allocation that succeeds can hand out only one address.
pub proof fn lemma_first_free_unique(s: State, a: usize, b: usize)
    requires
        s.first_free(a),
        s.first_free(b),
    ensures
        a == b,
        !s.full(),
{
    if a < b {
        assert(s.live(a));
    } else if b < a {
        assert(s.live(b));
    }
    assert(!s.live(a));
}

/// A state that is not full has a lowest free address.
pub proof fn lemma_room_means_first_free(s: State)
    requires
        s.wf(),
        !s.full(),
    ensures
        exists|a: usize| s.first_free(a),
{
    let hole = choose|a: usize| 1 <= a <= s.capacity && !s.live(a);
    lemma_lowest_hole(s, hole);
}

/// Below or at any free address of the table there is a lowest one.
proof fn lemma_lowest_hole(s: State, hole: usize)
    requires
        1 <= hole <= s.capacity,
        !s.live(hole),
    ensures
        exists|a: usize| s.first_free(a),
    decreases hole,
{
    if forall|b: usize| 1 <= b < hole ==> #[trigger] s.live(b) {
        assert(s.first_free(hole));
    } else {
        let lower = choose|b: usize| 1 <= b < hole && !s.live(b);
        lemma_lowest_hole(s, lower);
    }
}

} // verus!
