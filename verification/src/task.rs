//! What the library assumes of `core::task::Waker`.
//!
//! A waker is opaque here. The library clones wakers, compares them and
//! invokes them; what it states of them it states over the two names below.

use core::task::Waker;
use vstd::prelude::*;

verus! {

/// `core::task::Waker`, opaque: the handle by which a task is woken.
#[verifier::external_type_specification]
#[verifier::external_body]
pub struct ExWaker(Waker);

/// The task that invoking `w` wakes.
pub uninterp spec fn waker_task(w: Waker) -> nat;

/// What `Waker::will_wake` answers when `a` is asked about `b`.
pub uninterp spec fn same_target(a: Waker, b: Waker) -> bool;

/// `Waker::will_wake` compares the two wakers as they are, so its answer is
/// a function of them. It makes a best effort: where it answers `true` both
/// wake the same task, where it answers `false` they still may.
pub assume_specification[ Waker::will_wake ](a: &Waker, b: &Waker) -> (same: bool)
    ensures
        same == same_target(*a, *b),
        same ==> waker_task(*a) == waker_task(*b),
;

/// `Waker::clone`: the clone wakes the task that `w` wakes. Whether
/// `will_wake` tells the two alike is left open.
pub assume_specification[ <Waker as Clone>::clone ](w: &Waker) -> (copy: Waker)
    ensures
        waker_task(copy) == waker_task(*w),
;

/// `Waker::wake`: wakes the task of `w` and uses the waker up. The call
/// reaches into the task system, and nothing of it shows in a value here.
#[verifier::external_body]
pub(crate) fn invoke(w: Waker) {
    w.wake()
}

/// `Waker::wake_by_ref`: wakes the task of `w` and leaves the waker usable.
/// Nothing of the call shows in a value here.
#[verifier::external_body]
pub(crate) fn invoke_by_ref(w: &Waker) {
    w.wake_by_ref()
}

} // verus!
