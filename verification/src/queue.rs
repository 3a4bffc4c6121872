//! A store with room for one waker.

use crate::task::{invoke, invoke_by_ref, same_target, waker_task};
use crate::wakers::{WakersMut, WakersRef};
use core::task::Waker;
use vstd::prelude::*;

verus! {

/// A slot for the waker of the waiter that registered last.
///
/// Beside the handle the slot keeps, as ghost state, the tasks that it has
/// woken through an exclusive reference, oldest first. A wake through a
/// shared reference cannot be written down there: `wake_shared` answers with
/// the tasks it woke instead.
pub struct WakerQueue {
    waker: Option<Waker>,
    woken: Ghost<Seq<nat>>,
}

impl View for WakerQueue {
    type V = Option<nat>;

    /// The task that is registered, if one is.
    open spec fn view(&self) -> Option<nat> {
        match self.handle() {
            Some(held) => Some(waker_task(held)),
            None => None,
        }
    }
}

impl WakerQueue {
    /// The handle in the slot.
    pub closed spec fn handle(&self) -> Option<Waker> {
        self.waker
    }

    /// The tasks woken so far through an exclusive reference, oldest first.
    pub closed spec fn woken(&self) -> Seq<nat> {
        self.woken@
    }

    /// Whether registering `waker` finds its waiter in the slot already:
    /// the handle in the slot says that it wakes what `waker` wakes. It says
    /// so only of a waker of its own task.
    pub open spec fn coalesces(&self, waker: Waker) -> bool {
        match self.handle() {
            Some(held) => same_target(held, waker) && waker_task(held) == waker_task(waker),
            None => false,
        }
    }

    /// The tasks that a wake of the slot wakes, whether or not it empties the
    /// slot: the registered one, or none.
    pub open spec fn wakes(&self) -> Seq<nat> {
        match self@ {
            Some(task) => seq![task],
            None => seq![],
        }
    }

    /// How `wake` takes a slot from `self` to `post`.
    pub open spec fn woke_into(&self, post: WakerQueue) -> bool {
        &&& post.handle() is None
        &&& post.woken() == self.woken() + self.wakes()
    }

    /// How `pend` with `waker` takes a slot from `self` to `post`.
    pub open spec fn pended_into(&self, waker: Waker, post: WakerQueue) -> bool {
        &&& post@ == Some(waker_task(waker))
        &&& if self.coalesces(waker) {
            post == *self
        } else {
            post.woken() == self.woken() + self.wakes()
        }
    }

    /// An empty slot that has woken nobody.
    pub fn new() -> (slot: Self)
        ensures
            slot.handle() is None,
            slot.woken() == Seq::<nat>::empty(),
    {
        WakerQueue { waker: None, woken: Ghost(Seq::empty()) }
    }

    /// Wakes the waiter in the slot and keeps its handle, so that the next
    /// wake finds it again. Answers with the tasks it woke.
    pub fn wake_shared(&self) -> (woken: Ghost<Seq<nat>>)
        ensures
            woken@ == self.wakes(),
    {
        let mut woken = Ghost(Seq::empty());
        if let Some(held) = &self.waker {
            woken = Ghost(Seq::empty().push(waker_task(*held)));
            invoke_by_ref(held);
        }
        woken
    }
}

impl Clone for WakerQueue {
    /// A slot that holds a clone of the handle, with the same tasks on
    /// record.
    fn clone(&self) -> (twin: Self)
        ensures
            twin@ == self@,
            twin.woken() == self.woken(),
    {
        let waker = match &self.waker {
            Some(held) => Some(held.clone()),
            None => None,
        };
        WakerQueue { waker, woken: self.woken }
    }
}

impl Default for WakerQueue {
    /// An empty slot that has woken nobody.
    fn default() -> (slot: Self)
        ensures
            slot.handle() is None,
            slot.woken() == Seq::<nat>::empty(),
    {
        WakerQueue::new()
    }
}

impl WakersMut for WakerQueue {
    /// Leaves the slot as it is where it holds the waiter behind `waker`
    /// already. Otherwise wakes the waiter it holds, so that none is dropped
    /// unwoken, and holds a clone of `waker` in its place.
    fn pend(&mut self, waker: &Waker)
        ensures
            old(self).pended_into(*waker, *final(self)),
    {
        let known = match &self.waker {
            Some(held) => held.will_wake(waker),
            None => false,
        };
        if !known {
            self.wake();
            self.waker = Some(waker.clone());
        }
    }

    /// Empties the slot and wakes the waiter it held.
    fn wake(&mut self)
        ensures
            old(self).woke_into(*final(self)),
            old(self).handle() is None ==> *final(self) == *old(self),
    {
        if let Some(held) = self.waker.take() {
            self.woken = Ghost(self.woken@.push(waker_task(held)));
            invoke(held);
        }
        assert(self.woken@ =~= old(self).woken() + old(self).wakes());
    }
}

impl WakersRef for WakerQueue {
    /// Wakes the waiter in the slot and keeps its handle, as `wake_shared`
    /// does; the tasks it woke go unsaid.
    fn wake_by_ref(&self) {
        let _ = self.wake_shared();
    }
}

/// `core::fmt::Formatter`, opaque: where `Debug` writes.
#[verifier::external_type_specification]
#[verifier::external_body]
pub struct ExFormatter<'a>(core::fmt::Formatter<'a>);

/// `core::fmt::Error`, opaque: the formatter could not take the text.
#[verifier::external_type_specification]
#[verifier::external_body]
pub struct ExFmtError(core::fmt::Error);

/// `write!` into a formatter: the text of the slot for `Debug`, or the
/// formatter's error. The ghost record of the woken tasks has no text.
#[verifier::external_body]
fn write_slot(f: &mut core::fmt::Formatter<'_>, waker: &Option<Waker>) -> Result<(), core::fmt::Error> {
    write!(f, "WakerQueue {{ waker: {:?} }}", waker)
}

impl core::fmt::Debug for WakerQueue {
    /// Shows the handle in the slot.
    fn fmt(&self, f: &mut core::fmt::Formatter<'_>) -> Result<(), core::fmt::Error> {
        write_slot(f, &self.waker)
    }
}

/// Registering leaves the slot occupied for the waiter that registered,
/// whatever it held.
pub proof fn lemma_pend_occupies(before: WakerQueue, waker: Waker, after: WakerQueue)
    requires
        before.pended_into(waker, after),
    ensures
        after@ == Some(waker_task(waker)),
{
}

/// A waker of another task than the registered one is never taken for it.
pub proof fn lemma_other_task_is_told_apart(slot: WakerQueue, waker: Waker)
    requires
        slot@ != Some(waker_task(waker)),
    ensures
        !slot.coalesces(waker),
{
}

/// Two registrations in a row for one waiter: the second wakes nobody and
/// leaves the slot as the first left it, occupied for that waiter.
pub proof fn lemma_pend_again_coalesces(
    before: WakerQueue,
    first: Waker,
    between: WakerQueue,
    again: Waker,
    after: WakerQueue,
)
    requires
        before.pended_into(first, between),
        between.coalesces(again),
        between.pended_into(again, after),
    ensures
        after == between,
        after.woken() == between.woken(),
        after@ == Some(waker_task(first)),
{
}

/// A registration, then one for another waiter: the second wakes the first
/// waiter, once and nobody else, and leaves the slot occupied for the
/// second.
pub proof fn lemma_pend_other_evicts(
    before: WakerQueue,
    first: Waker,
    between: WakerQueue,
    second: Waker,
    after: WakerQueue,
)
    requires
        before.pended_into(first, between),
        !between.coalesces(second),
        between.pended_into(second, after),
    ensures
        after.woken() == between.woken().push(waker_task(first)),
        after@ == Some(waker_task(second)),
{
    assert(between.woken() + between.wakes() =~= between.woken().push(waker_task(first)));
}

/// A registration, then two wakes: the first wake wakes the waiter, once
/// and nobody else, and empties the slot; the second changes nothing.
pub proof fn lemma_wake_twice_wakes_once(
    before: WakerQueue,
    waker: Waker,
    occupied: WakerQueue,
    emptied: WakerQueue,
    after: WakerQueue,
)
    requires
        before.pended_into(waker, occupied),
        occupied.woke_into(emptied),
        emptied.woke_into(after),
    ensures
        emptied.woken() == occupied.woken().push(waker_task(waker)),
        emptied.handle() is None,
        after == emptied,
{
    assert(occupied.woken() + occupied.wakes() =~= occupied.woken().push(waker_task(waker)));
    assert(emptied.woken() + emptied.wakes() =~= emptied.woken());
}

/// A registration, then two wakes through a shared reference, which answer
/// `first` and `second`: together they wake the waiter twice and nobody
/// else, and the slot stays occupied for it.
pub proof fn lemma_wake_shared_repeats(
    before: WakerQueue,
    waker: Waker,
    occupied: WakerQueue,
    first: Seq<nat>,
    second: Seq<nat>,
)
    requires
        before.pended_into(waker, occupied),
        first == occupied.wakes(),
        second == occupied.wakes(),
    ensures
        first + second == seq![waker_task(waker), waker_task(waker)],
        occupied@ == Some(waker_task(waker)),
{
    assert(first + second =~= seq![waker_task(waker), waker_task(waker)]);
}

/// A wake of an empty slot wakes nobody, through either kind of reference,
/// and leaves the slot empty.
pub proof fn lemma_wake_of_empty_is_idle(empty: WakerQueue, after: WakerQueue)
    requires
        empty.handle() is None,
        empty.woke_into(after),
    ensures
        empty.wakes() == Seq::<nat>::empty(),
        after == empty,
{
    assert(empty.woken() + empty.wakes() =~= empty.woken());
}

} // verus!
