//! The ways a resource reaches the store of its waiters.
//!
//! The side that waits registers its waker before it blocks; the side that
//! changes the resource wakes whoever is registered. A store that is reached
//! through an exclusive reference is a `WakersMut`; an adapter that lets
//! holders of a shared reference do the same is a `Wakers`.
//!
//! The traits are open to stores of any make, so their methods carry no
//! contract: what a store promises it states on its own methods.

use core::task::Waker;
use vstd::prelude::*;

verus! {

/// Waking through a shared reference.
pub trait WakersRef {
    /// Wakes the waiters that the store holds.
    fn wake_by_ref(&self);
}

/// Registering through a shared reference.
pub trait Wakers: WakersRef {
    /// Registers the waiter behind `waker`.
    fn pend_by_ref(&self, waker: &Waker);
}

/// Registering and waking through an exclusive reference.
pub trait WakersMut {
    /// Registers the waiter behind `waker`.
    fn pend(&mut self, waker: &Waker);

    /// Wakes the waiters that the store holds, and forgets them.
    fn wake(&mut self);
}

} // verus!
