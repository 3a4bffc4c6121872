//! A store behind a lock, for owners that run at the same time.

use crate::wakers::{Wakers, WakersMut, WakersRef};
use core::ops::DerefMut;
use core::task::Waker;
use std::sync::{Mutex, MutexGuard, PoisonError};
use vstd::prelude::*;

verus! {

/// `std::sync::Mutex`, opaque: a lock around a value.
#[verifier::external_type_specification]
#[verifier::external_body]
#[verifier::reject_recursive_types(T)]
pub struct ExMutex<T: ?Sized>(Mutex<T>);

/// `std::sync::MutexGuard`, opaque: the guard of a taken lock, which
/// releases the lock when it is dropped.
#[verifier::external_type_specification]
#[verifier::external_body]
#[verifier::reject_recursive_types(T)]
pub struct ExMutexGuard<'a, T: ?Sized + 'a>(MutexGuard<'a, T>);

/// `std::sync::PoisonError`, opaque: a thread panicked while it held the
/// lock.
#[verifier::external_type_specification]
#[verifier::external_body]
#[verifier::reject_recursive_types(T)]
pub struct ExPoisonError<T>(PoisonError<T>);

/// `Mutex::new`: an unlocked lock around `value`. What a lock protects can
/// change behind a shared reference, so no contract here speaks of it.
#[verifier::external_body]
fn lock_new<W>(value: W) -> Mutex<W> {
    Mutex::new(value)
}

/// `Mutex::get_mut`: the protected value, reached through the exclusive
/// reference to the lock without locking, or an error if the lock is
/// poisoned.
#[verifier::external_body]
fn lock_get_mut<W>(lock: &mut Mutex<W>) -> Result<&mut W, PoisonError<&mut W>> {
    lock.get_mut()
}

/// `Mutex::into_inner`: the value that the lock protected, or an error if
/// the lock is poisoned.
#[verifier::external_body]
fn lock_into_inner<W>(lock: Mutex<W>) -> Result<W, PoisonError<W>> {
    lock.into_inner()
}

/// `Mutex::lock`: waits until the lock is free and takes it; the lock is
/// released when the guard is dropped, on a panic too. The error says that a
/// thread panicked while it held the lock. A thread that holds the lock must
/// not ask for it again: it would wait for itself, or panic.
#[verifier::external_body]
fn lock_acquire<W>(lock: &Mutex<W>) -> Result<MutexGuard<'_, W>, PoisonError<MutexGuard<'_, W>>> {
    lock.lock()
}

/// `DerefMut::deref_mut` of `MutexGuard`: the value that the guard protects.
#[verifier::external_body]
fn locked_get_mut<'a, 'b, W>(guard: &'a mut MutexGuard<'b, W>) -> &'a mut W {
    guard.deref_mut()
}

/// A thread panicked while it held the lock, and may have left the store
/// half changed.
#[derive(Debug, Clone, Copy, PartialEq, Eq, Structural)]
pub struct Poisoned;

/// What the lock answered, with the lock's own error left behind: the value
/// where it gave one, `Poisoned` where it did not.
pub fn unpoisoned<T>(answer: Result<T, PoisonError<T>>) -> (value: Result<T, Poisoned>)
    ensures
        answer is Ok ==> value == Ok::<T, Poisoned>(answer->Ok_0),
        answer is Err ==> value == Err::<T, Poisoned>(Poisoned),
{
    match answer {
        Ok(value) => Ok(value),
        Err(_) => Err(Poisoned),
    }
}

/// A store that many owners reach through shared references, one at a time.
///
/// Every operation through a shared reference takes the lock, works on the
/// store and releases the lock, so these operations happen one after
/// another. An operation that finds the lock poisoned leaves the store
/// alone: through a shared reference it does nothing, through the adapter
/// itself it answers `Poisoned`. A waker must not reach back into the adapter
/// that invokes it.
///
/// The store changes behind shared references, so there is no spec function
/// that says what the adapter holds, and no contract below can speak of it.
/// What an operation does to the store is stated by the store, on the
/// reference that `get_mut` hands out.
#[derive(Debug)]
#[verifier::reject_recursive_types(W)]
pub struct SyncWakers<W> {
    wakers: Mutex<W>,
}

impl<W> SyncWakers<W> {
    /// An adapter that owns `wakers`.
    pub fn new(wakers: W) -> Self {
        SyncWakers { wakers: lock_new(wakers) }
    }

    /// The store, for the holder of the adapter itself; the lock is not
    /// taken. `Poisoned` if a thread panicked while it held the lock.
    pub fn get_mut(&mut self) -> Result<&mut W, Poisoned> {
        unpoisoned(lock_get_mut(&mut self.wakers))
    }

    /// Gives the store back. `Poisoned` if a thread panicked while it held
    /// the lock.
    pub fn into_inner(self) -> Result<W, Poisoned> {
        unpoisoned(lock_into_inner(self.wakers))
    }
}

impl<W: Default> Default for SyncWakers<W> {
    /// An adapter that owns the default store.
    fn default() -> Self {
        SyncWakers::new(W::default())
    }
}

impl<W: WakersMut> WakersMut for SyncWakers<W> {
    /// Registers with the store, reached as `get_mut` reaches it. Does
    /// nothing if the lock is poisoned.
    fn pend(&mut self, waker: &Waker) {
        match self.get_mut() {
            Ok(inner) => inner.pend(waker),
            Err(_) => {},
        }
    }

    /// Has the store wake its waiters and forget them, reached as `get_mut`
    /// reaches it. Does nothing if the lock is poisoned.
    fn wake(&mut self) {
        match self.get_mut() {
            Ok(inner) => inner.wake(),
            Err(_) => {},
        }
    }
}

impl<W: WakersMut> WakersRef for SyncWakers<W> {
    /// Takes the lock, has the store wake its waiters and forget them, and
    /// releases the lock. Does nothing if the lock is poisoned.
    fn wake_by_ref(&self) {
        match lock_acquire(&self.wakers) {
            Ok(mut guard) => locked_get_mut(&mut guard).wake(),
            Err(_) => {},
        }
    }
}

impl<W: WakersMut> Wakers for SyncWakers<W> {
    /// Takes the lock, registers with the store, and releases the lock. Does
    /// nothing if the lock is poisoned.
    fn pend_by_ref(&self, waker: &Waker) {
        match lock_acquire(&self.wakers) {
            Ok(mut guard) => locked_get_mut(&mut guard).pend(waker),
            Err(_) => {},
        }
    }
}

} // verus!
