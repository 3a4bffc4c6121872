//! A store behind a cell, for one owner at a time.

use crate::wakers::{Wakers, WakersMut, WakersRef};
use core::cell::{BorrowMutError, RefCell, RefMut};
use core::ops::DerefMut;
use core::task::Waker;
use vstd::prelude::*;

verus! {

/// `core::cell::RefCell`, opaque: a cell that checks at run time that its
/// value is borrowed by one holder at a time.
#[verifier::external_type_specification]
#[verifier::external_body]
#[verifier::reject_recursive_types(T)]
pub struct ExRefCell<T: ?Sized>(RefCell<T>);

/// `core::cell::RefMut`, opaque: the guard of an exclusive borrow from a
/// `RefCell`, which ends the borrow when it is dropped.
#[verifier::external_type_specification]
#[verifier::external_body]
#[verifier::reject_recursive_types(T)]
pub struct ExRefMut<'b, T: ?Sized + 'b>(RefMut<'b, T>);

/// `core::cell::BorrowMutError`, opaque: the value of a `RefCell` is
/// borrowed already.
#[verifier::external_type_specification]
#[verifier::external_body]
pub struct ExBorrowMutError(BorrowMutError);

/// `RefCell::new`: a cell that holds `value`. What a cell holds can change
/// behind a shared reference, so no contract here speaks of it.
#[verifier::external_body]
fn cell_new<W>(value: W) -> RefCell<W> {
    RefCell::new(value)
}

/// `RefCell::get_mut`: the value in the cell, reached through the exclusive
/// reference to the cell, without a look at the borrow flag.
#[verifier::external_body]
fn cell_get_mut<W>(cell: &mut RefCell<W>) -> &mut W {
    cell.get_mut()
}

/// `RefCell::into_inner`: the value that was in the cell.
#[verifier::external_body]
fn cell_into_inner<W>(cell: RefCell<W>) -> W {
    cell.into_inner()
}

/// `RefCell::try_borrow_mut`: a guard that gives exclusive access to the
/// value for as long as it lives, or an error while another guard is alive.
/// It neither waits nor panics.
#[verifier::external_body]
fn cell_try_borrow_mut<W>(cell: &RefCell<W>) -> Result<RefMut<'_, W>, BorrowMutError> {
    cell.try_borrow_mut()
}

/// `DerefMut::deref_mut` of `RefMut`: the value that the guard protects.
#[verifier::external_body]
fn borrowed_get_mut<'a, 'b, W>(guard: &'a mut RefMut<'b, W>) -> &'a mut W {
    guard.deref_mut()
}

/// A store that its one owner reaches through shared references, without a
/// lock.
///
/// The adapter can move to another thread with its store; a reference to it
/// cannot be shared between threads, because the cell that it keeps the store
/// in is not `Sync`. Within its thread the owner must finish one operation
/// before it starts the next: an operation that is started from inside
/// another one, by a waker that reaches back into the adapter, finds the
/// store taken and does nothing.
///
/// The store changes behind shared references, so there is no spec function
/// that says what the adapter holds, and no contract below can speak of it.
/// What an operation does to the store is stated by the store, on the
/// reference that `get_mut` hands out.
#[derive(Debug)]
#[verifier::reject_recursive_types(W)]
pub struct SendWakers<W> {
    wakers: RefCell<W>,
}

impl<W> SendWakers<W> {
    /// An adapter that owns `wakers`.
    pub fn new(wakers: W) -> Self {
        SendWakers { wakers: cell_new(wakers) }
    }

    /// The store, for the holder of the adapter itself.
    pub fn get_mut(&mut self) -> &mut W {
        cell_get_mut(&mut self.wakers)
    }

    /// Gives the store back.
    pub fn into_inner(self) -> W {
        cell_into_inner(self.wakers)
    }
}

impl<W: Default> Default for SendWakers<W> {
    /// An adapter that owns the default store.
    fn default() -> Self {
        SendWakers::new(W::default())
    }
}

impl<W: WakersMut> WakersMut for SendWakers<W> {
    /// Registers with the store, reached as `get_mut` reaches it.
    fn pend(&mut self, waker: &Waker) {
        self.get_mut().pend(waker)
    }

    /// Has the store wake its waiters and forget them, reached as `get_mut`
    /// reaches it.
    fn wake(&mut self) {
        self.get_mut().wake()
    }
}

impl<W: WakersMut> WakersRef for SendWakers<W> {
    /// Takes the store for itself, has it wake its waiters and forget them,
    /// and lets go of it. Does nothing while the store is taken.
    fn wake_by_ref(&self) {
        match cell_try_borrow_mut(&self.wakers) {
            Ok(mut guard) => borrowed_get_mut(&mut guard).wake(),
            Err(_) => {},
        }
    }
}

impl<W: WakersMut> Wakers for SendWakers<W> {
    /// Takes the store for itself, registers with it, and lets go of it.
    /// Does nothing while the store is taken.
    fn pend_by_ref(&self, waker: &Waker) {
        match cell_try_borrow_mut(&self.wakers) {
            Ok(mut guard) => borrowed_get_mut(&mut guard).pend(waker),
            Err(_) => {},
        }
    }
}

} // verus!
