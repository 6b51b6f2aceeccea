//! An asynchronous reader-writer lock for tasks of one thread.
//!
//! The value is held in a `std::cell::RefCell`, whose dynamic borrow flag decides whether a
//! reader or writer gets in; a release wakes every task waiting in [`Wakers`].
use std::cell::{BorrowError, BorrowMutError, Ref, RefCell, RefMut};
use std::task::Waker;

use vstd::prelude::*;

use crate::task::Poll;
use crate::utils::poll_yield;

mod error;
mod read_guard;
pub mod wakers;
mod write_guard;

pub use error::{TryLockError, TryLockResult};
pub use read_guard::RwLockReadGuard;
pub use wakers::{WakeGuard, Wakers};
pub use write_guard::RwLockWriteGuard;

verus! {

#[verifier::external_type_specification]
#[verifier::external_body]
#[verifier::reject_recursive_types(T)]
pub struct ExRefCell<T: ?Sized>(RefCell<T>);

#[verifier::external_type_specification]
#[verifier::external_body]
#[verifier::reject_recursive_types(T)]
pub struct ExRef<'b, T: ?Sized>(Ref<'b, T>);

#[verifier::external_type_specification]
#[verifier::external_body]
#[verifier::reject_recursive_types(T)]
pub struct ExRefMut<'b, T: ?Sized + 'b>(RefMut<'b, T>);

#[verifier::external_type_specification]
#[verifier::external_body]
pub struct ExBorrowError(BorrowError);

#[verifier::external_type_specification]
#[verifier::external_body]
pub struct ExBorrowMutError(BorrowMutError);

/// Calls `RefCell::new`. What the cell holds is not modelled.
#[verifier::external_body]
fn refcell_new<T>(val: T) -> RefCell<T> {
    RefCell::new(val)
}

/// Calls `RefCell::into_inner`. What the cell held is not modelled.
#[verifier::external_body]
fn refcell_into_inner<T>(cell: RefCell<T>) -> T {
    cell.into_inner()
}

/// Calls `RefCell::get_mut`. What the cell holds is not modelled.
#[verifier::external_body]
fn refcell_get_mut<T: ?Sized>(cell: &mut RefCell<T>) -> &mut T {
    cell.get_mut()
}

/// Calls `RefCell::try_borrow`, which fails while the value is mutably borrowed. The borrow
/// state is not modelled, so nothing is stated of the outcome.
#[verifier::external_body]
fn refcell_try_borrow<T: ?Sized>(cell: &RefCell<T>) -> Result<Ref<'_, T>, BorrowError> {
    cell.try_borrow()
}

/// Calls `RefCell::try_borrow_mut`, which fails while the value is borrowed at all. The borrow
/// state is not modelled, so nothing is stated of the outcome.
#[verifier::external_body]
fn refcell_try_borrow_mut<T: ?Sized>(cell: &RefCell<T>) -> Result<RefMut<'_, T>, BorrowMutError> {
    cell.try_borrow_mut()
}

/// The answer to one poll of a task that acquires a lock.
pub enum Acquire<G> {
    /// The lock is acquired; here is its guard.
    Ready(G),
    /// The task yields: the caller wakes it at once and leaves it pending.
    Yield,
    /// The task waits: its waker is kept with the lock, to be woken by the next release.
    Wait,
}

/// An asynchronous reader-writer lock.
///
/// This type of lock allows a number of readers or at most one writer at any point in time.
/// The write portion of this lock typically allows modification of the underlying data
/// (exclusive access) and the read portion of this lock typically allows for read-only access
/// (shared access).
///
/// The acquisition order of this lock is not guaranteed and depending on the runtime's
/// implementation and preference of any used polling combinators.
#[verifier::reject_recursive_types(T)]
pub struct RwLock<T: ?Sized> {
    wakers: Wakers,
    val: RefCell<T>,
}

impl<T> RwLock<T> {
    /// Creates a new `RwLock` containing value `T`
    pub fn new(val: T) -> Self {
        Self { wakers: Wakers::new(), val: refcell_new(val) }
    }

    /// Consumes the lock, returning the underlying data.
    pub fn into_inner(self) -> T {
        refcell_into_inner(self.val)
    }
}

impl<T: ?Sized> RwLock<T> {
    /// The tasks waiting for a release of this lock.
    pub closed spec fn wakers(&self) -> Wakers {
        self.wakers
    }

    /// Attempts to acquire this `RwLock` with shared read access.
    ///
    /// If the access couldn't be acquired immediately, returns [`TryLockError`]. Otherwise, a
    /// guard is returned, whose release gives up the read access.
    ///
    /// This function does not block.
    ///
    /// This function does not provide any guarantees with respect to the ordering of whether
    /// contentious readers or writers will acquire the lock first.
    pub fn try_read(&self) -> (r: TryLockResult<RwLockReadGuard<'_, T>>)
        ensures
            r matches Ok(g) ==> g.wakers() == self.wakers(),
    {
        match refcell_try_borrow(&self.val) {
            Ok(read_inner) => {
                let wake_guard = self.wakers.wake_guard();
                Ok(RwLockReadGuard::new(read_inner, wake_guard))
            },
            Err(_) => Err(TryLockError::new()),
        }
    }

    /// Attempts to lock this `RwLock` with exclusive write access.
    ///
    /// If the lock could not be acquired immediately, returns [`TryLockError`]. Otherwise, a
    /// guard is returned, whose release gives up the write access.
    ///
    /// This function does not block.
    ///
    /// This function does not provide any guarantees with respect to the ordering of whether
    /// contentious readers or writers will acquire the lock first.
    pub fn try_write(&self) -> (r: TryLockResult<RwLockWriteGuard<'_, T>>)
        ensures
            r matches Ok(g) ==> g.wakers() == self.wakers(),
    {
        match refcell_try_borrow_mut(&self.val) {
            Ok(write_inner) => {
                let wake_guard = self.wakers.wake_guard();
                Ok(RwLockWriteGuard::new(write_inner, wake_guard))
            },
            Err(_) => Err(TryLockError::new()),
        }
    }

    /// One poll of a task that locks this `RwLock` with shared read access.
    ///
    /// The first poll answers `Yield`: the caller wakes the task at once and leaves it pending,
    /// to give the other tasks of the runtime their turn. Each poll after it tries to acquire
    /// the access: it answers the guard if it can, and otherwise keeps `waker` with the lock,
    /// to be woken by the next release, and answers `Wait`.
    ///
    /// This does not provide any guarantees with respect to the ordering of whether contentious
    /// readers or writers will acquire the lock first.
    pub fn poll_read(&self, yielded: &mut bool, waker: Waker) -> (r: Acquire<RwLockReadGuard<'_, T>>)
        ensures
            !*old(yielded) ==> r is Yield,
            *old(yielded) ==> !(r is Yield),
            r matches Acquire::Ready(g) ==> g.wakers() == self.wakers(),
            *final(yielded),
    {
        if let Poll::Pending = poll_yield(yielded) {
            return Acquire::Yield;
        }
        let attempt = self.try_read();
        match self.wakers.settle(attempt, waker) {
            Poll::Ready(g) => Acquire::Ready(g),
            Poll::Pending => Acquire::Wait,
        }
    }

    /// One poll of a task that locks this `RwLock` with exclusive write access.
    ///
    /// The first poll answers `Yield`: the caller wakes the task at once and leaves it pending,
    /// to give the other tasks of the runtime their turn. Each poll after it tries to acquire
    /// the access: it answers the guard if it can, and otherwise keeps `waker` with the lock,
    /// to be woken by the next release, and answers `Wait`.
    ///
    /// This does not provide any guarantees with respect to the ordering of whether contentious
    /// readers or writers will acquire the lock first.
    pub fn poll_write(&self, yielded: &mut bool, waker: Waker) -> (r: Acquire<RwLockWriteGuard<'_, T>>)
        ensures
            !*old(yielded) ==> r is Yield,
            *old(yielded) ==> !(r is Yield),
            r matches Acquire::Ready(g) ==> g.wakers() == self.wakers(),
            *final(yielded),
    {
        if let Poll::Pending = poll_yield(yielded) {
            return Acquire::Yield;
        }
        let attempt = self.try_write();
        match self.wakers.settle(attempt, waker) {
            Poll::Ready(g) => Acquire::Ready(g),
            Poll::Pending => Acquire::Wait,
        }
    }

    /// Returns a mutable reference to the underlying data.
    ///
    /// This call borrows `RwLock` mutably (at compile-time) so there is no need for dynamic
    /// checks.
    pub fn get_mut(&mut self) -> &mut T {
        refcell_get_mut(&mut self.val)
    }
}

} // verus!
