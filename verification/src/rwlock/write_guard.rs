//! The guard of exclusive write access.
use std::cell::RefMut;

use std::collections::VecDeque;
use std::task::Waker;

use vstd::prelude::*;

use super::wakers::{WakeGuard, Wakers};

verus! {

/// Calls `RefMut::map`, handing it `f`. What the guards hold is not modelled.
#[verifier::external_body]
fn ref_mut_map<'b, T: ?Sized, U: ?Sized, F>(orig: RefMut<'b, T>, f: F) -> RefMut<'b, U> where
    F: FnOnce(&mut T) -> &mut U,

    requires
        forall|x: &mut T| f.requires((x,)),
 {
    RefMut::map(orig, f)
}

/// Calls `RefMut::filter_map`, handing it `f`. What the guards hold, and which way it goes, is
/// not modelled.
#[verifier::external_body]
fn ref_mut_filter_map<'b, T: ?Sized, U: ?Sized, F>(orig: RefMut<'b, T>, f: F) -> Result<
    RefMut<'b, U>,
    RefMut<'b, T>,
> where F: FnOnce(&mut T) -> Option<&mut U>
    requires
        forall|x: &mut T| f.requires((x,)),
{
    RefMut::filter_map(orig, f)
}

/// Calls `RefMut::deref`. What the guard holds is not modelled.
#[verifier::external_body]
fn ref_mut_deref<'a, 'b, T: ?Sized>(r: &'a RefMut<'b, T>) -> &'a T {
    &**r
}

/// Calls `RefMut::deref_mut`. What the guard holds is not modelled.
#[verifier::external_body]
fn ref_mut_deref_mut<'a, 'b, T: ?Sized>(r: &'a mut RefMut<'b, T>) -> &'a mut T {
    &mut **r
}

/// Structure used to release the exclusive write access of a lock.
///
/// This structure is created by the `write` method on [`RwLock`](super::RwLock).
#[verifier::reject_recursive_types(T)]
pub struct RwLockWriteGuard<'a, T: ?Sized> {
    pub(super) wake_guard: WakeGuard<'a>,
    pub(super) val: RefMut<'a, T>,
}

impl<'a, T: ?Sized> RwLockWriteGuard<'a, T> {
    /// The tasks that the release of this guard wakes.
    pub closed spec fn wakers(&self) -> Wakers {
        *self.wake_guard.wakers()
    }

    /// The guard of the access `val`, whose release wakes the tasks of `wake_guard`.
    pub(super) fn new(val: RefMut<'a, T>, wake_guard: WakeGuard<'a>) -> (g: Self)
        ensures
            g.wakers() == *wake_guard.wakers(),
    {
        RwLockWriteGuard { wake_guard, val }
    }

    /// Makes a new `RwLockWriteGuard` for a component of the locked data.
    ///
    /// This operation cannot fail as data is already locked.
    ///
    /// This is an associated function that needs to be used as `RwLockWriteGuard::map(...)`. A
    /// method would interfere with methods of the same name on the contents of the underlying
    /// data used through `Deref`.
    pub fn map<U: ?Sized, F>(this: Self, f: F) -> (g: RwLockWriteGuard<'a, U>) where
        F: FnOnce(&mut T) -> &mut U,
        requires
            forall|x: &mut T| f.requires((x,)),
        ensures
            g.wakers() == this.wakers(),
    {
        let RwLockWriteGuard { wake_guard, val } = this;
        let val = ref_mut_map(val, f);
        RwLockWriteGuard { wake_guard, val }
    }

    /// Tries to make a new `RwLockWriteGuard` for a component of the locked data. Returns the
    /// original write guard if the closure returns `None`.
    ///
    /// This is an associated function that needs to be used as
    /// `RwLockWriteGuard::filter_map(...)`. A method would interfere with methods of the same
    /// name on the contents of the underlying data used through `Deref`.
    pub fn filter_map<U: ?Sized, F>(this: Self, f: F) -> (r: Result<RwLockWriteGuard<'a, U>, Self>) where
        F: FnOnce(&mut T) -> Option<&mut U>,
        requires
            forall|x: &mut T| f.requires((x,)),
        ensures
            match r {
                Ok(g) => g.wakers() == this.wakers(),
                Err(g) => g.wakers() == this.wakers(),
            },
    {
        let RwLockWriteGuard { wake_guard, val } = this;
        match ref_mut_filter_map(val, f) {
            Ok(val) => Ok(RwLockWriteGuard { wake_guard, val }),
            Err(val) => Err(RwLockWriteGuard { wake_guard, val }),
        }
    }

    /// Releases the exclusive write access and hands out the wakers of the tasks waiting for
    /// the lock, oldest first, to be woken. A guard that is merely dropped releases the access
    /// without handing them out.
    pub fn release(this: Self) -> VecDeque<Waker> {
        let RwLockWriteGuard { wake_guard, val } = this;
        wake_guard.release()
    }
}

impl<T: ?Sized> std::ops::Deref for RwLockWriteGuard<'_, T> {
    type Target = T;

    fn deref(&self) -> &T {
        ref_mut_deref(&self.val)
    }
}

impl<T: ?Sized> std::ops::DerefMut for RwLockWriteGuard<'_, T> {
    fn deref_mut(&mut self) -> &mut T {
        ref_mut_deref_mut(&mut self.val)
    }
}

} // verus!
