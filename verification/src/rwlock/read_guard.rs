//! The guard of shared read access.
use std::cell::Ref;

use std::collections::VecDeque;
use std::task::Waker;

use vstd::prelude::*;

use super::wakers::{WakeGuard, Wakers};

verus! {

/// Calls `Ref::map`, handing it `f`. What the guards hold is not modelled.
#[verifier::external_body]
fn ref_map<'b, T: ?Sized, U: ?Sized, F>(orig: Ref<'b, T>, f: F) -> Ref<'b, U> where
    F: FnOnce(&T) -> &U,

    requires
        forall|x: &T| f.requires((x,)),
 {
    Ref::map(orig, f)
}

/// Calls `Ref::filter_map`, handing it `f`. What the guards hold, and which way it goes, is
/// not modelled.
#[verifier::external_body]
fn ref_filter_map<'b, T: ?Sized, U: ?Sized, F>(orig: Ref<'b, T>, f: F) -> Result<Ref<'b, U>, Ref<'b, T>> where
    F: FnOnce(&T) -> Option<&U>,

    requires
        forall|x: &T| f.requires((x,)),
 {
    Ref::filter_map(orig, f)
}

/// Calls `Ref::deref`. What the guard holds is not modelled.
#[verifier::external_body]
fn ref_deref<'a, 'b, T: ?Sized>(r: &'a Ref<'b, T>) -> &'a T {
    &**r
}

/// Structure used to release the shared read access of a lock.
///
/// This structure is created by the `read` method on [`RwLock`](super::RwLock).
#[verifier::reject_recursive_types(T)]
pub struct RwLockReadGuard<'a, T: ?Sized> {
    pub(super) wake_guard: WakeGuard<'a>,
    pub(super) val: Ref<'a, T>,
}

impl<'a, T: ?Sized> RwLockReadGuard<'a, T> {
    /// The tasks that the release of this guard wakes.
    pub closed spec fn wakers(&self) -> Wakers {
        *self.wake_guard.wakers()
    }

    /// The guard of the access `val`, whose release wakes the tasks of `wake_guard`.
    pub(super) fn new(val: Ref<'a, T>, wake_guard: WakeGuard<'a>) -> (g: Self)
        ensures
            g.wakers() == *wake_guard.wakers(),
    {
        RwLockReadGuard { wake_guard, val }
    }

    /// Makes a new `RwLockReadGuard` for a component of the locked data.
    ///
    /// This operation cannot fail as data is already locked.
    ///
    /// This is an associated function that needs to be used as `RwLockReadGuard::map(...)`. A
    /// method would interfere with methods of the same name on the contents of the underlying
    /// data used through `Deref`.
    pub fn map<U: ?Sized, F>(this: Self, f: F) -> (g: RwLockReadGuard<'a, U>) where
        F: FnOnce(&T) -> &U,
        requires
            forall|x: &T| f.requires((x,)),
        ensures
            g.wakers() == this.wakers(),
    {
        let RwLockReadGuard { wake_guard, val } = this;
        let val = ref_map(val, f);
        RwLockReadGuard { wake_guard, val }
    }

    /// Tries to make a new `RwLockReadGuard` for a component of the locked data. Returns the
    /// original read guard if the closure returns `None`.
    ///
    /// This is an associated function that needs to be used as
    /// `RwLockReadGuard::filter_map(...)`. A method would interfere with methods of the same
    /// name on the contents of the underlying data used through `Deref`.
    pub fn filter_map<U: ?Sized, F>(this: Self, f: F) -> (r: Result<RwLockReadGuard<'a, U>, Self>) where
        F: FnOnce(&T) -> Option<&U>,
        requires
            forall|x: &T| f.requires((x,)),
        ensures
            match r {
                Ok(g) => g.wakers() == this.wakers(),
                Err(g) => g.wakers() == this.wakers(),
            },
    {
        let RwLockReadGuard { wake_guard, val } = this;
        match ref_filter_map(val, f) {
            Ok(val) => Ok(RwLockReadGuard { wake_guard, val }),
            Err(val) => Err(RwLockReadGuard { wake_guard, val }),
        }
    }

    /// Releases the shared read access and hands out the wakers of the tasks waiting for the lock,
    /// oldest first, to be woken. A guard that is merely dropped releases the access without
    /// handing them out.
    pub fn release(this: Self) -> VecDeque<Waker> {
        let RwLockReadGuard { wake_guard, val } = this;
        wake_guard.release()
    }
}

impl<T: ?Sized> std::ops::Deref for RwLockReadGuard<'_, T> {
    type Target = T;

    fn deref(&self) -> &T {
        ref_deref(&self.val)
    }
}

} // verus!
