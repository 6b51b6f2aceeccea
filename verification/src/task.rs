//! Wakers and readiness.
//!
//! Waking a task runs code that the task's executor supplies, and that code may panic. So the
//! library never wakes a task itself: a transition that has to wake one hands its waker back,
//! and the caller wakes it.
use std::task::Waker;

use vstd::prelude::*;

verus! {

/// Whether an operation that may have to wait for another task has completed.
#[derive(Debug, PartialEq, Eq)]
pub enum Poll<T> {
    /// The operation completed with this value.
    Ready(T),
    /// The operation cannot complete yet.
    Pending,
}

#[verifier::external_type_specification]
#[verifier::external_body]
pub struct ExWaker(Waker);

} // verus!
