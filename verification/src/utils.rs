//! Yielding to the other tasks.
use vstd::prelude::*;

use crate::task::Poll;

verus! {

/// One poll of a task that skips one round of execution: the first poll answers `Pending`, on
/// which the caller wakes the task at once; every poll after it answers `Ready`.
pub fn poll_yield(yielded: &mut bool) -> (r: Poll<()>)
    ensures
        *old(yielded) ==> r == Poll::Ready(()),
        !*old(yielded) ==> r is Pending,
        *final(yielded),
{
    if *yielded {
        return Poll::Ready(());
    }
    *yielded = true;
    Poll::Pending
}

} // verus!
