//! A waker collection.
//!
//! All pending tasks are woken on each release, as a task is not guaranteed to be actively
//! polled or may already be cancelled. Waking runs code of the tasks' executor, so the wakers
//! are handed to the caller, who wakes them.
use std::collections::VecDeque;
use std::task::Waker;

use vstd::cell::invcell::InvCell;
use vstd::predicate::Predicate;
use vstd::prelude::*;

use super::error::TryLockResult;
use crate::task::Poll;

verus! {

/// The wakers of the tasks that wait for a lock release, in the order they started waiting.
pub struct WakerQueue {
    wakers: VecDeque<Waker>,
}

impl WakerQueue {
    /// The wakers held, oldest first.
    pub closed spec fn queue(&self) -> Seq<Waker> {
        self.wakers@
    }

    /// The number of wakers held.
    pub open spec fn len(&self) -> nat {
        self.queue().len()
    }

    /// What `push_impl` does: `w` is held behind the others.
    pub open spec fn push_post(pre: Self, w: Waker, post: Self) -> bool {
        post.queue() == pre.queue().push(w)
    }

    /// What `take_all_impl` does: every waker held is handed out, oldest first, and none is
    /// kept.
    pub open spec fn take_all_post(pre: Self, post: Self, ws: Seq<Waker>) -> bool {
        &&& ws == pre.queue()
        &&& post.len() == 0
    }

    /// What `settle_impl` answers and does: a granted attempt answers its guard and leaves the
    /// queue alone; a refused one keeps `waker` behind the others and answers `Pending`.
    pub open spec fn settle_post<G>(
        pre: Self,
        attempt: TryLockResult<G>,
        waker: Waker,
        post: Self,
        r: Poll<G>,
    ) -> bool {
        match attempt {
            Ok(g) => r == Poll::Ready(g) && post == pre,
            Err(_) => r is Pending && Self::push_post(pre, waker, post),
        }
    }

    /// An empty queue.
    pub fn new() -> (q: Self)
        ensures
            q.len() == 0,
    {
        WakerQueue { wakers: VecDeque::new() }
    }

    /// Keeps one more waker.
    pub fn push_impl(&mut self, w: Waker)
        ensures
            Self::push_post(*old(self), w, *final(self)),
    {
        self.wakers.push_back(w);
    }

    /// Answers an attempt to acquire the lock: the guard of a granted attempt is ready; after a
    /// refused one, the task's waker waits for the next release.
    pub fn settle_impl<G>(&mut self, attempt: TryLockResult<G>, waker: Waker) -> (r: Poll<G>)
        ensures
            Self::settle_post(*old(self), attempt, waker, *final(self), r),
    {
        match attempt {
            Ok(g) => Poll::Ready(g),
            Err(_) => {
                self.push_impl(waker);
                Poll::Pending
            },
        }
    }

    /// Hands out every waker held, oldest first, and forgets them.
    pub fn take_all_impl(&mut self) -> (ws: VecDeque<Waker>)
        ensures
            Self::take_all_post(*old(self), *final(self), ws@),
    {
        let mut ws: VecDeque<Waker> = VecDeque::new();
        std::mem::swap(&mut ws, &mut self.wakers);
        ws
    }
}

/// The invariant of the cell that holds the queue: any queue.
pub struct AnyQueue;

impl Predicate<WakerQueue> for AnyQueue {
    open spec fn predicate(&self, v: WakerQueue) -> bool {
        true
    }
}

/// The tasks waiting for a lock release.
pub struct Wakers {
    inner: InvCell<WakerQueue, AnyQueue>,
}

/// A claim on a lock: when it is released, every waiting task is to be woken.
pub struct WakeGuard<'a> {
    wakers: &'a Wakers,
}

impl<'a> WakeGuard<'a> {
    /// The collection whose tasks the release wakes.
    pub closed spec fn wakers(&self) -> &'a Wakers {
        self.wakers
    }

    /// Releases the claim: hands out the wakers of every waiting task, oldest first, to be
    /// woken.
    pub fn release(self) -> VecDeque<Waker> {
        self.wakers.wake_all()
    }
}

impl Wakers {
    /// An empty collection.
    pub fn new() -> Self {
        Wakers { inner: InvCell::new(WakerQueue::new(), Ghost(AnyQueue)) }
    }

    /// Adds the waker of a task that waits for the next release.
    pub fn push(&self, w: Waker) {
        let mut q = self.inner.replace(WakerQueue::new());
        q.push_impl(w);
        self.inner.set(q);
    }

    /// Answers an attempt to acquire the lock: the guard of a granted attempt is ready; after a
    /// refused one, `waker` is kept for the next release and the answer is `Pending`.
    pub fn settle<G>(&self, attempt: TryLockResult<G>, waker: Waker) -> (r: Poll<G>)
        ensures
            attempt matches Ok(g) ==> r == Poll::Ready(g),
            attempt is Err ==> r is Pending,
    {
        let mut q = self.inner.replace(WakerQueue::new());
        let r = q.settle_impl(attempt, waker);
        self.inner.set(q);
        r
    }

    /// A claim that wakes the tasks of this collection when it is released.
    pub fn wake_guard(&self) -> (g: WakeGuard<'_>)
        ensures
            g.wakers() == self,
    {
        WakeGuard { wakers: self }
    }

    /// Empties the collection and hands out the wakers of every waiting task, oldest first, to
    /// be woken. The collection is emptied before any task is woken, so a task that starts
    /// waiting while the others are woken waits for the next release.
    pub fn wake_all(&self) -> VecDeque<Waker> {
        let mut q = self.inner.replace(WakerQueue::new());
        q.take_all_impl()
    }
}

/// After `k` waiters have left their wakers in an empty queue, the queue holds the first `k`
/// of them, in order.
proof fn lemma_queue_holds_pushed(states: Seq<WakerQueue>, ws: Seq<Waker>, k: int)
    requires
        states.len() == ws.len() + 1,
        states[0].len() == 0,
        forall|i: int|
            0 <= i < ws.len() ==> #[trigger] WakerQueue::push_post(states[i], ws[i], states[i + 1]),
        0 <= k <= ws.len(),
    ensures
        states[k].queue() == ws.take(k),
    decreases k,
{
    if k > 0 {
        let j: int = k - 1;
        lemma_queue_holds_pushed(states, ws, j);
        assert(WakerQueue::push_post(states[j], ws[j], states[j + 1]));
        assert(ws.take(j).push(ws[j]) =~= ws.take(k));
    } else {
        assert(states[0].queue() =~= ws.take(0));
    }
}

/// A release wakes every task that waits for it, in the order they started waiting: when
/// waiters leave the wakers `ws` one after another in an empty queue, the release hands out
/// exactly `ws`, in that order, and keeps none.
pub proof fn law_release_wakes_every_waiter(
    states: Seq<WakerQueue>,
    ws: Seq<Waker>,
    last: WakerQueue,
    out: Seq<Waker>,
)
    requires
        states.len() == ws.len() + 1,
        states[0].len() == 0,
        forall|i: int|
            0 <= i < ws.len() ==> #[trigger] WakerQueue::push_post(states[i], ws[i], states[i + 1]),
        WakerQueue::take_all_post(states.last(), last, out),
    ensures
        out == ws,
        last.len() == 0,
{
    lemma_queue_holds_pushed(states, ws, ws.len() as int);
    assert(ws.take(ws.len() as int) =~= ws);
}

} // verus!
