//! A channel that can pass one single value from a sender to a receiver.
//!
//! [`Inner`] is the state that the two handles share: the value in transit, whether the channel
//! is closed and the receiver's waker. Its transitions carry the exact contracts; a transition
//! that has to wake the receiver hands its waker back to be woken by the caller.
use std::rc::Rc;
use std::task::Waker;

use vstd::cell::invcell::InvCell;
use vstd::predicate::Predicate;
use vstd::prelude::*;

use crate::task::Poll;

verus! {

/// Error returned when the channel is closed before a value is sent to the [`Receiver`].
#[derive(Debug)]
pub struct RecvError {
    _private: (),
}

impl RecvError {
    /// The error.
    pub fn new() -> Self {
        RecvError { _private: () }
    }

    /// The error's message.
    pub fn message(&self) -> (m: &'static str)
        ensures
            m@ == "channel has been closed."@,
    {
        "channel has been closed."
    }
}

/// The state shared by the two handles of one channel.
pub struct Inner<T> {
    rx_waker: Option<Waker>,
    closed: bool,
    item: Option<T>,
}

impl<T> Inner<T> {
    /// The value sent and not yet received.
    pub closed spec fn item(&self) -> Option<T> {
        self.item
    }

    /// Whether one side has gone: the sender after sending or being dropped, or the receiver.
    pub closed spec fn is_closed(&self) -> bool {
        self.closed
    }

    /// The waker the receiver left, to be woken when the value comes or the sender goes.
    pub closed spec fn waker(&self) -> Option<Waker> {
        self.rx_waker
    }

    /// What `poll_impl` returns and does: the value if it has come, an error if the channel
    /// closed without one, else `Pending` with `waker` kept.
    pub open spec fn poll_post(pre: Self, waker: Waker, post: Self, r: Poll<Result<T, RecvError>>) -> bool {
        &&& post.is_closed() == pre.is_closed()
        &&& post.item() is None
        &&& match pre.item() {
            Some(x) => {
                &&& r == Poll::Ready(Ok::<T, RecvError>(x))
                &&& post.waker() == pre.waker()
            },
            None => {
                if pre.is_closed() {
                    &&& r matches Poll::Ready(Err(_))
                    &&& post.waker() == pre.waker()
                } else {
                    &&& r is Pending
                    &&& post.waker() == Some(waker)
                }
            },
        }
    }

    /// What `send_impl` returns and does: a closed channel hands the value back, an open one
    /// keeps it for the receiver and hands back the receiver's waker, to be woken.
    pub open spec fn send_post(pre: Self, item: T, post: Self, r: Result<(), T>, wake: Option<Waker>) -> bool {
        &&& post.is_closed() == pre.is_closed()
        &&& if pre.is_closed() {
            &&& r == Err::<(), T>(item)
            &&& post.item() == pre.item()
            &&& post.waker() == pre.waker()
            &&& wake is None
        } else {
            &&& r is Ok
            &&& post.item() == Some(item)
            &&& wake == pre.waker()
            &&& post.waker() is None
        }
    }

    /// What `close_impl` does: closes the channel; when `wake_recv` is set and no value waits
    /// for the receiver, hands back the receiver's waker, to be woken.
    pub open spec fn close_post(pre: Self, wake_recv: bool, post: Self, wake: Option<Waker>) -> bool {
        &&& post.is_closed()
        &&& post.item() == pre.item()
        &&& if wake_recv && pre.item() is None {
            &&& wake == pre.waker()
            &&& post.waker() is None
        } else {
            &&& wake is None
            &&& post.waker() == pre.waker()
        }
    }

    /// What `send_and_close_impl` returns and does: the send of `send_impl`, after which the
    /// sender is gone and the channel closed. The receiver's waker is handed back, to be woken,
    /// when the value is kept for it, or when the value is refused and none waits for it.
    pub open spec fn send_and_close_post(
        pre: Self,
        item: T,
        post: Self,
        r: Result<(), T>,
        wake: Option<Waker>,
    ) -> bool {
        &&& post.is_closed()
        &&& if pre.is_closed() {
            &&& r == Err::<(), T>(item)
            &&& post.item() == pre.item()
        } else {
            &&& r is Ok
            &&& post.item() == Some(item)
        }
        &&& if !pre.is_closed() || pre.item() is None {
            &&& wake == pre.waker()
            &&& post.waker() is None
        } else {
            &&& wake is None
            &&& post.waker() == pre.waker()
        }
    }

    /// The state of a new channel: open, empty, no waker.
    pub fn new() -> (s: Self)
        ensures
            s.item() is None,
            !s.is_closed(),
            s.waker() is None,
    {
        Inner { rx_waker: None, closed: false, item: None }
    }

    /// One poll of the receiver.
    pub fn poll_impl(&mut self, waker: Waker) -> (r: Poll<Result<T, RecvError>>)
        ensures
            Self::poll_post(*old(self), waker, *final(self), r),
    {
        let taken = self.item.take();
        if let Some(m) = taken {
            return Poll::Ready(Ok(m));
        }
        if self.closed {
            return Poll::Ready(Err(RecvError { _private: () }));
        }
        self.rx_waker = Some(waker);
        Poll::Pending
    }

    /// Leaves `item` for the receiver and hands back its waker, to be woken, or hands `item`
    /// back if the channel is closed.
    pub fn send_impl(&mut self, item: T) -> (r: (Result<(), T>, Option<Waker>))
        ensures
            Self::send_post(*old(self), item, *final(self), r.0, r.1),
    {
        if self.closed {
            return (Err(item), None);
        }
        self.item = Some(item);
        (Ok(()), self.rx_waker.take())
    }

    /// Sends `item` and closes the channel, as a sender does that sends and then goes.
    pub fn send_and_close_impl(&mut self, item: T) -> (r: (Result<(), T>, Option<Waker>))
        ensures
            Self::send_and_close_post(*old(self), item, *final(self), r.0, r.1),
    {
        let (r, sent_wake) = self.send_impl(item);
        let close_wake = self.close_impl(true);
        match sent_wake {
            Some(w) => (r, Some(w)),
            None => (r, close_wake),
        }
    }

    /// Closes the channel; with `wake_recv`, hands back the receiver's waker, to be woken, if
    /// no value is waiting for it.
    pub fn close_impl(&mut self, wake_recv: bool) -> (wake: Option<Waker>)
        ensures
            Self::close_post(*old(self), wake_recv, *final(self), wake),
    {
        self.closed = true;
        if wake_recv && self.item.is_none() {
            self.rx_waker.take()
        } else {
            None
        }
    }
}

/// The invariant of the cell that holds a channel's state: any state.
pub struct AnyState;

impl<T> Predicate<Inner<T>> for AnyState {
    open spec fn predicate(&self, v: Inner<T>) -> bool {
        true
    }
}

type Shared<T> = Rc<InvCell<Inner<T>, AnyState>>;

/// The receiver of a oneshot channel.
///
/// To receive the value, poll the receiver until it is ready.
pub struct Receiver<T> {
    inner: Shared<T>,
}

impl<T> Receiver<T> {
    /// The cell that holds the state of this receiver's channel.
    pub closed spec fn channel(&self) -> InvCell<Inner<T>, AnyState> {
        *self.inner
    }

    /// One poll of the receiver: the value once it has been sent, [`RecvError`] if the sender
    /// went without sending, `Pending` (keeping `waker`) until then.
    pub fn poll(&self, waker: Waker) -> Poll<Result<T, RecvError>> {
        let mut st = self.inner.replace(Inner::new());
        let r = st.poll_impl(waker);
        self.inner.set(st);
        r
    }

    /// Gives up the receiver: later sends fail. A receiver that is merely dropped does not
    /// close the channel: its owner calls this first.
    pub fn close(&self) {
        let mut st = self.inner.replace(Inner::new());
        let _ = st.close_impl(false);
        self.inner.set(st);
    }
}

/// The sender of a oneshot channel.
pub struct Sender<T> {
    inner: Shared<T>,
}

impl<T> Sender<T> {
    /// The cell that holds the state of this sender's channel.
    pub closed spec fn channel(&self) -> InvCell<Inner<T>, AnyState> {
        *self.inner
    }

    /// Send an item to the other side of the channel, consumes the sender, and hands back the
    /// waker that the receiver left, to be woken.
    ///
    /// The value comes back in the error if the receiver has gone. Either way the sender is
    /// gone afterwards, so the channel is closed.
    pub fn send(self, item: T) -> (r: (Result<(), T>, Option<Waker>))
        ensures
            r.0 matches Err(x) ==> x == item,
    {
        let mut st = self.inner.replace(Inner::new());
        let r = st.send_and_close_impl(item);
        self.inner.set(st);
        r
    }

    /// Gives up the sender without sending: the receiver gets [`RecvError`], and the waker it
    /// left is handed back, to be woken. A sender that is merely dropped does not close the
    /// channel: its owner calls this instead.
    pub fn close(self) -> Option<Waker> {
        let mut st = self.inner.replace(Inner::new());
        let wake = st.close_impl(true);
        self.inner.set(st);
        wake
    }
}

/// Creates a oneshot channel.
pub fn channel<T>() -> (r: (Sender<T>, Receiver<T>))
    ensures
        r.0.channel() == r.1.channel(),
{
    let inner = Rc::new(InvCell::new(Inner::new(), Ghost(AnyState)));
    (Sender { inner: Rc::clone(&inner) }, Receiver { inner })
}

/// What a receiver gets is what was sent, once: on an open channel, a sender that sends and
/// goes leaves the value for the receiver, the next poll yields it, and the poll after that
/// fails.
pub proof fn law_receives_sent_value<T>(
    s0: Inner<T>,
    s1: Inner<T>,
    s2: Inner<T>,
    s3: Inner<T>,
    item: T,
    r1: Result<(), T>,
    w1: Option<Waker>,
    k2: Waker,
    r2: Poll<Result<T, RecvError>>,
    k3: Waker,
    r3: Poll<Result<T, RecvError>>,
)
    requires
        !s0.is_closed(),
        Inner::send_and_close_post(s0, item, s1, r1, w1),
        Inner::poll_post(s1, k2, s2, r2),
        Inner::poll_post(s2, k3, s3, r3),
    ensures
        r1 is Ok,
        r2 == Poll::Ready(Ok::<T, RecvError>(item)),
        r3 matches Poll::Ready(Err(_)),
{
}

/// A send after the receiver has gone is refused and the value comes back.
pub proof fn law_send_after_close_refused<T>(
    s0: Inner<T>,
    s1: Inner<T>,
    w1: Option<Waker>,
    s2: Inner<T>,
    item: T,
    r: Result<(), T>,
    w2: Option<Waker>,
)
    requires
        Inner::close_post(s0, false, s1, w1),
        Inner::send_and_close_post(s1, item, s2, r, w2),
    ensures
        r == Err::<(), T>(item),
{
}

/// A sender that goes without sending makes the receiver fail: on a channel with no value in
/// it, a close followed by a poll answers an error.
pub proof fn law_closed_without_value_fails<T>(
    s0: Inner<T>,
    s1: Inner<T>,
    w: Option<Waker>,
    k: Waker,
    s2: Inner<T>,
    r: Poll<Result<T, RecvError>>,
)
    requires
        s0.item() is None,
        Inner::close_post(s0, true, s1, w),
        Inner::poll_post(s1, k, s2, r),
    ensures
        r matches Poll::Ready(Err(_)),
{
}

/// A value is received once: after the receiver has taken it from a closed channel, the next
/// poll answers an error.
pub proof fn law_value_taken_once<T>(
    s0: Inner<T>,
    k1: Waker,
    s1: Inner<T>,
    r1: Poll<Result<T, RecvError>>,
    k2: Waker,
    s2: Inner<T>,
    r2: Poll<Result<T, RecvError>>,
)
    requires
        s0.is_closed(),
        s0.item() is Some,
        Inner::poll_post(s0, k1, s1, r1),
        Inner::poll_post(s1, k2, s2, r2),
    ensures
        r1 == Poll::Ready(Ok::<T, RecvError>(s0.item()->0)),
        r2 matches Poll::Ready(Err(_)),
{
}

/// A waiting receiver is woken: once a poll has kept the receiver's waker, a sender that sends
/// and goes hands exactly that waker back to be woken, and so does a sender that goes without
/// sending.
pub proof fn law_waiting_receiver_is_woken<T>(
    s0: Inner<T>,
    waker: Waker,
    s1: Inner<T>,
    r: Poll<Result<T, RecvError>>,
    s2: Inner<T>,
    item: T,
    rs: Result<(), T>,
    w: Option<Waker>,
)
    requires
        Inner::poll_post(s0, waker, s1, r),
        r is Pending,
        Inner::send_and_close_post(s1, item, s2, rs, w) || Inner::close_post(s1, true, s2, w),
    ensures
        w == Some(waker),
        s2.waker() is None,
{
}

} // verus!
