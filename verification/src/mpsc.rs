//! A multi-producer, single-receiver channel.
//!
//! This is an asynchronous, `!Send` version of `std::sync::mpsc`. Only the unbounded variant is
//! implemented.
//!
//! [`Inner`] is the state that the handles share: the queue of values, whether the channel is
//! closed, how many senders are alive and the receiver's waker. Its transitions carry the exact
//! contracts; the handles [`UnboundedSender`] and [`UnboundedReceiver`] take the state out of
//! their shared cell, run one transition and put it back. A transition that has to wake the
//! receiver hands its waker back to be woken by the caller.
use std::collections::VecDeque;
use std::rc::Rc;
use std::task::Waker;

use vstd::cell::invcell::InvCell;
use vstd::predicate::Predicate;
use vstd::prelude::*;

use crate::task::Poll;

verus! {

/// Error returned by [`try_next`](UnboundedReceiver::try_next) when the channel is open and
/// empty.
#[derive(Debug)]
pub struct TryRecvError {
    _private: (),
}

impl TryRecvError {
    /// The error.
    pub fn new() -> Self {
        TryRecvError { _private: () }
    }

    /// The error's message.
    pub fn message(&self) -> (m: &'static str)
        ensures
            m@ == "queue is empty"@,
    {
        "queue is empty"
    }
}

/// Error returned by [`send_now`](UnboundedSender::send_now): the channel is closed.
#[derive(Debug)]
pub struct SendError<T> {
    /// The send value.
    pub inner: T,
}

impl<T> SendError<T> {
    /// The error's message.
    pub fn message(&self) -> (m: &'static str)
        ensures
            m@ == "failed to send"@,
    {
        "failed to send"
    }
}

/// Error returned by [`UnboundedSender`] when it is used as a sink.
#[derive(Debug)]
pub struct TrySendError {
    _private: (),
}

impl TrySendError {
    /// The error.
    pub fn new() -> Self {
        TrySendError { _private: () }
    }

    /// The error's message.
    pub fn message(&self) -> (m: &'static str)
        ensures
            m@ == "failed to send"@,
    {
        "failed to send"
    }
}

/// The state shared by the handles of one channel.
pub struct Inner<T> {
    rx_waker: Option<Waker>,
    closed: bool,
    sender_ctr: usize,
    items: VecDeque<T>,
}

impl<T> Inner<T> {
    /// The values sent and not yet received, oldest first.
    pub closed spec fn queue(&self) -> Seq<T> {
        self.items@
    }

    /// Whether the channel accepts no more values.
    pub closed spec fn is_closed(&self) -> bool {
        self.closed
    }

    /// The number of live senders.
    pub closed spec fn senders(&self) -> nat {
        self.sender_ctr as nat
    }

    /// The waker the receiver left, to be woken by the next send or close.
    pub closed spec fn waker(&self) -> Option<Waker> {
        self.rx_waker
    }

    /// Whether the receiver has left a waker.
    pub open spec fn has_waker(&self) -> bool {
        self.waker() is Some
    }

    /// What `close_impl` does: closes the channel and hands back the receiver's waker, to be
    /// woken.
    pub open spec fn close_post(pre: Self, post: Self, wake: Option<Waker>) -> bool {
        &&& post.is_closed()
        &&& post.queue() == pre.queue()
        &&& post.senders() == pre.senders()
        &&& wake == pre.waker()
        &&& post.waker() is None
    }

    /// What `try_next_impl` returns and does.
    pub open spec fn try_next_post(pre: Self, post: Self, r: Result<Option<T>, TryRecvError>) -> bool {
        &&& post.is_closed() == pre.is_closed()
        &&& post.senders() == pre.senders()
        &&& post.waker() == pre.waker()
        &&& if pre.queue().len() > 0 {
            &&& r == Ok::<Option<T>, TryRecvError>(Some(pre.queue()[0]))
            &&& post.queue() == pre.queue().drop_first()
        } else {
            &&& post.queue() == pre.queue()
            &&& if pre.is_closed() {
                r == Ok::<Option<T>, TryRecvError>(None)
            } else {
                r is Err
            }
        }
    }

    /// What `poll_next_impl` returns and does: as `try_next_impl`, but an open empty channel
    /// keeps `waker` and answers `Pending`.
    pub open spec fn poll_next_post(pre: Self, waker: Waker, post: Self, r: Poll<Option<T>>) -> bool {
        &&& post.is_closed() == pre.is_closed()
        &&& post.senders() == pre.senders()
        &&& if pre.queue().len() > 0 {
            &&& r == Poll::Ready(Some(pre.queue()[0]))
            &&& post.queue() == pre.queue().drop_first()
            &&& post.waker() == pre.waker()
        } else if pre.is_closed() {
            &&& r == Poll::<Option<T>>::Ready(None)
            &&& post.queue() == pre.queue()
            &&& post.waker() == pre.waker()
        } else {
            &&& r is Pending
            &&& post.queue() == pre.queue()
            &&& post.waker() == Some(waker)
        }
    }

    /// What `send_impl` returns and does: an open channel queues the value and hands back the
    /// receiver's waker, to be woken; a closed one hands the value back.
    pub open spec fn send_post(
        pre: Self,
        item: T,
        post: Self,
        r: Result<(), SendError<T>>,
        wake: Option<Waker>,
    ) -> bool {
        &&& post.is_closed() == pre.is_closed()
        &&& post.senders() == pre.senders()
        &&& if pre.is_closed() {
            &&& r == Err::<(), SendError<T>>(SendError { inner: item })
            &&& post.queue() == pre.queue()
            &&& post.waker() == pre.waker()
            &&& wake is None
        } else {
            &&& r is Ok
            &&& post.queue() == pre.queue().push(item)
            &&& wake == pre.waker()
            &&& post.waker() is None
        }
    }

    /// What `pre_clone_sender_impl` does.
    pub open spec fn clone_sender_post(pre: Self, post: Self) -> bool {
        &&& post.senders() == pre.senders() + 1
        &&& post.is_closed() == pre.is_closed()
        &&& post.queue() == pre.queue()
        &&& post.waker() == pre.waker()
    }

    /// What `drop_sender_impl` does: the last sender to go closes the channel and hands back
    /// the receiver's waker, to be woken.
    pub open spec fn drop_sender_post(pre: Self, post: Self, wake: Option<Waker>) -> bool {
        &&& post.senders() + 1 == pre.senders()
        &&& post.queue() == pre.queue()
        &&& if post.senders() == 0 {
            &&& post.is_closed()
            &&& wake == pre.waker()
            &&& post.waker() is None
        } else {
            &&& post.is_closed() == pre.is_closed()
            &&& post.waker() == pre.waker()
            &&& wake is None
        }
    }

    /// The state of a new channel: open, empty, one sender, no waker.
    pub fn new() -> (s: Self)
        ensures
            s.queue() == Seq::<T>::empty(),
            !s.is_closed(),
            s.senders() == 1,
            s.waker() is None,
    {
        Inner { rx_waker: None, closed: false, sender_ctr: 1, items: VecDeque::new() }
    }

    /// Closes the channel; hands back the receiver's waker, to be woken.
    pub fn close_impl(&mut self) -> (wake: Option<Waker>)
        ensures
            Self::close_post(*old(self), *final(self), wake),
    {
        self.closed = true;
        self.rx_waker.take()
    }

    /// Takes the oldest value: `Ok(Some(_))` if there is one, `Ok(None)` if the channel is
    /// empty and closed, `Err` if it is empty and open.
    pub fn try_next_impl(&mut self) -> (r: Result<Option<T>, TryRecvError>)
        ensures
            Self::try_next_post(*old(self), *final(self), r),
    {
        match self.items.pop_front() {
            Some(m) => Ok(Some(m)),
            None => {
                if self.closed {
                    Ok(None)
                } else {
                    Err(TryRecvError { _private: () })
                }
            },
        }
    }

    /// As `try_next_impl`, but an open empty channel keeps `waker` to be woken by the next send
    /// or close, and answers `Pending`.
    pub fn poll_next_impl(&mut self, waker: Waker) -> (r: Poll<Option<T>>)
        ensures
            Self::poll_next_post(*old(self), waker, *final(self), r),
    {
        match self.items.pop_front() {
            Some(m) => Poll::Ready(Some(m)),
            None => {
                if self.closed {
                    Poll::Ready(None)
                } else {
                    self.rx_waker = Some(waker);
                    Poll::Pending
                }
            },
        }
    }

    /// Whether the receiver has seen the end of the channel: it is empty and closed.
    pub fn is_terminated_impl(&self) -> (b: bool)
        ensures
            b == (self.queue().len() == 0 && self.is_closed()),
    {
        self.items.len() == 0 && self.closed
    }

    /// Whether the channel is closed.
    pub fn is_closed_impl(&self) -> (b: bool)
        ensures
            b == self.is_closed(),
    {
        self.closed
    }

    /// Appends `item` and hands back the receiver's waker, to be woken, or hands `item` back
    /// if the channel is closed.
    pub fn send_impl(&mut self, item: T) -> (r: (Result<(), SendError<T>>, Option<Waker>))
        ensures
            Self::send_post(*old(self), item, *final(self), r.0, r.1),
    {
        if self.closed {
            return (Err(SendError { inner: item }), None);
        }
        self.items.push_back(item);
        (Ok(()), self.rx_waker.take())
    }

    /// Counts one more sender.
    pub fn pre_clone_sender_impl(&mut self)
        requires
            old(self).senders() < usize::MAX,
        ensures
            Self::clone_sender_post(*old(self), *final(self)),
    {
        self.sender_ctr = self.sender_ctr + 1;
    }

    /// Counts one sender less; when none is left, closes the channel and hands back the
    /// receiver's waker, to be woken.
    pub fn drop_sender_impl(&mut self) -> (wake: Option<Waker>)
        requires
            old(self).senders() > 0,
        ensures
            Self::drop_sender_post(*old(self), *final(self), wake),
    {
        self.sender_ctr = self.sender_ctr - 1;
        if self.sender_ctr == 0 {
            self.close_impl()
        } else {
            None
        }
    }

    /// What `poll_ready_impl` answers: the sender is always ready, with an error exactly when
    /// the channel is closed.
    pub open spec fn poll_ready_post(pre: Self, r: Poll<Result<(), TrySendError>>) -> bool {
        &&& r is Ready
        &&& (r matches Poll::Ready(Err(_))) == pre.is_closed()
    }

    /// Whether a sender can take a value now, as a sink.
    pub fn poll_ready_impl(&self) -> (r: Poll<Result<(), TrySendError>>)
        ensures
            Self::poll_ready_post(*self, r),
    {
        if self.closed {
            Poll::Ready(Err(TrySendError { _private: () }))
        } else {
            Poll::Ready(Ok(()))
        }
    }

    /// What `start_send_impl` returns and does: the send of `send_impl`, answered as a sink.
    pub open spec fn start_send_post(
        pre: Self,
        item: T,
        post: Self,
        r: Result<(), TrySendError>,
        wake: Option<Waker>,
    ) -> bool {
        &&& (r is Ok) == !pre.is_closed()
        &&& Self::send_post(
            pre,
            item,
            post,
            if pre.is_closed() {
                Err(SendError { inner: item })
            } else {
                Ok(())
            },
            wake,
        )
    }

    /// Sends `item` as a sink: as `send_impl`, with the value dropped when it is refused.
    pub fn start_send_impl(&mut self, item: T) -> (r: (Result<(), TrySendError>, Option<Waker>))
        ensures
            Self::start_send_post(*old(self), item, *final(self), r.0, r.1),
    {
        let (s, wake) = self.send_impl(item);
        match s {
            Ok(()) => (Ok(()), wake),
            Err(_) => (Err(TrySendError { _private: () }), wake),
        }
    }

    /// What `clone_sender_impl` does: counts one more sender, unless the count is at the
    /// largest number a `usize` holds.
    pub open spec fn clone_sender_impl_post(pre: Self, post: Self) -> bool {
        if pre.senders() < usize::MAX {
            Self::clone_sender_post(pre, post)
        } else {
            post == pre
        }
    }

    /// Counts a new sender. The count cannot reach `usize::MAX` while the senders exist, as each
    /// holds a strong reference to the shared cell and `Rc` aborts before its count overflows;
    /// at that bound the count is kept as it is.
    pub fn clone_sender_impl(&mut self)
        ensures
            Self::clone_sender_impl_post(*old(self), *final(self)),
    {
        if self.sender_ctr < usize::MAX {
            self.pre_clone_sender_impl();
        }
    }

    /// What `disconnect_impl` does: counts one sender less, closing the channel when none is
    /// left; with no sender counted it changes nothing.
    pub open spec fn disconnect_post(pre: Self, post: Self, wake: Option<Waker>) -> bool {
        if pre.senders() > 0 {
            Self::drop_sender_post(pre, post, wake)
        } else {
            post == pre && wake is None
        }
    }

    /// A sender goes; hands back the receiver's waker if that closes the channel.
    pub fn disconnect_impl(&mut self) -> (wake: Option<Waker>)
        ensures
            Self::disconnect_post(*old(self), *final(self), wake),
    {
        if self.sender_ctr > 0 {
            self.drop_sender_impl()
        } else {
            None
        }
    }
}

/// The invariant of the cell that holds a channel's state: a channel without senders is
/// closed.
pub struct ChannelInv;

impl<T> Predicate<Inner<T>> for ChannelInv {
    open spec fn predicate(&self, v: Inner<T>) -> bool {
        v.senders() == 0 ==> v.is_closed()
    }
}

type Shared<T> = Rc<InvCell<Inner<T>, ChannelInv>>;

/// The receiver of an unbounded mpsc channel.
///
/// This is created by the [`unbounded`] function.
pub struct UnboundedReceiver<T> {
    inner: Shared<T>,
}

impl<T> UnboundedReceiver<T> {
    /// The cell that holds the state of this receiver's channel.
    pub closed spec fn channel(&self) -> InvCell<Inner<T>, ChannelInv> {
        *self.inner
    }

    /// Try to read the next value from the channel.
    ///
    /// This function will return:
    /// - `Ok(Some(T))` if a value is ready.
    /// - `Ok(None)` if the channel has become closed.
    /// - `Err(TryRecvError)` if the channel is not closed and the channel is empty.
    pub fn try_next(&self) -> Result<Option<T>, TryRecvError> {
        let mut st = self.inner.replace(Inner::new());
        let r = st.try_next_impl();
        self.inner.set(st);
        r
    }

    /// Closes the receiver of the channel, and hands back the waker that the receiver left, to
    /// be woken.
    ///
    /// This prevents any further messages from being sent on the channel while still enabling
    /// the receiver to drain messages in the buffer. A receiver that is merely dropped does not
    /// close the channel: its owner calls this first.
    pub fn close(&self) -> Option<Waker> {
        let mut st = self.inner.replace(Inner::new());
        let wake = st.close_impl();
        self.inner.set(st);
        wake
    }

    /// One poll of the receiver as a stream: `Ready(Some(_))` for the next value,
    /// `Ready(None)` at the end of the channel, `Pending` (keeping `waker`) while it is open and
    /// empty.
    pub fn poll_next(&self, waker: Waker) -> Poll<Option<T>> {
        let mut st = self.inner.replace(Inner::new());
        let r = st.poll_next_impl(waker);
        self.inner.set(st);
        r
    }

    /// Whether the stream has ended: the channel is closed and drained.
    pub fn is_terminated(&self) -> bool {
        let st = self.inner.replace(Inner::new());
        let b = st.is_terminated_impl();
        self.inner.set(st);
        b
    }
}

/// The sender of an unbounded mpsc channel.
///
/// This value is created by the [`unbounded`] function.
pub struct UnboundedSender<T> {
    inner: Shared<T>,
}

impl<T> UnboundedSender<T> {
    /// The cell that holds the state of this sender's channel.
    pub closed spec fn channel(&self) -> InvCell<Inner<T>, ChannelInv> {
        *self.inner
    }

    /// Sends a value to the unbounded receiver, and hands back the waker that the receiver
    /// left, to be woken.
    ///
    /// The channel is always ready to take a value while it is open; once it is closed the value
    /// comes back in the error.
    pub fn send_now(&self, item: T) -> (r: (Result<(), SendError<T>>, Option<Waker>))
        ensures
            r.0 matches Err(e) ==> e.inner == item,
    {
        let mut st = self.inner.replace(Inner::new());
        let r = st.send_impl(item);
        self.inner.set(st);
        r
    }

    /// Closes the channel, and hands back the waker that the receiver left, to be woken.
    ///
    /// Every sender (dropped or not) is considered closed when this method is called.
    pub fn close_now(&self) -> Option<Waker> {
        let mut st = self.inner.replace(Inner::new());
        let wake = st.close_impl();
        self.inner.set(st);
        wake
    }

    /// Whether the sender can take a value now, as a sink: always ready, with an error once the
    /// channel is closed.
    pub fn poll_ready(&self) -> (r: Poll<Result<(), TrySendError>>)
        ensures
            r is Ready,
    {
        let st = self.inner.replace(Inner::new());
        let r = st.poll_ready_impl();
        self.inner.set(st);
        r
    }

    /// Sends a value as a sink: as [`send_now`](Self::send_now), with the value dropped on
    /// failure.
    pub fn start_send(&self, item: T) -> (Result<(), TrySendError>, Option<Waker>) {
        let mut st = self.inner.replace(Inner::new());
        let r = st.start_send_impl(item);
        self.inner.set(st);
        r
    }

    /// Gives up this sender: the channel counts one sender less and closes when none is left;
    /// then the waker that the receiver left is handed back, to be woken. A sender that is
    /// merely dropped is still counted: its owner calls this instead.
    pub fn disconnect(self) -> Option<Waker> {
        let mut st = self.inner.replace(Inner::new());
        let wake = st.disconnect_impl();
        self.inner.set(st);
        wake
    }
}

impl<T> Clone for UnboundedSender<T> {
    /// Another sender of the same channel, counted among its senders.
    fn clone(&self) -> (c: Self)
        ensures
            c.channel() == self.channel(),
    {
        let mut st = self.inner.replace(Inner::new());
        st.clone_sender_impl();
        self.inner.set(st);
        UnboundedSender { inner: Rc::clone(&self.inner) }
    }
}

/// Creates an unbounded channel.
///
/// The `send` method on Senders created by this function will always succeed and return
/// immediately as long as the channel is open.
///
/// # Note
///
/// This channel has an infinite buffer and can run out of memory if the channel is not
/// actively drained.
pub fn unbounded<T>() -> (r: (UnboundedSender<T>, UnboundedReceiver<T>))
    ensures
        r.0.channel() == r.1.channel(),
{
    let inner = Rc::new(InvCell::new(Inner::new(), Ghost(ChannelInv)));
    (UnboundedSender { inner: Rc::clone(&inner) }, UnboundedReceiver { inner })
}

/// A closed channel refuses every value and hands it back: after a close, a send fails with
/// the value it was given, the queue is unchanged and no waker is handed back.
pub proof fn law_closed_refuses<T>(
    s0: Inner<T>,
    s1: Inner<T>,
    w1: Option<Waker>,
    s2: Inner<T>,
    item: T,
    r: Result<(), SendError<T>>,
    w2: Option<Waker>,
)
    requires
        Inner::close_post(s0, s1, w1),
        Inner::send_post(s1, item, s2, r, w2),
    ensures
        r == Err::<(), SendError<T>>(SendError { inner: item }),
        s2.queue() == s0.queue(),
        s2.is_closed(),
        w2 is None,
{
}

/// A closed channel still hands out what it holds: after a close, the receiver drains the
/// queued values in order before it sees the end.
pub proof fn law_closed_still_drains<T>(
    s0: Inner<T>,
    s1: Inner<T>,
    w: Option<Waker>,
    s2: Inner<T>,
    r: Result<Option<T>, TryRecvError>,
)
    requires
        Inner::close_post(s0, s1, w),
        Inner::try_next_post(s1, s2, r),
    ensures
        s0.queue().len() > 0 ==> r == Ok::<Option<T>, TryRecvError>(Some(s0.queue()[0])),
        s0.queue().len() == 0 ==> r == Ok::<Option<T>, TryRecvError>(None),
        s2.is_closed(),
{
}

/// The receiver sees the end exactly when the channel is closed and drained: a receive answers
/// `Ok(None)` if and only if the stream has terminated.
pub proof fn law_end_is_termination<T>(
    pre: Inner<T>,
    post: Inner<T>,
    r: Result<Option<T>, TryRecvError>,
)
    requires
        Inner::try_next_post(pre, post, r),
    ensures
        (r == Ok::<Option<T>, TryRecvError>(None)) == (pre.queue().len() == 0 && pre.is_closed()),
{
}

/// The channel closes when its last sender goes, and only then if nothing else closed it.
pub proof fn law_last_sender_closes<T>(pre: Inner<T>, post: Inner<T>, w: Option<Waker>)
    requires
        Inner::drop_sender_post(pre, post, w),
    ensures
        pre.senders() == 1 ==> post.is_closed(),
        pre.senders() > 1 ==> post.is_closed() == pre.is_closed(),
{
}

/// Cloning a sender and dropping one leaves the channel as it was.
pub proof fn law_clone_then_drop<T>(s0: Inner<T>, s1: Inner<T>, s2: Inner<T>, w: Option<Waker>)
    requires
        s0.senders() >= 1,
        Inner::clone_sender_post(s0, s1),
        Inner::drop_sender_post(s1, s2, w),
    ensures
        s2.senders() == s0.senders(),
        s2.is_closed() == s0.is_closed(),
        s2.queue() == s0.queue(),
        s2.waker() == s0.waker(),
        w is None,
{
}

/// A waiting receiver is woken: once a poll has found the channel open and empty and kept the
/// receiver's waker, the next value sent hands exactly that waker back to be woken, and so do a
/// close and the last sender going.
pub proof fn law_waiting_receiver_is_woken<T>(
    s0: Inner<T>,
    waker: Waker,
    s1: Inner<T>,
    r: Poll<Option<T>>,
    s2: Inner<T>,
    item: T,
    rs: Result<(), SendError<T>>,
    w: Option<Waker>,
)
    requires
        Inner::poll_next_post(s0, waker, s1, r),
        r is Pending,
        Inner::send_post(s1, item, s2, rs, w) || Inner::close_post(s1, s2, w) || (
        Inner::drop_sender_post(s1, s2, w) && s1.senders() == 1),
    ensures
        w == Some(waker),
        s2.waker() is None,
{
}

/// One transition of a channel's state, as a handle runs it, with what it answered.
pub enum Step<T> {
    /// `close_impl`, with the waker it handed back.
    Close(Option<Waker>),
    /// `try_next_impl`, with its answer.
    TryNext(Result<Option<T>, TryRecvError>),
    /// `poll_next_impl` with a waker, and its answer.
    PollNext(Waker, Poll<Option<T>>),
    /// `send_impl` of the value, with its answer and the waker it handed back.
    Send(T, Result<(), SendError<T>>, Option<Waker>),
    /// `start_send_impl` of the value, with its answer and the waker it handed back.
    StartSend(T, Result<(), TrySendError>, Option<Waker>),
    /// `clone_sender_impl`.
    CloneSender,
    /// `disconnect_impl`, with the waker it handed back.
    Disconnect(Option<Waker>),
}

/// Whether `step` leads from `pre` to `post`.
pub open spec fn step_post<T>(pre: Inner<T>, step: Step<T>, post: Inner<T>) -> bool {
    match step {
        Step::Close(w) => Inner::close_post(pre, post, w),
        Step::TryNext(r) => Inner::try_next_post(pre, post, r),
        Step::PollNext(waker, r) => Inner::poll_next_post(pre, waker, post, r),
        Step::Send(x, r, w) => Inner::send_post(pre, x, post, r, w),
        Step::StartSend(x, r, w) => Inner::start_send_post(pre, x, post, r, w),
        Step::CloneSender => Inner::clone_sender_impl_post(pre, post),
        Step::Disconnect(w) => Inner::disconnect_post(pre, post, w),
    }
}

/// Whether `states` is a run of the channel through `steps`.
pub open spec fn is_run<T>(states: Seq<Inner<T>>, steps: Seq<Step<T>>) -> bool {
    &&& states.len() == steps.len() + 1
    &&& forall|i: int|
        0 <= i < steps.len() ==> #[trigger] step_post(states[i], steps[i], states[i + 1])
}

/// The value a step accepted into the channel, if any.
pub open spec fn accepted_by<T>(step: Step<T>) -> Seq<T> {
    match step {
        Step::Send(x, Ok(()), _) => seq![x],
        Step::StartSend(x, Ok(()), _) => seq![x],
        _ => Seq::empty(),
    }
}

/// The value a step handed to the receiver, if any.
pub open spec fn received_by<T>(step: Step<T>) -> Seq<T> {
    match step {
        Step::TryNext(Ok(Some(x))) => seq![x],
        Step::PollNext(_, Poll::Ready(Some(x))) => seq![x],
        _ => Seq::empty(),
    }
}

/// The values that a run of steps accepted, in order.
pub open spec fn accepted<T>(steps: Seq<Step<T>>) -> Seq<T>
    decreases steps.len(),
{
    if steps.len() == 0 {
        Seq::empty()
    } else {
        accepted(steps.drop_last()) + accepted_by(steps.last())
    }
}

/// The values that a run of steps handed to the receiver, in order.
pub open spec fn received<T>(steps: Seq<Step<T>>) -> Seq<T>
    decreases steps.len(),
{
    if steps.len() == 0 {
        Seq::empty()
    } else {
        received(steps.drop_last()) + received_by(steps.last())
    }
}

/// One step keeps the queue's accounts: what was queued and what it accepted is what it
/// handed out and what stays queued.
proof fn lemma_step_keeps_queue<T>(pre: Inner<T>, step: Step<T>, post: Inner<T>)
    requires
        step_post(pre, step, post),
    ensures
        pre.queue() + accepted_by(step) == received_by(step) + post.queue(),
{
    match step {
        Step::TryNext(r) => {
            if pre.queue().len() > 0 {
                assert(received_by(step) == seq![pre.queue()[0]]);
                assert(seq![pre.queue()[0]] + pre.queue().drop_first() =~= pre.queue());
            }
            assert(pre.queue() + Seq::<T>::empty() =~= pre.queue());
            assert(Seq::<T>::empty() + post.queue() =~= post.queue());
        },
        Step::PollNext(waker, r) => {
            if pre.queue().len() > 0 {
                assert(received_by(step) == seq![pre.queue()[0]]);
                assert(seq![pre.queue()[0]] + pre.queue().drop_first() =~= pre.queue());
            }
            assert(pre.queue() + Seq::<T>::empty() =~= pre.queue());
            assert(Seq::<T>::empty() + post.queue() =~= post.queue());
        },
        Step::Send(x, r, w) => {
            assert(pre.queue() + seq![x] =~= pre.queue().push(x));
            assert(pre.queue() + Seq::<T>::empty() =~= pre.queue());
            assert(Seq::<T>::empty() + post.queue() =~= post.queue());
        },
        Step::StartSend(x, r, w) => {
            assert(pre.queue() + seq![x] =~= pre.queue().push(x));
            assert(pre.queue() + Seq::<T>::empty() =~= pre.queue());
            assert(Seq::<T>::empty() + post.queue() =~= post.queue());
        },
        _ => {
            assert(pre.queue() + Seq::<T>::empty() =~= pre.queue());
            assert(Seq::<T>::empty() + post.queue() =~= post.queue());
        },
    }
}

/// First in, first out, however the steps interleave: over any run of a channel, the values
/// queued at the start followed by the values accepted are the values handed to the receiver
/// followed by the values still queued at the end.
pub proof fn law_fifo_any_run<T>(states: Seq<Inner<T>>, steps: Seq<Step<T>>)
    requires
        is_run(states, steps),
    ensures
        states[0].queue() + accepted(steps) == received(steps) + states.last().queue(),
    decreases steps.len(),
{
    if steps.len() > 0 {
        let n: int = steps.len() - 1;
        let ps = states.take(n + 1);
        let pt = steps.take(n);
        assert forall|i: int| 0 <= i < pt.len() implies #[trigger] step_post(
            ps[i],
            pt[i],
            ps[i + 1],
        ) by {
            assert(step_post(states[i], steps[i], states[i + 1]));
        }
        law_fifo_any_run(ps, pt);
        assert(pt == steps.drop_last());
        assert(ps.last() == states[n]);
        assert(step_post(states[n], steps[n], states[n + 1]));
        lemma_step_keeps_queue(states[n], steps[n], states[n + 1]);
        let q0 = states[0].queue();
        let a = accepted(pt);
        let r = received(pt);
        let qn = states[n].queue();
        let an = accepted_by(steps[n]);
        let rn = received_by(steps[n]);
        let q1 = states[n + 1].queue();
        assert(q0 + a == r + qn);
        assert(qn + an == rn + q1);
        assert(q0 + (a + an) =~= (q0 + a) + an);
        assert((r + qn) + an =~= r + (qn + an));
        assert(r + (rn + q1) =~= (r + rn) + q1);
    }
}

/// What the receiver gets is a prefix of what was sent, in order, however sends, receives,
/// clones and closes interleave: over any run of a channel that starts empty, the values
/// accepted are the values handed out followed by those still queued.
pub proof fn law_fifo<T>(states: Seq<Inner<T>>, steps: Seq<Step<T>>)
    requires
        is_run(states, steps),
        states[0].queue().len() == 0,
    ensures
        accepted(steps) == received(steps) + states.last().queue(),
        received(steps).len() <= accepted(steps).len(),
        received(steps) == accepted(steps).take(received(steps).len() as int),
{
    law_fifo_any_run(states, steps);
    assert(states[0].queue() + accepted(steps) =~= accepted(steps));
    let r = received(steps);
    assert((r + states.last().queue()).take(r.len() as int) =~= r);
}

/// Closing is final: no step reopens a closed channel, a closed channel accepts nothing, and
/// every send to it hands its value back.
pub proof fn law_closed_stays_closed<T>(pre: Inner<T>, step: Step<T>, post: Inner<T>)
    requires
        step_post(pre, step, post),
        pre.is_closed(),
    ensures
        post.is_closed(),
        accepted_by(step) == Seq::<T>::empty(),
        step matches Step::Send(x, r, _) ==> r == Err::<(), SendError<T>>(SendError { inner: x }),
        step matches Step::StartSend(x, r, _) ==> r is Err,
{
}

/// A closed channel stays closed for every handle, refuses every later send and drains its
/// queue in order: over any run that starts closed, every state is closed, nothing is
/// accepted, every send hands its value back, and the values handed out followed by those
/// still queued are the values queued at the start.
pub proof fn law_closed_run<T>(states: Seq<Inner<T>>, steps: Seq<Step<T>>)
    requires
        is_run(states, steps),
        states[0].is_closed(),
    ensures
        forall|i: int| 0 <= i < states.len() ==> #[trigger] states[i].is_closed(),
        accepted(steps) == Seq::<T>::empty(),
        forall|i: int|
            0 <= i < steps.len() ==> (#[trigger] steps[i] matches Step::Send(x, r, _) ==> r == Err::<
                (),
                SendError<T>,
            >(SendError { inner: x })),
        forall|i: int|
            0 <= i < steps.len() ==> (#[trigger] steps[i] matches Step::StartSend(x, r, _) ==> r is Err),
        received(steps) + states.last().queue() == states[0].queue(),
    decreases steps.len(),
{
    if steps.len() > 0 {
        let n: int = steps.len() - 1;
        let ps = states.take(n + 1);
        let pt = steps.take(n);
        assert forall|i: int| 0 <= i < pt.len() implies #[trigger] step_post(
            ps[i],
            pt[i],
            ps[i + 1],
        ) by {
            assert(step_post(states[i], steps[i], states[i + 1]));
        }
        law_closed_run(ps, pt);
        assert(pt == steps.drop_last());
        assert(step_post(states[n], steps[n], states[n + 1]));
        assert(ps[n] == states[n]);
        law_closed_stays_closed(states[n], steps[n], states[n + 1]);
        assert forall|i: int| 0 <= i < states.len() implies #[trigger] states[i].is_closed() by {
            if i <= n {
                assert(ps[i] == states[i]);
            }
        }
        assert forall|i: int|
            0 <= i < steps.len() implies (#[trigger] steps[i] matches Step::Send(x, r, _) ==> r
            == Err::<(), SendError<T>>(SendError { inner: x })) by {
            assert(step_post(states[i], steps[i], states[i + 1]));
            assert(states[i].is_closed());
        }
        assert forall|i: int|
            0 <= i < steps.len() implies (#[trigger] steps[i] matches Step::StartSend(x, r, _)
            ==> r is Err) by {
            assert(step_post(states[i], steps[i], states[i + 1]));
            assert(states[i].is_closed());
        }
        assert(accepted(pt) + accepted_by(steps[n]) =~= Seq::<T>::empty());
        law_fifo_any_run(states, steps);
        assert(states[0].queue() + accepted(steps) =~= states[0].queue());
    }
}

/// Termination, once reached, stays: over any run that starts closed and empty, every state
/// is closed and empty, and the receiver is handed nothing.
pub proof fn law_termination_stays<T>(states: Seq<Inner<T>>, steps: Seq<Step<T>>)
    requires
        is_run(states, steps),
        states[0].is_closed(),
        states[0].queue().len() == 0,
    ensures
        forall|i: int|
            0 <= i < states.len() ==> #[trigger] states[i].is_closed() && states[i].queue().len()
                == 0,
        received(steps) == Seq::<T>::empty(),
{
    law_closed_run(states, steps);
    assert forall|i: int|
        0 <= i < states.len() implies #[trigger] states[i].is_closed() && states[i].queue().len()
        == 0 by {
        assert(states.take(i + 1).last() == states[i]);
        assert forall|j: int| 0 <= j < steps.take(i).len() implies #[trigger] step_post(
            states.take(i + 1)[j],
            steps.take(i)[j],
            states.take(i + 1)[j + 1],
        ) by {
            assert(step_post(states[j], steps[j], states[j + 1]));
        }
        law_closed_run(states.take(i + 1), steps.take(i));
        assert(received(steps.take(i)) + states[i].queue() == states[0].queue());
    }
    assert(received(steps) + states.last().queue() == states[0].queue());
}

/// The channel closes exactly when its last sender goes: over any run without a close that
/// starts open with a sender, the channel ends closed exactly when some state on the way had no
/// sender.
pub proof fn law_closes_when_last_sender_goes<T>(states: Seq<Inner<T>>, steps: Seq<Step<T>>)
    requires
        is_run(states, steps),
        !states[0].is_closed(),
        states[0].senders() > 0,
        forall|i: int| 0 <= i < steps.len() ==> !(#[trigger] steps[i] is Close),
    ensures
        states.last().is_closed() == exists|i: int|
            0 <= i < states.len() && #[trigger] states[i].senders() == 0,
    decreases steps.len(),
{
    if steps.len() == 0 {
        if exists|i: int| 0 <= i < states.len() && #[trigger] states[i].senders() == 0 {
            let i = choose|i: int| 0 <= i < states.len() && #[trigger] states[i].senders() == 0;
            assert(i == 0);
        }
    } else {
        let n: int = steps.len() - 1;
        let ps = states.take(n + 1);
        let pt = steps.take(n);
        assert forall|i: int| 0 <= i < pt.len() implies #[trigger] step_post(
            ps[i],
            pt[i],
            ps[i + 1],
        ) by {
            assert(step_post(states[i], steps[i], states[i + 1]));
        }
        assert forall|i: int| 0 <= i < pt.len() implies !(#[trigger] pt[i] is Close) by {
            assert(!(steps[i] is Close));
        }
        law_closes_when_last_sender_goes(ps, pt);
        assert(ps.last() == states[n]);
        assert(step_post(states[n], steps[n], states[n + 1]));
        assert(!(steps[n] is Close));
        let before = exists|i: int| 0 <= i < ps.len() && #[trigger] ps[i].senders() == 0;
        let after = exists|i: int| 0 <= i < states.len() && #[trigger] states[i].senders() == 0;
        if before {
            let i = choose|i: int| 0 <= i < ps.len() && #[trigger] ps[i].senders() == 0;
            assert(states[i].senders() == 0);
        }
        if after {
            let i = choose|i: int| 0 <= i < states.len() && #[trigger] states[i].senders() == 0;
            if i <= n {
                assert(ps[i].senders() == 0);
            }
        }
        if states[n + 1].senders() == 0 {
            assert(after);
        }
    }
}

} // verus!
