//! A barrier that lets a fixed number of tasks wait for each other.
//!
//! [`Inner`] counts the tasks that wait in the current round, each with the sending half of a
//! oneshot channel by which it is released. Its transition carries the exact contract.
use std::collections::VecDeque;
use std::task::Waker;

use vstd::cell::invcell::InvCell;
use vstd::predicate::Predicate;
use vstd::prelude::*;

use crate::oneshot;

verus! {

/// A `BarrierWaitResult` is returned by `wait` when all tasks in the [`Barrier`] have
/// rendezvoused.
#[derive(Clone, Copy, Debug)]
pub struct BarrierWaitResult(bool);

impl BarrierWaitResult {
    /// Whether this result belongs to the leader task.
    pub closed spec fn leads(&self) -> bool {
        self.0
    }

    /// The result of one arrival at a barrier: the task that arrived last, and so released the
    /// others without waiting itself, is the leader.
    pub fn of_arrival(arrival: &Option<oneshot::Receiver<()>>) -> (r: Self)
        ensures
            r.leads() == (arrival is None),
    {
        BarrierWaitResult(arrival.is_none())
    }

    /// Returns `true` for the leader of a round.
    ///
    /// In each round exactly one waiter gets a result that returns `true`; all the others get
    /// `false`.
    pub fn is_leader(&self) -> (b: bool)
        ensures
            b == self.leads(),
    {
        self.0
    }
}

/// The state of a barrier: the senders that release the tasks waiting in the current round,
/// and the number of tasks that make up a round.
pub struct Inner {
    wakers: VecDeque<oneshot::Sender<()>>,
    n: usize,
    released: Ghost<Seq<ReleaseChannel>>,
}

/// The cell of the oneshot channel by which one waiting task is released.
pub type ReleaseChannel = InvCell<oneshot::Inner<()>, oneshot::AnyState>;

impl Inner {
    /// The number of tasks that make up a round.
    pub closed spec fn parties(&self) -> nat {
        self.n as nat
    }

    /// The number of tasks waiting in the current round.
    pub closed spec fn waiting(&self) -> nat {
        self.wakers@.len()
    }

    /// The channels of the tasks waiting in the current round, in the order they arrived.
    pub closed spec fn channels(&self) -> Seq<ReleaseChannel> {
        self.wakers@.map_values(|s: oneshot::Sender<()>| s.channel())
    }

    /// The channels that leaders have sent the release on, over all rounds, in the order they
    /// were sent on. The record is kept beside each send.
    pub closed spec fn released(&self) -> Seq<ReleaseChannel> {
        self.released@
    }

    /// A round has at least one party, and fewer tasks wait than make up a round.
    pub open spec fn wf(&self) -> bool {
        0 < self.parties() && self.waiting() < self.parties()
    }

    /// What `wait_impl` returns and does: the arrival that completes a round gets `None`,
    /// sends the release on the channel of every waiting task, in the order they arrived, hands
    /// back the wakers those sends handed back, to be woken, and starts a new round; any other
    /// arrival gets the receiver of a channel that the state keeps the sending half of, behind
    /// those of the tasks already waiting, and no waker.
    pub open spec fn wait_post(
        pre: Self,
        post: Self,
        r: Option<oneshot::Receiver<()>>,
        wakes: Seq<Waker>,
    ) -> bool {
        &&& post.wf()
        &&& post.parties() == pre.parties()
        &&& post.waiting() == post.channels().len()
        &&& if pre.waiting() + 1 == pre.parties() {
            &&& r is None
            &&& post.waiting() == 0
            &&& post.released() == pre.released() + pre.channels()
            &&& wakes.len() <= pre.waiting()
        } else {
            &&& r is Some
            &&& post.waiting() == pre.waiting() + 1
            &&& post.channels() == pre.channels().push(r->0.channel())
            &&& post.released() == pre.released()
            &&& wakes.len() == 0
        }
    }

    /// A barrier for rounds of `n` tasks, with none waiting.
    pub fn new(n: usize) -> (s: Self)
        requires
            n > 0,
        ensures
            s.wf(),
            s.parties() == n,
            s.waiting() == 0,
            s.channels() == Seq::<ReleaseChannel>::empty(),
            s.released() == Seq::<ReleaseChannel>::empty(),
    {
        let s = Inner { wakers: VecDeque::new(), n, released: Ghost(Seq::empty()) };
        assert(s.channels() =~= Seq::<ReleaseChannel>::empty());
        s
    }

    /// One task arrives.
    pub fn wait_impl(&mut self) -> (r: (Option<oneshot::Receiver<()>>, Vec<Waker>))
        requires
            old(self).wf(),
        ensures
            Self::wait_post(*old(self), *final(self), r.0, r.1@),
    {
        let should_wake = self.n - self.wakers.len() == 1;
        if should_wake {
            let n: usize = self.n;
            let ghost start: Seq<ReleaseChannel> = self.released@ + self.channels();
            let ghost waiting: nat = self.wakers@.len();
            let mut wakes: Vec<Waker> = Vec::new();
            loop
                invariant
                    self.n == n,
                    0 < n,
                    self.released@ + self.channels() == start,
                    wakes@.len() + self.wakers@.len() <= waiting,
                ensures
                    self.n == n,
                    self.wakers@.len() == 0,
                    self.released@ == start,
                    wakes@.len() <= waiting,
                decreases self.wakers@.len(),
            {
                let ghost before = self.wakers@;
                match self.wakers.pop_front() {
                    Some(sender) => {
                        let ghost ch = sender.channel();
                        let (_, wake) = sender.send(());
                        if let Some(w) = wake {
                            wakes.push(w);
                        }
                        self.released = Ghost(self.released@.push(ch));
                        assert(before.map_values(|s: oneshot::Sender<()>| s.channel()) =~= seq![
                            ch,
                        ] + self.channels());
                        assert(self.released@ + self.channels() =~= (self.released@.drop_last()
                            + seq![ch]) + self.channels());
                    },
                    None => {
                        break ;
                    },
                }
            }
            (None, wakes)
        } else {
            let (tx, rx) = oneshot::channel();
            let ghost pre = self.channels();
            self.wakers.push_back(tx);
            assert(self.channels() =~= pre.push(rx.channel()));
            (Some(rx), Vec::new())
        }
    }
}

/// The invariant of the cell that holds a barrier's state: a well-formed state for rounds of
/// `n` tasks.
pub struct Parties {
    pub n: usize,
}

impl Predicate<Inner> for Parties {
    open spec fn predicate(&self, v: Inner) -> bool {
        v.wf() && v.parties() == self.n
    }
}

/// A barrier enables multiple tasks to synchronise the beginning of some computation.
///
/// A barrier of `n` blocks `n`-1 tasks which wait on it and then wakes up all tasks at once
/// when the `n`th task waits.
pub struct Barrier {
    n: usize,
    inner: InvCell<Inner, Parties>,
}

impl Barrier {
    #[verifier::type_invariant]
    spec fn holds_rounds_of_n(&self) -> bool {
        0 < self.n && self.inner.predicate() == Parties { n: self.n }
    }

    /// The number of tasks that make up a round.
    pub closed spec fn parties(&self) -> nat {
        self.n as nat
    }

    /// Creates a new barrier that can block a given number of tasks.
    ///
    /// A barrier will block `n`-1 tasks which call `wait` and then wake up all tasks at once
    /// when the `n`th task calls `wait`. A barrier for no task cannot be made.
    pub fn new(n: usize) -> (b: Self)
        requires
            n > 0,
        ensures
            b.parties() == n,
    {
        Barrier { n, inner: InvCell::new(Inner::new(n), Ghost(Parties { n })) }
    }

    /// An arrival at the barrier: `None` for the arrival that completes the round (the leader,
    /// which releases the others and hands back the wakers of those already waiting for the
    /// release, to be woken), or else the receiver by which this waiter is released.
    pub fn arrive(&self) -> (r: (Option<oneshot::Receiver<()>>, Vec<Waker>))
        ensures
            exists|pre: Inner, post: Inner|
                pre.wf() && pre.parties() == self.parties() && Inner::wait_post(pre, post, r.0, r.1@),
    {
        proof {
            use_type_invariant(self);
        }
        let mut st = self.inner.replace(Inner::new(self.n));
        let ghost pre = st;
        let r = st.wait_impl();
        self.inner.set(st);
        assert(pre.wf() && pre.parties() == self.parties() && Inner::wait_post(pre, st, r.0, r.1@));
        r
    }
}

/// The channels of the receivers handed out by the first `k` arrivals of a round.
pub open spec fn handed_out(results: Seq<Option<oneshot::Receiver<()>>>, k: int) -> Seq<
    ReleaseChannel,
> {
    Seq::new(k as nat, |i: int| results[i]->0.channel())
}

/// The state after `k` arrivals of a round that started with no task waiting: `k` tasks wait,
/// each of them given a receiver whose channel the state keeps, in order.
proof fn lemma_round_prefix(
    states: Seq<Inner>,
    results: Seq<Option<oneshot::Receiver<()>>>,
    wakes: Seq<Seq<Waker>>,
    k: int,
)
    requires
        states.len() == results.len() + 1,
        wakes.len() == results.len(),
        states[0].wf(),
        states[0].waiting() == 0,
        results.len() == states[0].parties(),
        forall|i: int|
            0 <= i < results.len() ==> #[trigger] Inner::wait_post(
                states[i],
                states[i + 1],
                results[i],
                wakes[i],
            ),
        0 <= k < results.len(),
    ensures
        states[k].waiting() == k,
        states[k].parties() == states[0].parties(),
        states[k].released() == states[0].released(),
        states[k].channels() == handed_out(results, k),
        forall|i: int| 0 <= i < k ==> #[trigger] results[i] is Some && wakes[i].len() == 0,
    decreases k,
{
    if k > 0 {
        let j: int = k - 1;
        lemma_round_prefix(states, results, wakes, j);
        assert(Inner::wait_post(states[j], states[j + 1], results[j], wakes[j]));
        assert(handed_out(results, j).push(results[j]->0.channel()) =~= handed_out(results, k));
    } else {
        assert(states[0].channels() =~= handed_out(results, 0));
    }
}

/// Each round has exactly one leader, releases all the others and leaves the barrier ready
/// for the next round: of `n` arrivals at a barrier for `n` tasks with none waiting, the first
/// `n - 1` wait, each kept by the channel of the receiver it was given, and the last one leads
/// and sends the release on exactly those `n - 1` channels, in the order the tasks arrived;
/// afterwards no task waits.
pub proof fn law_one_leader_per_round(
    states: Seq<Inner>,
    results: Seq<Option<oneshot::Receiver<()>>>,
    wakes: Seq<Seq<Waker>>,
)
    requires
        states.len() == results.len() + 1,
        wakes.len() == results.len(),
        states[0].wf(),
        states[0].waiting() == 0,
        results.len() == states[0].parties(),
        forall|i: int|
            0 <= i < results.len() ==> #[trigger] Inner::wait_post(
                states[i],
                states[i + 1],
                results[i],
                wakes[i],
            ),
    ensures
        forall|i: int|
            0 <= i < results.len() - 1 ==> #[trigger] results[i] is Some && wakes[i].len() == 0,
        results.last() is None,
        states.last().waiting() == 0,
        states.last().parties() == states[0].parties(),
        states.last().released() == states[0].released() + handed_out(
            results,
            results.len() - 1,
        ),
{
    let n: int = results.len() - 1;
    lemma_round_prefix(states, results, wakes, n);
    assert(Inner::wait_post(states[n], states[n + 1], results[n], wakes[n]));
}

} // verus!
