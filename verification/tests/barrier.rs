use std::task::Waker;

use pinned::barrier::{Barrier, BarrierWaitResult, Inner};
use pinned::task::Poll;

#[test]
fn test_barrier() {
    const N: usize = 10;
    let waker = Waker::noop();
    let barrier = Barrier::new(N);

    let mut receivers = Vec::new();
    for _ in 0..N - 1 {
        let (arrival, wakers) = barrier.arrive();
        assert!(wakers.is_empty());
        assert!(!BarrierWaitResult::of_arrival(&arrival).is_leader());
        receivers.push(arrival.expect("a follower waits"));
    }

    // At this point, all followers should be blocked.
    for rx in &receivers {
        assert!(matches!(rx.poll(waker.clone()), Poll::Pending));
    }

    let (arrival, wakers) = barrier.arrive();
    assert_eq!(wakers.len(), N - 1);
    let leader_found = BarrierWaitResult::of_arrival(&arrival).is_leader();
    assert!(leader_found);
    assert!(arrival.is_none());

    // Now, the barrier is cleared and every follower is released.
    for rx in &receivers {
        assert!(matches!(rx.poll(waker.clone()), Poll::Ready(Ok(()))));
    }
}

#[test]
fn barrier_is_reusable() {
    let barrier = Barrier::new(3);
    for _round in 0..4 {
        let mut leaders: usize = 0;
        for _ in 0..3 {
            if BarrierWaitResult::of_arrival(&barrier.arrive().0).is_leader() {
                leaders += 1;
            }
        }
        assert_eq!(leaders, 1);
    }
}

#[test]
fn barrier_of_one_always_leads() {
    let barrier = Barrier::new(1);
    assert!(barrier.arrive().0.is_none());
    assert!(barrier.arrive().0.is_none());
}

#[test]
fn inner_round() {
    let waker = Waker::noop();
    let mut s = Inner::new(2);
    let first = s.wait_impl().0.expect("first waits");
    assert!(matches!(first.poll(waker.clone()), Poll::Pending));
    let (leader, wakers) = s.wait_impl();
    assert!(leader.is_none());
    // the waiter's waker is handed back to be woken
    assert_eq!(wakers.len(), 1);
    assert!(matches!(first.poll(waker.clone()), Poll::Ready(Ok(()))));
    assert!(s.wait_impl().0.is_some());
}

