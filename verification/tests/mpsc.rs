use std::sync::atomic::{AtomicUsize, Ordering as AtomicOrdering};
use std::sync::Arc;
use std::task::{Wake, Waker};

use pinned::mpsc::{unbounded, Inner};
use pinned::task::Poll;

struct CountingWaker {
    wakes: AtomicUsize,
}

impl Wake for CountingWaker {
    fn wake(self: Arc<Self>) {
        self.wakes.fetch_add(1, AtomicOrdering::SeqCst);
    }
}

fn counting_waker() -> (Arc<CountingWaker>, Waker) {
    let counter = Arc::new(CountingWaker { wakes: AtomicUsize::new(0) });
    let waker = Waker::from(counter.clone());
    (counter, waker)
}

fn noop() -> Waker {
    Waker::noop().clone()
}

fn wake(w: Option<Waker>) {
    if let Some(w) = w {
        w.wake();
    }
}

#[test]
fn mpsc_works() {
    let (tx, rx) = unbounded::<usize>();

    for i in 0..10 {
        assert!(matches!(tx.poll_ready(), Poll::Ready(Ok(()))));
        let (r, w) = tx.start_send(i);
        r.expect("failed to send.");
        wake(w);
    }
    wake(tx.disconnect());

    for i in 0..10 {
        let received = match rx.poll_next(noop()) {
            Poll::Ready(Some(v)) => v,
            _ => panic!("failed to receive"),
        };
        assert_eq!(i, received);
    }

    assert_eq!(rx.poll_next(noop()), Poll::Ready(None));
}

#[test]
fn mpsc_drops_receiver() {
    let (tx, rx) = unbounded::<usize>();
    wake(rx.close());

    assert!(matches!(tx.poll_ready(), Poll::Ready(Err(_))));
    tx.start_send(0).0.expect_err("should fail to send.");
}

#[test]
fn mpsc_multi_sender() {
    let (tx, rx) = unbounded::<usize>();

    let tx2 = tx.clone();
    for i in 0..10 {
        if i % 2 == 0 {
            tx.start_send(i).0.expect("failed to send.");
        } else {
            tx2.start_send(i).0.expect("failed to send.");
        }
    }
    wake(tx2.disconnect());
    for i in 10..20 {
        tx.start_send(i).0.expect("failed to send.");
    }
    wake(tx.disconnect());

    for i in 0..20 {
        let received = match rx.poll_next(noop()) {
            Poll::Ready(Some(v)) => v,
            _ => panic!("failed to receive"),
        };
        assert_eq!(i, received);
    }

    assert_eq!(rx.poll_next(noop()), Poll::Ready(None));
}

#[test]
fn mpsc_drops_sender() {
    let (tx, rx) = unbounded::<usize>();
    wake(tx.disconnect());

    assert_eq!(rx.poll_next(noop()), Poll::Ready(None));
}

#[test]
fn try_next_reports_value_empty_and_end() {
    let (tx, rx) = unbounded::<u32>();
    assert!(rx.try_next().is_err());
    tx.send_now(5).0.unwrap();
    tx.send_now(6).0.unwrap();
    assert_eq!(rx.try_next().unwrap(), Some(5));
    wake(tx.close_now());
    assert_eq!(rx.try_next().unwrap(), Some(6));
    assert_eq!(rx.try_next().unwrap(), None);
    assert_eq!(rx.try_next().unwrap(), None);
}

#[test]
fn closed_channel_keeps_values_for_the_receiver() {
    let (tx, rx) = unbounded::<u32>();
    tx.send_now(1).0.unwrap();
    wake(rx.close());
    let (r, w) = tx.send_now(2);
    assert_eq!(r.unwrap_err().inner, 2);
    assert!(w.is_none());
    assert!(!rx.is_terminated());
    assert_eq!(rx.try_next().unwrap(), Some(1));
    assert!(rx.is_terminated());
}

#[test]
fn clone_keeps_channel_open_until_last_sender_goes() {
    let (tx, rx) = unbounded::<u32>();
    let tx2 = tx.clone();
    let tx3 = tx2.clone();
    wake(tx.disconnect());
    wake(tx3.disconnect());
    assert!(rx.try_next().is_err());
    tx2.send_now(3).0.unwrap();
    wake(tx2.disconnect());
    assert_eq!(rx.try_next().unwrap(), Some(3));
    assert_eq!(rx.try_next().unwrap(), None);
}

#[test]
fn pending_receiver_waker_is_handed_back_by_send_and_close() {
    let (counter, waker) = counting_waker();
    let (tx, rx) = unbounded::<u32>();
    assert_eq!(rx.poll_next(waker.clone()), Poll::Pending);
    let (r, w) = tx.send_now(8);
    r.unwrap();
    assert!(w.is_some());
    wake(w);
    assert_eq!(counter.wakes.load(AtomicOrdering::SeqCst), 1);
    // the waker was handed back once; a second send has no waker to hand back
    assert!(tx.send_now(9).1.is_none());
    assert_eq!(rx.poll_next(waker.clone()), Poll::Ready(Some(8)));
    assert_eq!(rx.poll_next(waker.clone()), Poll::Ready(Some(9)));
    assert_eq!(rx.poll_next(waker.clone()), Poll::Pending);
    let w = tx.close_now();
    assert!(w.is_some());
    wake(w);
    assert_eq!(counter.wakes.load(AtomicOrdering::SeqCst), 2);
    assert_eq!(rx.poll_next(waker), Poll::Ready(None));
}

#[test]
fn error_messages() {
    let (tx, rx) = unbounded::<u32>();
    assert_eq!(rx.try_next().unwrap_err().message(), "queue is empty");
    wake(rx.close());
    assert_eq!(tx.send_now(1).0.unwrap_err().message(), "failed to send");
    assert_eq!(tx.start_send(1).0.unwrap_err().message(), "failed to send");
}

#[test]
fn inner_state_machine_is_first_in_first_out() {
    let mut s: Inner<char> = Inner::new();
    assert!(!s.is_closed_impl());
    assert!(s.send_impl('a').0.is_ok());
    assert!(s.send_impl('b').0.is_ok());
    assert_eq!(s.poll_next_impl(noop()), Poll::Ready(Some('a')));
    assert_eq!(s.try_next_impl().unwrap(), Some('b'));
    assert_eq!(s.poll_next_impl(noop()), Poll::Pending);
    s.pre_clone_sender_impl();
    assert!(s.drop_sender_impl().is_none());
    assert!(!s.is_closed_impl());
    assert!(s.drop_sender_impl().is_some());
    assert!(s.is_closed_impl());
    assert!(s.is_terminated_impl());
    assert_eq!(s.send_impl('c').0.unwrap_err().inner, 'c');
    assert_eq!(s.poll_next_impl(noop()), Poll::Ready(None));
}

#[test]
fn inner_sink_steps() {
    let mut s: Inner<u8> = Inner::new();
    assert!(matches!(s.poll_ready_impl(), Poll::Ready(Ok(()))));
    assert!(s.start_send_impl(1).0.is_ok());
    s.clone_sender_impl();
    assert!(s.disconnect_impl().is_none());
    assert!(matches!(s.poll_ready_impl(), Poll::Ready(Ok(()))));
    assert!(s.disconnect_impl().is_none());
    assert!(matches!(s.poll_ready_impl(), Poll::Ready(Err(_))));
    assert!(s.start_send_impl(2).0.is_err());
    // with no sender left, a further disconnect changes nothing
    assert!(s.disconnect_impl().is_none());
    assert_eq!(s.try_next_impl().unwrap(), Some(1));
    assert_eq!(s.try_next_impl().unwrap(), None);
}
