use std::sync::atomic::{AtomicUsize, Ordering as AtomicOrdering};
use std::sync::Arc;
use std::task::{Wake, Waker};

use pinned::oneshot::{channel, Inner};
use pinned::task::Poll;

struct CountingWaker {
    wakes: AtomicUsize,
}

impl Wake for CountingWaker {
    fn wake(self: Arc<Self>) {
        self.wakes.fetch_add(1, AtomicOrdering::SeqCst);
    }
}

fn noop() -> Waker {
    Waker::noop().clone()
}

fn wake(w: Option<Waker>) {
    if let Some(w) = w {
        w.wake();
    }
}

#[test]
fn oneshot_works() {
    let (tx, rx) = channel();

    let (r, w) = tx.send(0);
    r.expect("failed to send.");
    wake(w);

    match rx.poll(noop()) {
        Poll::Ready(r) => assert_eq!(r.expect("failed to receive."), 0),
        Poll::Pending => panic!("failed to receive."),
    }
}

#[test]
fn oneshot_drops_sender() {
    let (tx, rx) = channel::<usize>();
    assert!(matches!(rx.poll(noop()), Poll::Pending));

    wake(tx.close());

    match rx.poll(noop()) {
        Poll::Ready(r) => {
            r.expect_err("successful to receive.");
        },
        Poll::Pending => panic!("still pending"),
    }
}

#[test]
fn oneshot_drops_receiver() {
    let (tx, rx) = channel::<usize>();
    rx.close();

    tx.send(0).0.expect_err("successful to send.");
}

#[test]
fn refused_value_comes_back() {
    let (tx, rx) = channel::<String>();
    rx.close();
    assert_eq!(tx.send(String::from("kept")).0.unwrap_err(), "kept");
}

#[test]
fn pending_receiver_waker_is_handed_back_once_by_send() {
    let counter = Arc::new(CountingWaker { wakes: AtomicUsize::new(0) });
    let waker = Waker::from(counter.clone());
    let (tx, rx) = channel::<u8>();
    assert!(matches!(rx.poll(waker.clone()), Poll::Pending));
    let (r, w) = tx.send(9);
    r.unwrap();
    wake(w);
    assert_eq!(counter.wakes.load(AtomicOrdering::SeqCst), 1);
    assert!(matches!(rx.poll(waker.clone()), Poll::Ready(Ok(9))));
    assert!(matches!(rx.poll(waker), Poll::Ready(Err(_))));
}

#[test]
fn pending_receiver_waker_is_handed_back_when_sender_goes() {
    let counter = Arc::new(CountingWaker { wakes: AtomicUsize::new(0) });
    let waker = Waker::from(counter.clone());
    let (tx, rx) = channel::<u8>();
    assert!(matches!(rx.poll(waker.clone()), Poll::Pending));
    wake(tx.close());
    assert_eq!(counter.wakes.load(AtomicOrdering::SeqCst), 1);
    match rx.poll(waker) {
        Poll::Ready(Err(e)) => assert_eq!(e.message(), "channel has been closed."),
        _ => panic!("expected an error"),
    }
}

#[test]
fn inner_state_machine() {
    let mut s: Inner<u8> = Inner::new();
    assert!(matches!(s.poll_impl(noop()), Poll::Pending));
    let (r, w) = s.send_impl(4);
    assert_eq!(r, Ok(()));
    assert!(w.is_some());
    assert!(s.close_impl(true).is_none());
    assert!(matches!(s.poll_impl(noop()), Poll::Ready(Ok(4))));
    assert!(matches!(s.poll_impl(noop()), Poll::Ready(Err(_))));
    assert_eq!(s.send_impl(5).0, Err(5));
}

#[test]
fn inner_send_and_close() {
    let mut s: Inner<u8> = Inner::new();
    assert_eq!(s.send_and_close_impl(3).0, Ok(()));
    assert!(matches!(s.poll_impl(noop()), Poll::Ready(Ok(3))));
    assert!(matches!(s.poll_impl(noop()), Poll::Ready(Err(_))));
    let mut t: Inner<u8> = Inner::new();
    assert!(t.close_impl(false).is_none());
    assert_eq!(t.send_and_close_impl(4).0, Err(4));
}
