use std::sync::atomic::{AtomicUsize, Ordering as AtomicOrdering};
use std::sync::Arc;
use std::task::{Wake, Waker};

use pinned::rwlock::{Acquire, RwLock, RwLockReadGuard, RwLockWriteGuard};
use pinned::task::Poll;

struct CountingWaker {
    wakes: AtomicUsize,
}

impl Wake for CountingWaker {
    fn wake(self: Arc<Self>) {
        self.wakes.fetch_add(1, AtomicOrdering::SeqCst);
    }
}

fn noop() -> Waker {
    Waker::noop().clone()
}

fn wake_all(ws: std::collections::VecDeque<Waker>) {
    for w in ws {
        w.wake();
    }
}

fn read_now<T>(lock: &RwLock<T>) -> RwLockReadGuard<'_, T> {
    let mut yielded = false;
    assert!(matches!(lock.poll_read(&mut yielded, noop()), Acquire::Yield));
    match lock.poll_read(&mut yielded, noop()) {
        Acquire::Ready(g) => g,
        _ => panic!("read lock not acquired"),
    }
}

fn write_now<T>(lock: &RwLock<T>) -> RwLockWriteGuard<'_, T> {
    let mut yielded = false;
    assert!(matches!(lock.poll_write(&mut yielded, noop()), Acquire::Yield));
    match lock.poll_write(&mut yielded, noop()) {
        Acquire::Ready(g) => g,
        _ => panic!("write lock not acquired"),
    }
}

#[test]
fn into_inner() {
    let rwlock = RwLock::new(42);
    assert_eq!(rwlock.into_inner(), 42);
}

#[test]
fn read_shared() {
    let rwlock = RwLock::new(100);

    let _r1 = read_now(&rwlock);
    let _r2 = read_now(&rwlock);
}

#[test]
fn write_shared_pending() {
    let waker = noop();
    let rwlock = RwLock::new(100);

    let _r1 = read_now(&rwlock);
    let mut yielded = false;
    for _ in 0..5 {
        assert!(!matches!(rwlock.poll_write(&mut yielded, waker.clone()), Acquire::Ready(_)));
    }
}

#[test]
fn read_exclusive_pending() {
    let waker = noop();
    let rwlock = RwLock::new(100);

    let _w1 = write_now(&rwlock);
    let mut yielded = false;
    for _ in 0..5 {
        assert!(!matches!(rwlock.poll_read(&mut yielded, waker.clone()), Acquire::Ready(_)));
    }
}

#[test]
fn write_exclusive_pending() {
    let waker = noop();
    let rwlock = RwLock::new(100);

    let _w1 = write_now(&rwlock);
    let mut yielded = false;
    for _ in 0..5 {
        assert!(!matches!(rwlock.poll_write(&mut yielded, waker.clone()), Acquire::Ready(_)));
    }
}

#[test]
fn write_shared_drop() {
    let counter = Arc::new(CountingWaker { wakes: AtomicUsize::new(0) });
    let waker = Waker::from(counter.clone());
    let rwlock = RwLock::new(100);

    let w1 = write_now(&rwlock);

    let mut yielded = false;
    assert!(!matches!(rwlock.poll_write(&mut yielded, waker.clone()), Acquire::Ready(_)));
    assert!(!matches!(rwlock.poll_write(&mut yielded, waker.clone()), Acquire::Ready(_)));
    assert!(!matches!(rwlock.poll_write(&mut yielded, waker.clone()), Acquire::Ready(_)));
    let woken_before = counter.wakes.load(AtomicOrdering::SeqCst);

    wake_all(RwLockWriteGuard::release(w1));
    assert!(counter.wakes.load(AtomicOrdering::SeqCst) > woken_before);

    assert!(matches!(rwlock.poll_write(&mut yielded, waker.clone()), Acquire::Ready(_)));
}

#[test]
fn write_pending_read_shared_ready() {
    let waker = noop();
    let rwlock = RwLock::new(100);

    let _r1 = read_now(&rwlock);
    let _r2 = read_now(&rwlock);

    let mut yielded = false;
    assert!(!matches!(rwlock.poll_write(&mut yielded, waker.clone()), Acquire::Ready(_)));
    assert!(!matches!(rwlock.poll_write(&mut yielded, waker.clone()), Acquire::Ready(_)));
    assert!(!matches!(rwlock.poll_write(&mut yielded, waker.clone()), Acquire::Ready(_)));
    let _r3 = read_now(&rwlock);

    assert!(!matches!(rwlock.poll_write(&mut yielded, waker.clone()), Acquire::Ready(_)));
}

#[test]
fn read_uncontested() {
    let rwlock = RwLock::new(100);
    let result = *read_now(&rwlock);

    assert_eq!(result, 100);
}

#[test]
fn write_uncontested() {
    let rwlock = RwLock::new(100);
    let mut result = write_now(&rwlock);
    *result += 50;
    assert_eq!(*result, 150);
}

#[test]
fn write_order() {
    let waker = noop();
    let rwlock = RwLock::<Vec<u32>>::new(vec![]);
    let mut yielded2 = false;
    let mut yielded1 = false;
    // both writers are created; the second one is driven to completion first
    assert!(!matches!(rwlock.poll_write(&mut yielded1, waker.clone()), Acquire::Ready(_)));
    match rwlock.poll_write(&mut yielded1, waker.clone()) {
        Acquire::Ready(mut guard) => guard.push(1),
        _ => panic!("write lock not acquired"),
    }
    assert!(!matches!(rwlock.poll_write(&mut yielded2, waker.clone()), Acquire::Ready(_)));
    match rwlock.poll_write(&mut yielded2, waker.clone()) {
        Acquire::Ready(mut guard) => guard.push(2),
        _ => panic!("write lock not acquired"),
    }

    let g = read_now(&rwlock);
    assert_eq!(*g, vec![1, 2]);
}

#[test]
fn try_write() {
    let lock = RwLock::new(0);
    let read_guard = read_now(&lock);
    assert!(lock.try_write().is_err());
    drop(read_guard);
    assert!(lock.try_write().is_ok());
}

#[test]
fn try_read_try_write() {
    let lock: RwLock<usize> = RwLock::new(15);

    {
        let rg1 = lock.try_read().unwrap();
        assert_eq!(*rg1, 15);

        assert!(lock.try_write().is_err());

        let rg2 = lock.try_read().unwrap();
        assert_eq!(*rg2, 15)
    }

    {
        let mut wg = lock.try_write().unwrap();
        *wg = 1515;

        assert!(lock.try_read().is_err())
    }

    assert_eq!(*lock.try_read().unwrap(), 1515);
}

#[test]
fn guards_map_to_components() {
    let lock = RwLock::new((1u8, String::from("x")));
    {
        let g = RwLockWriteGuard::map(lock.try_write().unwrap(), |v| &mut v.1);
        let mut g = g;
        g.push('y');
    }
    let r = RwLockReadGuard::map(lock.try_read().unwrap(), |v| &v.1);
    assert_eq!(&*r, "xy");
    let missing = RwLockReadGuard::filter_map(r, |v| v.get(5..));
    let r = missing.err().expect("no such component");
    let found = RwLockReadGuard::filter_map(r, |v| v.get(1..));
    assert_eq!(&*found.ok().unwrap(), "y");
}

#[test]
fn write_guard_filter_map() {
    let lock = RwLock::new(vec![1, 2, 3]);
    {
        let g = lock.try_write().unwrap();
        let mut first = RwLockWriteGuard::filter_map(g, |v| v.first_mut()).ok().unwrap();
        *first = 10;
        wake_all(RwLockWriteGuard::release(first));
    }
    let mut lock = lock;
    lock.get_mut().push(4);
    assert_eq!(lock.into_inner(), vec![10, 2, 3, 4]);
}

#[test]
fn try_lock_error_message() {
    let lock = RwLock::new(0);
    let _w = lock.try_write().unwrap();
    assert_eq!(lock.try_read().err().unwrap().message(), "this operation would block.");
}

#[test]
fn release_wakes_every_waiter() {
    let counter = Arc::new(CountingWaker { wakes: AtomicUsize::new(0) });
    let waker = Waker::from(counter.clone());
    let lock = RwLock::new(0);
    let w = lock.try_write().unwrap();
    let mut y1 = true;
    let mut y2 = true;
    assert!(!matches!(lock.poll_read(&mut y1, waker.clone()), Acquire::Ready(_)));
    assert!(!matches!(lock.poll_write(&mut y2, waker.clone()), Acquire::Ready(_)));
    wake_all(RwLockWriteGuard::release(w));
    assert_eq!(counter.wakes.load(AtomicOrdering::SeqCst), 2);
    let r = match lock.poll_read(&mut y1, waker.clone()) {
        Acquire::Ready(g) => g,
        _ => panic!("read lock not acquired"),
    };
    assert!(!matches!(lock.poll_write(&mut y2, waker.clone()), Acquire::Ready(_)));
    wake_all(RwLockReadGuard::release(r));
    assert_eq!(counter.wakes.load(AtomicOrdering::SeqCst), 3);
}

#[test]
fn settle_answers_the_attempt() {
    let counter = Arc::new(CountingWaker { wakes: AtomicUsize::new(0) });
    let waker = Waker::from(counter.clone());
    let lock = RwLock::new(7);
    let wakers = pinned::rwlock::Wakers::new();
    let granted = wakers.settle(lock.try_read(), waker.clone());
    match granted {
        Poll::Ready(g) => assert_eq!(*g, 7),
        Poll::Pending => panic!("a granted attempt is ready"),
    }
    let w = lock.try_write().unwrap();
    assert!(matches!(wakers.settle(lock.try_read(), waker.clone()), Poll::Pending));
    wake_all(wakers.wake_all());
    assert_eq!(counter.wakes.load(AtomicOrdering::SeqCst), 1);
    drop(w);
}
