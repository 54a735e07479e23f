//! Blocking, parking and listening.

use suspend::error::LockError;
use suspend::listen::{ListenInner, Listener};
use suspend::poll::Poll;
use suspend::raw_park::parker::{ParkImpl, RawParker};
use suspend::raw_park::state::ParkState;
use suspend::raw_park::step::Means;
use suspend::thread::{
    block_on, block_on_poll, block_on_unpin, park_thread, BlockOn, Context, Listening, PollFn, Step,
    ThreadListen,
};
use suspend::types::{Duration, Expiry, Instant, ParkResult};
use suspend::util::Heap;

/// Polls a function.
struct Polled<F>(F);

impl<T, F: FnMut(&mut Context) -> Poll<T>> PollFn for Polled<F> {
    type Output = T;

    fn poll(&mut self, cx: &mut Context) -> Poll<T> {
        (self.0)(cx)
    }
}

const ALL: [Means; 3] = [Means::Condvar, Means::CondvarExchange, Means::Futex];

#[test]
fn park_thread_timeout() {
    for means in ALL {
        let mut heap: Heap<ListenInner> = Heap::new();
        let mut listener = Listener::new(&mut heap, means);
        let mut guard = listener.get_mut();
        let result = park_thread(&mut heap, &mut guard, |notifier, heap| notifier.drop(heap));
        assert_eq!(result, Poll::Pending);
        match guard.resume(&mut heap, Ok(true)) {
            Poll::Ready(Ok(result)) => assert_eq!(result.timed_out(), true),
            other => panic!("Unexpected result {:?}", other),
        }
    }
}

#[test]
fn block_on_ready() {
    let mut heap: Heap<ListenInner> = Heap::new();
    let mut listener = Listener::new(&mut heap, Means::Futex);
    let mut guard = listener.get_mut();
    let mut fut = Polled(|_cx: &mut Context| Poll::Ready(true));
    assert_eq!(block_on(&mut heap, &mut guard, &mut fut), Step::Done(true));
}

#[test]
fn block_on_timeout() {
    let mut heap: Heap<ListenInner> = Heap::new();
    let mut listener = Listener::new(&mut heap, Means::Futex);
    let mut guard = listener.get_mut();
    let mut block = BlockOn::new();
    let mut poll = Polled(|_cx: &mut Context| Poll::<bool>::Pending);
    assert_eq!(
        block_on_poll(&mut block, &mut heap, &mut guard, &mut poll),
        Step::Wait
    );
    assert_eq!(
        block.resume::<bool>(&mut heap, &mut guard, true),
        Step::TimedOut
    );
    assert_eq!(block_on_unpin("future", Poll::<bool>::Pending), Err("future"));
    assert_eq!(block_on_unpin("future", Poll::Ready(1)), Ok(1));
}

#[test]
fn block_on_repoll() {
    let mut heap: Heap<ListenInner> = Heap::new();
    let mut listener = Listener::new(&mut heap, Means::Futex);
    let mut guard = listener.get_mut();
    let mut ready = false;
    let mut fut = Polled(|cx: &mut Context| {
        if ready {
            Poll::Ready(true)
        } else {
            ready = true;
            cx.wake_by_ref();
            Poll::Pending
        }
    });
    assert_eq!(
        block_on(&mut heap, &mut guard, &mut fut),
        Step::Again { back_off: false }
    );
    assert_eq!(block_on(&mut heap, &mut guard, &mut fut), Step::Done(true));
}

#[test]
fn spinning_thread_backs_off() {
    let mut heap: Heap<ListenInner> = Heap::new();
    let mut listener = Listener::new(&mut heap, Means::Condvar);
    let mut guard = listener.get_mut();
    let mut block = BlockOn::new();
    let mut poll = Polled(|cx: &mut Context| {
        cx.wake_by_ref();
        Poll::<()>::Pending
    });
    for turn in 1..8 {
        assert_eq!(
            block_on_poll(&mut block, &mut heap, &mut guard, &mut poll),
            Step::Again { back_off: turn >= 5 }
        );
    }
    let mut quiet = Polled(|_cx: &mut Context| Poll::<()>::Pending);
    assert_eq!(
        block_on_poll(&mut block, &mut heap, &mut guard, &mut quiet),
        Step::Wait
    );
    assert_eq!(block.resume::<()>(&mut heap, &mut guard, false), Step::Wait);
    guard.wake(&mut heap);
    assert_eq!(
        block.resume::<()>(&mut heap, &mut guard, true),
        Step::Again { back_off: false }
    );
    assert_eq!(
        block_on_poll(&mut block, &mut heap, &mut guard, &mut poll),
        Step::Again { back_off: false }
    );
}

#[test]
fn nested_blocking_uses_another_listener() {
    let mut heap: Heap<ListenInner> = Heap::new();
    let mut thread = ThreadListen::new(&mut heap, Means::Futex);
    let outer = thread.with_listener(&mut heap, Means::Futex);
    let inner = thread.with_listener(&mut heap, Means::Futex);
    match (&outer, &inner) {
        (Listening::Cached(_), Listening::Fresh(listener, _, _)) => {
            assert!(listener.notify(&mut heap));
        }
        _ => panic!("Expected a new listener"),
    }
    thread.leave(&mut heap, inner);
    thread.leave(&mut heap, outer);
    match thread.with_listener(&mut heap, Means::Futex) {
        Listening::Cached(mut guard) => {
            // the notification of the other listener did not come here
            assert_eq!(guard.park(&mut heap), Poll::Pending);
        }
        _ => panic!("Expected the cached listener"),
    }
}

#[test]
fn acquire_contend() {
    for means in ALL {
        let mut lock = ParkImpl::new(means);
        lock.acquire().expect("Error locking");
        assert_eq!(
            lock.acquire().expect_err("Lock should fail"),
            LockError::Contended
        );
    }
}

#[test]
fn park_unpark() {
    for means in ALL {
        let mut lock = ParkImpl::new(means);
        for _ in 0..5 {
            lock.acquire().expect("Error locking");
            assert_eq!(lock.unpark(), true, "Expected notify to succeed");
            assert_eq!(lock.unpark(), false, "Expected one notification");
            match lock.park() {
                Poll::Ready(notified) => {
                    assert_eq!(notified.skipped(), true, "Expected notified before park")
                }
                Poll::Pending => panic!("Expected notified before park"),
            }
            lock.release().expect("Error unlocking");
        }
    }
}

#[test]
fn park_notify_delay() {
    for means in ALL {
        let mut lock = ParkImpl::new(means);
        for _ in 0..5 {
            lock.acquire().expect("Error locking");
            assert_eq!(lock.park(), Poll::Pending);
            assert_eq!(lock.resume(Ok(false)), Poll::Pending);
            assert_eq!(lock.unpark(), true, "Expected notify to succeed");
            assert_eq!(
                lock.resume(Ok(true)),
                Poll::Ready(Ok(ParkResult::Unparked))
            );
            lock.release().expect("Error unlocking");
        }
    }
}

#[test]
fn park_timeout() {
    for means in ALL {
        let mut lock = ParkImpl::new(means);
        for _ in 0..5 {
            lock.acquire().expect("Error locking parker");
            assert_eq!(lock.park(), Poll::Pending);
            assert_eq!(
                lock.resume(Ok(true)),
                Poll::Ready(Ok(ParkResult::TimedOut))
            );
            lock.release().expect("Error unlocking");
        }
    }
}

#[test]
fn failed_wait_ends_the_park() {
    let mut lock = ParkImpl::new(Means::Futex);
    assert_eq!(lock.park(), Poll::Pending);
    assert_eq!(
        lock.resume(Err(LockError::InvalidState)),
        Poll::Ready(Err(LockError::InvalidState))
    );
}

#[test]
fn flags_fit_in_a_word() {
    for word in 0..16 {
        assert_eq!(ParkState::from_bits(word).bits(), word);
    }
    assert_eq!(ParkState::free().bits(), 0);
    assert!(ParkState::from_bits(8).unpark);
}

#[test]
fn listener_is_freed_with_the_last_handle() {
    let mut heap: Heap<ListenInner> = Heap::new();
    let listener = Listener::new(&mut heap, Means::Futex);
    let guard = listener.lock(&mut heap).unwrap();
    assert_eq!(
        listener.lock(&mut heap).unwrap_err(),
        LockError::Contended
    );
    let notifier = guard.notifier(&mut heap);
    let other = notifier.clone(&mut heap);
    let waker = guard.waker(&mut heap);
    let again = waker.clone(&mut heap);
    guard.drop(&mut heap);
    let mut guard = listener.lock(&mut heap).unwrap();
    waker.wake_by_ref(&mut heap);
    assert!(!notifier.notify(&mut heap));
    assert_eq!(guard.park(&mut heap), Poll::Ready(ParkResult::Skipped));
    assert!(listener.notify(&mut heap));
    guard.drop(&mut heap);
    listener.drop(&mut heap);
    notifier.drop(&mut heap);
    other.drop(&mut heap);
    again.wake(&mut heap);
    waker.drop(&mut heap);
}

#[test]
fn expiry_is_relative_to_now() {
    let now = Instant::new(Duration::new(3, 900_000_000));
    let expiry = Expiry::from_duration(Duration::from_millis(200), now);
    assert!(expiry.is_some());
    assert_eq!(
        expiry.into_opt_instant(),
        Some(Instant::new(Duration::new(4, 100_000_000)))
    );
    let later = Instant::new(Duration::from_secs(4));
    assert_eq!(
        expiry.checked_duration(later),
        Some(Duration::from_millis(100))
    );
    assert_eq!(
        expiry.checked_duration(Instant::new(Duration::from_secs(5))),
        None
    );
    assert!(!Expiry::from_opt_duration(None, now).is_some());
    assert_eq!(Expiry::never().checked_duration(now), None);
    assert_eq!(
        Expiry::from_opt_duration(Some(Duration::from_secs(1)), now),
        Expiry::from(Instant::new(Duration::new(4, 900_000_000)))
    );
}

#[test]
fn durations_carry_nanoseconds() {
    let long = Duration::from_millis(1_250);
    assert_eq!(long.as_secs(), 1);
    assert_eq!(long.subsec_nanos(), 250_000_000);
    assert_eq!(
        long.checked_add(Duration::from_millis(750)),
        Some(Duration::from_secs(2))
    );
    assert_eq!(
        Duration::from_secs(2).checked_sub(long),
        Some(Duration::from_millis(750))
    );
    assert_eq!(long.checked_sub(Duration::from_secs(2)), None);
    assert_eq!(
        Duration::from_secs(u64::MAX).checked_add(Duration::from_secs(1)),
        None
    );
    assert_eq!(
        Duration::new(u64::MAX, 999_999_999).checked_add(Duration::new(0, 1)),
        None
    );
}
