//! Locks, and what the system's answers mean.

use suspend::error::LockError;
use suspend::lock::Lock;
use suspend::poll::Poll;
use suspend::raw_lock::futex::{futex_wait_plan, futex_wait_result, futex_wake_result, FutexWait};
use suspend::raw_lock::native::{LockImpl, RawGuard, RawInit, RawLock, WaitPlan};
use suspend::raw_lock::pthread::{
    lock_result, timed_wait_result, timeout_to_timespec, try_lock_result, wait_result, Errno,
    Timespec,
};
use suspend::types::{Duration, Expiry, Instant};

#[test]
fn lock_contend() {
    let mut lock = Lock::new(false);
    let _guard = match lock.lock() {
        Poll::Ready(result) => result.expect("Error acquiring lock"),
        Poll::Pending => panic!("Error acquiring lock"),
    };
    assert_eq!(
        lock.try_lock().err().expect("Expected lock contention"),
        LockError::Contended
    );
}

#[test]
fn value_is_changed_under_the_lock() {
    let mut lock = Lock::from(1);
    let mut guard = lock.try_lock().unwrap();
    assert!(matches!(lock.lock(), Poll::Pending));
    *guard.get_mut(&mut lock) = 2;
    assert_eq!(*guard.get(&lock), 2);
    guard.drop(&mut lock, false);
    let guard = lock.try_lock().unwrap();
    guard.drop(&mut lock, false);
    assert_eq!(lock.into_inner(), 2);
}

#[test]
fn panic_poisons_the_lock() {
    let mut lock: Lock<u8> = Lock::default();
    let guard = lock.try_lock().unwrap();
    guard.drop(&mut lock, true);
    assert_eq!(lock.try_lock().err(), Some(LockError::Poisoned));
    assert!(matches!(
        lock.lock(),
        Poll::Ready(Err(LockError::Poisoned))
    ));
}

#[test]
fn lock_is_free_during_a_wait() {
    let now = Instant::new(Duration::from_secs(10));
    let mut lock = Lock::new(());
    let guard = lock.try_lock().unwrap();
    let late = Expiry::from(Instant::new(Duration::from_secs(9)));
    let (guard, timed_out) = guard.wait(&mut lock, late, now).unwrap();
    assert!(timed_out);
    assert!(guard.wait(&mut lock, Expiry::never(), now).is_none());
    let other = lock.try_lock().unwrap();
    assert!(matches!(lock.wait_end(false), Poll::Pending));
    other.drop(&mut lock, false);
    assert!(matches!(lock.wait_end(false), Poll::Ready(Ok((_, false)))));
    assert_eq!(lock.try_lock().err(), Some(LockError::Contended));
}

#[test]
fn signals_go_to_waiters() {
    let mut lock = LockImpl::new();
    lock.notify_one();
    let guard = lock.try_lock().unwrap();
    assert!(guard.wait(&mut lock, WaitPlan::Forever).is_none());
    lock.notify_one();
    lock.notify_all();
    assert!(matches!(lock.wait_end(true), Poll::Ready(Ok((_, true)))));
}

#[test]
fn relative_timeouts() {
    let now = Instant::new(Duration::from_secs(10));
    assert!(matches!(WaitPlan::new(None, now), WaitPlan::Forever));
    let past = Instant::new(Duration::new(9, 999_999_999));
    assert!(matches!(WaitPlan::new(Some(past), now), WaitPlan::Expired));
    assert!(matches!(futex_wait_plan(WaitPlan::Expired), FutexWait::Expired));
    let soon = now.checked_add(Duration::from_millis(1500)).unwrap();
    match futex_wait_plan(WaitPlan::new(Some(soon), now)) {
        FutexWait::Timed(ts) => {
            assert_eq!(ts, Timespec { tv_sec: 1, tv_nsec: 500_000_000 });
        }
        _ => panic!("Expected a timeout"),
    }
    let never = WaitPlan::Until(Duration::from_secs(u64::MAX));
    assert!(matches!(futex_wait_plan(never), FutexWait::Untimed));
}

#[test]
fn absolute_timeouts() {
    let now = Timespec { tv_sec: 5, tv_nsec: 700_000_000 };
    assert_eq!(
        timeout_to_timespec(Duration::from_millis(1500), now),
        Some(Timespec { tv_sec: 7, tv_nsec: 200_000_000 })
    );
    assert_eq!(timeout_to_timespec(Duration::from_secs(u64::MAX), now), None);
    assert_eq!(
        timeout_to_timespec(Duration::from_secs(i64::MAX as u64), now),
        None
    );
    let edge = Timespec { tv_sec: i64::MAX - 1, tv_nsec: 999_999_999 };
    assert_eq!(
        timeout_to_timespec(Duration::new(1, 0), edge),
        Some(Timespec { tv_sec: i64::MAX, tv_nsec: 999_999_999 })
    );
    assert_eq!(timeout_to_timespec(Duration::new(1, 1), edge), None);
}

#[test]
fn answers_of_the_system() {
    assert_eq!(futex_wait_result(Ok(()), true), Ok(false));
    assert_eq!(futex_wait_result(Err(Errno::TimedOut), true), Ok(true));
    assert_eq!(
        futex_wait_result(Err(Errno::TimedOut), false),
        Err(LockError::InvalidState)
    );
    assert_eq!(futex_wait_result(Err(Errno::Interrupted), false), Ok(false));
    assert_eq!(futex_wait_result(Err(Errno::Again), false), Ok(false));
    assert_eq!(
        futex_wait_result(Err(Errno::Other), true),
        Err(LockError::InvalidState)
    );
    assert!(futex_wake_result(1));
    assert!(!futex_wake_result(0));
    assert_eq!(lock_result(Ok(())), Ok(()));
    assert_eq!(lock_result(Err(Errno::Busy)), Err(LockError::InvalidState));
    assert_eq!(try_lock_result(Err(Errno::Busy)), Err(LockError::Contended));
    assert_eq!(
        try_lock_result(Err(Errno::Invalid)),
        Err(LockError::InvalidState)
    );
    assert_eq!(wait_result(Ok(())), Ok(false));
    assert_eq!(wait_result(Err(Errno::Other)), Err(LockError::InvalidState));
    let before = Timespec { tv_sec: -1, tv_nsec: 0 };
    let after = Timespec { tv_sec: 1, tv_nsec: 0 };
    assert_eq!(timed_wait_result(Err(Errno::TimedOut), after), Ok(true));
    assert_eq!(timed_wait_result(Err(Errno::Invalid), before), Ok(false));
    assert_eq!(
        timed_wait_result(Err(Errno::Invalid), after),
        Err(LockError::InvalidState)
    );
    assert_eq!(LockError::Contended.message(), "LockError");
}
