//! Locks and condition variables of the system.

use vstd::prelude::*;

use crate::error::LockError;
use crate::types::Duration;

verus! {

/// Why the system refused something.
#[derive(Copy, Clone, Debug, PartialEq, Eq, Structural)]
pub enum Errno {
    /// The lock is held.
    Busy,
    /// The time is up.
    TimedOut,
    /// A signal came.
    Interrupted,
    /// The word was not as expected.
    Again,
    /// An argument was invalid.
    Invalid,
    /// Anything else.
    Other,
}

/// A time as the system takes it.
#[derive(Copy, Clone, Debug, PartialEq, Eq, Structural)]
pub struct Timespec {
    /// Whole seconds.
    pub tv_sec: i64,
    /// Nanoseconds.
    pub tv_nsec: i64,
}

impl Timespec {
    /// The time in nanoseconds.
    pub open spec fn nanos(self) -> int {
        self.tv_sec * 1_000_000_000 + self.tv_nsec
    }

    /// The nanoseconds are less than a second.
    pub open spec fn wf(self) -> bool {
        0 <= self.tv_nsec < 1_000_000_000
    }
}

/// Convert a relative timeout into an absolute one on a clock that shows
/// `now`. There is none if it cannot be represented.
pub fn timeout_to_timespec(timeout: Duration, now: Timespec) -> (ts: Option<Timespec>)
    requires
        now.wf(),
    ensures
        match ts {
            Some(ts) => ts.wf() && ts.nanos() == now.nanos() + timeout@ && timeout@ / 1_000_000_000
                <= i64::MAX,
            None => timeout@ / 1_000_000_000 > i64::MAX || now.nanos() + timeout@ >= (i64::MAX + 1)
                * 1_000_000_000,
        },
{
    // Handle overflows early on
    let secs: u64 = timeout.as_secs();
    if secs > i64::MAX as u64 {
        return None;
    }
    let mut nsec: i64 = now.tv_nsec + timeout.subsec_nanos() as i64;
    let mut sec: Option<i64> = now.tv_sec.checked_add(secs as i64);
    if nsec >= 1_000_000_000 {
        nsec = nsec - 1_000_000_000;
        sec = match sec {
            Some(sec) => sec.checked_add(1),
            None => None,
        };
    }
    match sec {
        Some(tv_sec) => Some(Timespec { tv_sec, tv_nsec: nsec }),
        None => None,
    }
}

/// What the answer to a request for a lock means.
pub fn lock_result(code: Result<(), Errno>) -> (result: Result<(), LockError>)
    ensures
        result == (if code is Ok {
            Ok::<(), LockError>(())
        } else {
            Err(LockError::InvalidState)
        }),
{
    match code {
        Ok(()) => Ok(()),
        Err(_) => Err(LockError::InvalidState),
    }
}

/// What the answer to a request for a lock means that does not wait.
pub fn try_lock_result(code: Result<(), Errno>) -> (result: Result<(), LockError>)
    ensures
        result == (match code {
            Ok(()) => Ok::<(), LockError>(()),
            Err(Errno::Busy) => Err(LockError::Contended),
            Err(_) => Err(LockError::InvalidState),
        }),
{
    match code {
        Ok(()) => Ok(()),
        Err(Errno::Busy) => Err(LockError::Contended),
        Err(_) => Err(LockError::InvalidState),
    }
}

/// What the end of a wait without a timeout means.
pub fn wait_result(code: Result<(), Errno>) -> (result: Result<bool, LockError>)
    ensures
        result == (if code is Ok {
            Ok::<bool, LockError>(false)
        } else {
            Err(LockError::InvalidState)
        }),
{
    match code {
        Ok(()) => Ok(false),
        Err(_) => Err(LockError::InvalidState),
    }
}

/// What the end of a wait until `ts` means. Some systems reject a negative
/// time, in which case the thread just looks again.
pub fn timed_wait_result(code: Result<(), Errno>, ts: Timespec) -> (result: Result<bool, LockError>)
    ensures
        result == (match code {
            Ok(()) => Ok::<bool, LockError>(false),
            Err(Errno::TimedOut) => Ok(true),
            Err(Errno::Invalid) => if ts.tv_sec < 0 {
                Ok(false)
            } else {
                Err(LockError::InvalidState)
            },
            Err(_) => Err(LockError::InvalidState),
        }),
{
    match code {
        Ok(()) => Ok(false),
        Err(Errno::TimedOut) => Ok(true),
        Err(Errno::Invalid) => {
            if ts.tv_sec < 0 {
                Ok(false)
            } else {
                Err(LockError::InvalidState)
            }
        },
        Err(_) => Err(LockError::InvalidState),
    }
}

/// A longer timeout ends later, and each of them ends as long after now as it lasts.
pub proof fn law_timeouts(
    short: Duration,
    long: Duration,
    now: Timespec,
    first: Option<Timespec>,
    second: Option<Timespec>,
)
    requires
        short@ <= long@,
        call_ensures(timeout_to_timespec, (short, now), first),
        call_ensures(timeout_to_timespec, (long, now), second),
    ensures
        first matches Some(first) ==> first.wf() && first.nanos() - now.nanos() == short@,
        second is Some && now.wf() && now.tv_sec >= 0 ==> first is Some,
        first is Some && second is Some ==> second->0.nanos() - first->0.nanos() == long@ - short@,
{
}

/// A lock is acquired only if the system says so. One that is held is told from one
/// that is broken where nobody waits for it.
pub proof fn law_lock_results(
    code: Result<(), Errno>,
    waited: Result<(), LockError>,
    tried: Result<(), LockError>,
)
    requires
        call_ensures(lock_result, (code,), waited),
        call_ensures(try_lock_result, (code,), tried),
    ensures
        waited is Ok <==> code is Ok,
        tried is Ok <==> code is Ok,
        waited matches Err(err) ==> err == LockError::InvalidState,
        tried == Err::<(), LockError>(LockError::Contended) <==> code == Err::<(), Errno>(
            Errno::Busy,
        ),
        tried is Err && code != Err::<(), Errno>(Errno::Busy) ==> tried == Err::<(), LockError>(
            LockError::InvalidState,
        ),
{
}

/// The time is up only if the system says so of a wait that had one. A thread that
/// was woken looks again, and so does one whose time lies before the clock began.
pub proof fn law_wait_results(
    code: Result<(), Errno>,
    ts: Timespec,
    untimed: Result<bool, LockError>,
    timed: Result<bool, LockError>,
)
    requires
        call_ensures(wait_result, (code,), untimed),
        call_ensures(timed_wait_result, (code, ts), timed),
    ensures
        untimed != Ok::<bool, LockError>(true),
        untimed is Ok <==> code is Ok,
        timed == Ok::<bool, LockError>(true) <==> code == Err::<(), Errno>(Errno::TimedOut),
        timed == Ok::<bool, LockError>(false) <==> code is Ok || (code == Err::<(), Errno>(
            Errno::Invalid,
        ) && ts.tv_sec < 0),
        timed matches Err(err) ==> err == LockError::InvalidState,
{
}

} // verus!
