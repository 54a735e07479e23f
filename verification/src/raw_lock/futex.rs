//! Waiting on a word in memory.

use vstd::prelude::*;

use crate::error::LockError;
use crate::raw_lock::native::WaitPlan;
use crate::raw_lock::pthread::{Errno, Timespec};

verus! {

/// How to call the system in order to wait on a word.
#[derive(Copy, Clone, Debug)]
pub enum FutexWait {
    /// Not at all: the time is up already.
    Expired,
    /// With a relative timeout.
    Timed(Timespec),
    /// Without a timeout.
    Untimed,
}

/// How to wait. A timeout that the system cannot take is left out, and the
/// thread sleeps indefinitely.
pub fn futex_wait_plan(plan: WaitPlan) -> (wait: FutexWait)
    ensures
        match plan {
            WaitPlan::Expired => wait is Expired,
            WaitPlan::Forever => wait is Untimed,
            WaitPlan::Until(dur) => if dur@ / 1_000_000_000 > i64::MAX {
                wait is Untimed
            } else {
                wait matches FutexWait::Timed(ts) && ts.tv_sec == dur@ / 1_000_000_000 && ts.tv_nsec
                    == dur@ % 1_000_000_000
            },
        },
{
    match plan {
        WaitPlan::Expired => FutexWait::Expired,
        WaitPlan::Forever => FutexWait::Untimed,
        WaitPlan::Until(dur) => {
            let secs: u64 = dur.as_secs();
            if secs > i64::MAX as u64 {
                // Timeout overflowed, just sleep indefinitely
                FutexWait::Untimed
            } else {
                FutexWait::Timed(
                    Timespec { tv_sec: secs as i64, tv_nsec: dur.subsec_nanos() as i64 },
                )
            }
        },
    }
}

/// What the system's answer means: the thread has been woken, the time is
/// up, or the wait failed. An interrupted wait, and one that found the word
/// changed, count as woken.
pub fn futex_wait_result(code: Result<(), Errno>, timed: bool) -> (result: Result<bool, LockError>)
    ensures
        result == (match code {
            Ok(()) => Ok::<bool, LockError>(false),
            Err(Errno::TimedOut) => if timed {
                Ok(true)
            } else {
                Err(LockError::InvalidState)
            },
            Err(Errno::Interrupted) | Err(Errno::Again) => Ok(false),
            Err(_) => Err(LockError::InvalidState),
        }),
{
    match code {
        Ok(()) => Ok(false),
        Err(Errno::TimedOut) => {
            if timed {
                Ok(true)
            } else {
                Err(LockError::InvalidState)
            }
        },
        Err(Errno::Interrupted) | Err(Errno::Again) => Ok(false),
        Err(_) => Err(LockError::InvalidState),
    }
}

/// Tell from the number of threads that the system has woken whether there was one.
pub fn futex_wake_result(woken: i64) -> (one: bool)
    ensures
        one == (woken == 1),
{
    woken == 1
}

/// The system waits for what is left until the time is up, or without end if it
/// cannot take that. It is not asked at all if the time is up already.
pub proof fn law_futex_wait_plan(plan: WaitPlan, wait: FutexWait)
    requires
        call_ensures(futex_wait_plan, (plan,), wait),
    ensures
        wait is Expired <==> plan is Expired,
        plan is Forever ==> wait is Untimed,
        wait matches FutexWait::Timed(ts) ==> (plan matches WaitPlan::Until(dur) && ts.wf()
            && ts.nanos() == dur@),
        plan matches WaitPlan::Until(dur) ==> dur@ <= i64::MAX ==> wait is Timed,
{
}

/// The time is up only if the system says so of a wait that had one. A thread that
/// was woken, interrupted, or found the word changed looks again. Anything else has
/// failed.
pub proof fn law_futex_wait_result(
    code: Result<(), Errno>,
    timed: bool,
    result: Result<bool, LockError>,
)
    requires
        call_ensures(futex_wait_result, (code, timed), result),
    ensures
        result == Ok::<bool, LockError>(true) <==> timed && code == Err::<(), Errno>(
            Errno::TimedOut,
        ),
        result == Ok::<bool, LockError>(false) <==> {
            ||| code is Ok
            ||| code == Err::<(), Errno>(Errno::Interrupted)
            ||| code == Err::<(), Errno>(Errno::Again)
        },
        result matches Err(err) ==> err == LockError::InvalidState,
{
}

} // verus!
