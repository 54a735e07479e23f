//! The operations on a shared value, cut into steps.
//!
//! The owner and each borrow are accounted for in one counter. The owner
//! counts for three, a borrow for two. While the owner waits for the borrows to
//! be returned it counts for one, so that the last borrow can tell that it is
//! to call the owner's waker. A step is one atomic operation on the counter
//! together with the accesses to the waker cell that follow it.

use vstd::prelude::*;

verus! {

/// The counter may not go beyond this when a borrow is added.
pub const MAX_REFCOUNT: usize = usize::MAX / 2;

/// An atomic operation on the counter.
#[derive(Copy, Clone, Debug, PartialEq, Eq, Structural)]
pub enum CountOp {
    /// Read the counter.
    Load,
    /// Increase the counter and return what it was.
    FetchAdd(usize),
    /// Decrease the counter and return what it was.
    FetchSub(usize),
    /// Overwrite the counter and return what it was.
    Swap(usize),
    /// Replace the counter if it is as expected.
    Cas { from: usize, to: usize },
    /// Replace the counter if it is as expected; may fail although it is.
    CasWeak { from: usize, to: usize },
}

/// What an atomic operation on the counter reports.
#[derive(Copy, Clone, Debug, PartialEq, Eq, Structural)]
pub struct CountSeen {
    /// False if a compare-and-exchange left the counter alone.
    pub ok: bool,
    /// The counter before the operation.
    pub count: usize,
}

impl CountOp {
    /// What the operation reports when it meets `count`. A weak exchange fails if `spurious`.
    pub open spec fn seen(self, count: usize, spurious: bool) -> CountSeen {
        match self {
            CountOp::Cas { from, to } => CountSeen { ok: count == from, count },
            CountOp::CasWeak { from, to } => CountSeen { ok: count == from && !spurious, count },
            _ => CountSeen { ok: true, count },
        }
    }

    /// What the operation makes of `count`.
    pub open spec fn result(self, count: usize, spurious: bool) -> usize {
        match self {
            CountOp::Load => count,
            CountOp::FetchAdd(n) => count.wrapping_add(n),
            CountOp::FetchSub(n) => count.wrapping_sub(n),
            CountOp::Swap(to) => to,
            CountOp::Cas { from, to } => if self.seen(count, spurious).ok {
                to
            } else {
                count
            },
            CountOp::CasWeak { from, to } => if self.seen(count, spurious).ok {
                to
            } else {
                count
            },
        }
    }

    /// Perform the operation on a counter.
    pub fn apply(self, count: &mut usize, spurious: bool) -> (seen: CountSeen)
        ensures
            seen == self.seen(*old(count), spurious),
            *final(count) == self.result(*old(count), spurious),
    {
        let before: usize = *count;
        let mut ok: bool = true;
        match self {
            CountOp::Load => {},
            CountOp::FetchAdd(n) => {
                *count = before.wrapping_add(n);
            },
            CountOp::FetchSub(n) => {
                *count = before.wrapping_sub(n);
            },
            CountOp::Swap(to) => {
                *count = to;
            },
            CountOp::Cas { from, to } => {
                if before == from {
                    *count = to;
                } else {
                    ok = false;
                }
            },
            CountOp::CasWeak { from, to } => {
                if before == from && !spurious {
                    *count = to;
                } else {
                    ok = false;
                }
            },
        }
        CountSeen { ok, count: before }
    }
}

/// An operation on a shared value.
#[derive(Copy, Clone, Debug, PartialEq, Eq, Structural)]
pub enum Call {
    /// Add a borrow.
    IncCountRef,
    /// Return a borrow.
    DecCountRef,
    /// Find out whether all borrows have been returned, and stop waiting if so.
    TryCollect { pending: bool },
    /// Start to wait for the borrows to be returned.
    StartPoll,
    /// Go on waiting, with another waker.
    ResumePoll,
    /// Stop waiting. Reset if the owner is to stay.
    CancelPoll { reset: bool },
    /// The owner goes away.
    DropLender { pending: bool },
}

/// A point in an operation. All but `End` name the atomic operation to come.
#[derive(Copy, Clone, Debug, PartialEq, Eq, Structural)]
pub enum At {
    /// Add a borrow: count it.
    IncBegin,
    /// Return a borrow: discount it.
    DecBegin,
    /// Return a borrow: it was the last one, the owner has been woken; tell it to go on.
    DecNotify,
    /// Try to collect: read the counter.
    TryBegin,
    /// Try to collect: take the count of the owner back.
    TrySwap,
    /// Start to wait: read the counter.
    StartBegin,
    /// Start to wait: let go of the count of the owner.
    StartRelease,
    /// Start to wait: there was no borrow left; take the count of the owner back.
    StartReset,
    /// Resume: read the counter.
    ResumeBegin,
    /// Resume: keep the last borrow from calling the waker.
    ResumeHold { count: usize },
    /// Resume: the waker has been replaced; let go again.
    ResumeRelease,
    /// Resume: there is no borrow left; take the count of the owner back.
    ResumeReset,
    /// Cancel: read the counter.
    CancelBegin,
    /// Cancel: there is no borrow left; take the count of the owner back.
    CancelReset,
    /// Cancel: the last borrow is just about to tell the owner; forestall it.
    CancelNotify,
    /// Cancel: keep the last borrow from calling the waker.
    CancelHold { count: usize },
    /// Drop: let go of the count of the owner.
    DropRelease,
    /// The operation is over.
    End(End),
}

/// How an operation ends.
#[derive(Copy, Clone, Debug, PartialEq, Eq, Structural)]
pub enum End {
    /// The borrow is counted.
    Counted,
    /// There are too many borrows.
    Overflow,
    /// The borrow or the owner is discounted, others remain.
    Kept,
    /// Nothing refers to the value any more: it is to be freed.
    Free,
    /// All borrows have been returned, and the owner has the value to itself.
    Ready,
    /// There are borrows left.
    Pending,
    /// The owner has stopped waiting. True if all borrows had been returned.
    Cancelled { last: bool },
    /// The owner has gone, and has left it to the last borrow to free the value.
    HandedOver,
    /// The counter made no sense.
    Invalid,
}

/// The accesses to the waker cell of a step, in the order in which they are performed.
#[derive(Copy, Clone, Debug, PartialEq, Eq, Structural)]
pub struct Acts {
    /// Take the stored waker and call it.
    pub wake_stored: bool,
    /// Drop the stored waker.
    pub drop_waker: bool,
    /// Store the owner's waker.
    pub store_waker: bool,
    /// Call the waker that was passed in.
    pub wake_own: bool,
}

impl Acts {
    /// The cell is not touched.
    pub open spec fn idle() -> Acts {
        Acts { wake_stored: false, drop_waker: false, store_waker: false, wake_own: false }
    }

    /// Touch nothing.
    pub fn none() -> (acts: Acts)
        ensures
            acts == Acts::idle(),
    {
        Acts { wake_stored: false, drop_waker: false, store_waker: false, wake_own: false }
    }
}

impl Call {
    /// Where the call begins.
    pub open spec fn start(self) -> At {
        match self {
            Call::IncCountRef => At::IncBegin,
            Call::DecCountRef => At::DecBegin,
            Call::TryCollect { .. } => At::TryBegin,
            Call::StartPoll => At::StartBegin,
            Call::ResumePoll => At::ResumeBegin,
            Call::CancelPoll { .. } => At::CancelBegin,
            Call::DropLender { pending } => if pending {
                At::CancelBegin
            } else {
                At::DropRelease
            },
        }
    }

    /// The owner is to stay once it has stopped waiting.
    pub open spec fn resets(self) -> bool {
        self matches Call::CancelPoll { reset } && reset
    }

    /// Where the call begins.
    pub fn begin(self) -> (at: At)
        ensures
            at == self.start(),
    {
        match self {
            Call::IncCountRef => At::IncBegin,
            Call::DecCountRef => At::DecBegin,
            Call::TryCollect { .. } => At::TryBegin,
            Call::StartPoll => At::StartBegin,
            Call::ResumePoll => At::ResumeBegin,
            Call::CancelPoll { .. } => At::CancelBegin,
            Call::DropLender { pending } => {
                if pending {
                    At::CancelBegin
                } else {
                    At::DropRelease
                }
            },
        }
    }
}

impl At {
    /// The atomic operation that a point stands before.
    pub open spec fn op_at(self, call: Call) -> CountOp {
        match self {
            At::IncBegin => CountOp::FetchAdd(2),
            At::DecBegin => CountOp::FetchSub(2),
            At::DecNotify => CountOp::Cas { from: 1, to: 2 },
            At::TryBegin => CountOp::Load,
            At::TrySwap => CountOp::Swap(3),
            At::StartBegin => CountOp::Load,
            At::StartRelease => CountOp::FetchSub(2),
            At::StartReset => CountOp::Swap(3),
            At::ResumeBegin => CountOp::Load,
            At::ResumeHold { count } => CountOp::CasWeak {
                from: count,
                to: count.wrapping_add(2),
            },
            At::ResumeRelease => CountOp::FetchSub(2),
            At::ResumeReset => CountOp::Swap(3),
            At::CancelBegin => CountOp::Load,
            At::CancelReset => CountOp::Swap(3),
            At::CancelNotify => CountOp::CasWeak {
                from: 1,
                to: if call.resets() {
                    5
                } else {
                    2
                },
            },
            At::CancelHold { count } => CountOp::CasWeak {
                from: count,
                to: count.wrapping_add(2),
            },
            At::DropRelease => CountOp::FetchSub(3),
            At::End(_) => CountOp::Load,
        }
    }

    /// What a resumed wait goes on to do when the counter is `count`.
    pub open spec fn resume_turn(count: usize) -> (Acts, At) {
        if count == 2 {
            (Acts::idle(), At::ResumeReset)
        } else if count == 1 {
            (Acts { wake_own: true, ..Acts::idle() }, At::End(End::Pending))
        } else {
            (Acts::idle(), At::ResumeHold { count })
        }
    }

    /// What a cancelled wait goes on to do when the counter is `count`.
    pub open spec fn cancel_turn(call: Call, count: usize) -> (Acts, At) {
        if count == 2 {
            if call.resets() {
                (Acts::idle(), At::CancelReset)
            } else if call is DropLender {
                (Acts::idle(), At::End(End::Free))
            } else {
                (Acts::idle(), At::End(End::Cancelled { last: true }))
            }
        } else if count == 1 {
            (Acts::idle(), At::CancelNotify)
        } else {
            (Acts::idle(), At::CancelHold { count })
        }
    }

    /// The accesses to the waker cell that follow the atomic operation of a
    /// point, and the point after them.
    pub open spec fn step_at(self, call: Call, seen: CountSeen) -> (Acts, At) {
        let count = seen.count;
        match self {
            At::IncBegin => (
                Acts::idle(),
                At::End(
                    if count > MAX_REFCOUNT {
                        End::Overflow
                    } else {
                        End::Counted
                    },
                ),
            ),
            At::DecBegin => if count == 2 {
                (Acts::idle(), At::End(End::Free))
            } else if count == 3 {
                (Acts { wake_stored: true, ..Acts::idle() }, At::DecNotify)
            } else {
                (Acts::idle(), At::End(End::Kept))
            },
            At::DecNotify => if seen.ok {
                (Acts::idle(), At::End(End::Kept))
            } else {
                (Acts::idle(), At::DecBegin)
            },
            At::TryBegin => match call {
                Call::TryCollect { pending } => if pending && count == 2 {
                    (Acts::idle(), At::TrySwap)
                } else if !pending && count == 3 {
                    (Acts::idle(), At::End(End::Ready))
                } else {
                    (Acts::idle(), At::End(End::Pending))
                },
                _ => (Acts::idle(), At::End(End::Pending)),
            },
            At::TrySwap => (
                Acts::idle(),
                At::End(
                    if count == 2 {
                        End::Ready
                    } else {
                        End::Invalid
                    },
                ),
            ),
            At::StartBegin => if count == 3 {
                (Acts::idle(), At::End(End::Ready))
            } else {
                (Acts { store_waker: true, ..Acts::idle() }, At::StartRelease)
            },
            At::StartRelease => if count == 3 {
                (Acts { drop_waker: true, ..Acts::idle() }, At::StartReset)
            } else {
                (Acts::idle(), At::End(End::Pending))
            },
            At::StartReset => (
                Acts::idle(),
                At::End(
                    if count == 1 {
                        End::Ready
                    } else {
                        End::Invalid
                    },
                ),
            ),
            At::ResumeBegin => At::resume_turn(count),
            At::ResumeHold { count: expected } => if seen.ok {
                (Acts { drop_waker: true, store_waker: true, ..Acts::idle() }, At::ResumeRelease)
            } else {
                At::resume_turn(count)
            },
            At::ResumeRelease => if count == 3 {
                (Acts { drop_waker: true, ..Acts::idle() }, At::ResumeReset)
            } else {
                (Acts::idle(), At::End(End::Pending))
            },
            At::ResumeReset => (Acts::idle(), At::End(End::Ready)),
            At::CancelBegin => At::cancel_turn(call, count),
            At::CancelReset => (
                Acts::idle(),
                At::End(
                    if count == 2 {
                        End::Cancelled { last: true }
                    } else {
                        End::Invalid
                    },
                ),
            ),
            At::CancelNotify => if !seen.ok {
                At::cancel_turn(call, count)
            } else if call.resets() {
                (Acts::idle(), At::End(End::Cancelled { last: false }))
            } else {
                (Acts::idle(), At::End(End::HandedOver))
            },
            At::CancelHold { count: expected } => if !seen.ok {
                At::cancel_turn(call, count)
            } else if call is DropLender {
                (Acts { drop_waker: true, ..Acts::idle() }, At::DropRelease)
            } else {
                (
                    Acts { drop_waker: true, ..Acts::idle() },
                    At::End(End::Cancelled { last: false }),
                )
            },
            At::DropRelease => (
                Acts::idle(),
                At::End(
                    if count == 3 {
                        End::Free
                    } else {
                        End::Kept
                    },
                ),
            ),
            At::End(end) => (Acts::idle(), At::End(end)),
        }
    }

    /// The atomic operation to perform next.
    pub fn op(self, call: Call) -> (op: CountOp)
        ensures
            op == self.op_at(call),
    {
        match self {
            At::IncBegin => CountOp::FetchAdd(2),
            At::DecBegin | At::StartRelease | At::ResumeRelease => CountOp::FetchSub(2),
            At::DecNotify => CountOp::Cas { from: 1, to: 2 },
            At::TrySwap | At::StartReset | At::ResumeReset | At::CancelReset => CountOp::Swap(3),
            At::TryBegin | At::StartBegin | At::ResumeBegin | At::CancelBegin | At::End(_) => {
                CountOp::Load
            },
            At::ResumeHold { count } | At::CancelHold { count } => CountOp::CasWeak {
                from: count,
                to: count.wrapping_add(2),
            },
            At::CancelNotify => {
                let reset = matches!(call, Call::CancelPoll { reset: true });
                CountOp::CasWeak {
                    from: 1,
                    to: if reset {
                        5
                    } else {
                        2
                    },
                }
            },
            At::DropRelease => CountOp::FetchSub(3),
        }
    }

    fn resume_from(count: usize) -> (step: (Acts, At))
        ensures
            step == At::resume_turn(count),
    {
        if count == 2 {
            // last reference has been dropped and waker has been cleared
            (Acts::none(), At::ResumeReset)
        } else if count == 1 {
            // last reference was interrupted while notifying us
            // yield to let it complete
            (Acts { wake_own: true, ..Acts::none() }, At::End(End::Pending))
        } else {
            (Acts::none(), At::ResumeHold { count })
        }
    }

    fn cancel_from(call: Call, count: usize) -> (step: (Acts, At))
        ensures
            step == At::cancel_turn(call, count),
    {
        if count == 2 {
            // last reference dropped during collection
            match call {
                Call::CancelPoll { reset: true } => (Acts::none(), At::CancelReset),
                Call::DropLender { .. } => (Acts::none(), At::End(End::Free)),
                _ => (Acts::none(), At::End(End::Cancelled { last: true })),
            }
        } else if count == 1 {
            // last reference interrupted mid-drop. it will call the stored
            // waker and then attempt to change the count. if that fails, it
            // will retry
            (Acts::none(), At::CancelNotify)
        } else {
            // try to increase the count so it is safe to clear the waker
            (Acts::none(), At::CancelHold { count })
        }
    }

    /// What to do with the waker cell once the atomic operation has reported
    /// `seen`, and the point reached then.
    pub fn next(self, call: Call, seen: CountSeen) -> (step: (Acts, At))
        ensures
            step == self.step_at(call, seen),
    {
        let count: usize = seen.count;
        match self {
            At::IncBegin => {
                if count > MAX_REFCOUNT {
                    (Acts::none(), At::End(End::Overflow))
                } else {
                    (Acts::none(), At::End(End::Counted))
                }
            },
            At::DecBegin => {
                if count == 2 {
                    // the owner has been dropped and this was the last reference
                    (Acts::none(), At::End(End::Free))
                } else if count == 3 {
                    // the owner is in the collection phase and this was the last
                    // reference. it will wait for us to readjust the count, so that
                    // the allocation is not dropped before we can notify it
                    (Acts { wake_stored: true, ..Acts::none() }, At::DecNotify)
                } else {
                    (Acts::none(), At::End(End::Kept))
                }
            },
            At::DecNotify => {
                if seen.ok {
                    (Acts::none(), At::End(End::Kept))
                } else {
                    // the owner may have given up waiting, retry
                    (Acts::none(), At::DecBegin)
                }
            },
            At::TryBegin => {
                match call {
                    Call::TryCollect { pending } => {
                        if pending && count == 2 {
                            (Acts::none(), At::TrySwap)
                        } else if !pending && count == 3 {
                            (Acts::none(), At::End(End::Ready))
                        } else {
                            (Acts::none(), At::End(End::Pending))
                        }
                    },
                    _ => (Acts::none(), At::End(End::Pending)),
                }
            },
            At::TrySwap => {
                if count == 2 {
                    (Acts::none(), At::End(End::Ready))
                } else {
                    (Acts::none(), At::End(End::Invalid))
                }
            },
            At::StartBegin => {
                if count == 3 {
                    (Acts::none(), At::End(End::Ready))
                } else {
                    (Acts { store_waker: true, ..Acts::none() }, At::StartRelease)
                }
            },
            At::StartRelease => {
                if count == 3 {
                    // last reference was dropped between acquiring and updating the count
                    (Acts { drop_waker: true, ..Acts::none() }, At::StartReset)
                } else {
                    (Acts::none(), At::End(End::Pending))
                }
            },
            At::StartReset => {
                if count == 1 {
                    (Acts::none(), At::End(End::Ready))
                } else {
                    (Acts::none(), At::End(End::Invalid))
                }
            },
            At::ResumeBegin => At::resume_from(count),
            At::ResumeHold { .. } => {
                if seen.ok {
                    (
                        Acts { drop_waker: true, store_waker: true, ..Acts::none() },
                        At::ResumeRelease,
                    )
                } else {
                    At::resume_from(count)
                }
            },
            At::ResumeRelease => {
                if count == 3 {
                    // last reference was dropped while the waker was replaced
                    (Acts { drop_waker: true, ..Acts::none() }, At::ResumeReset)
                } else {
                    (Acts::none(), At::End(End::Pending))
                }
            },
            At::ResumeReset => (Acts::none(), At::End(End::Ready)),
            At::CancelBegin => At::cancel_from(call, count),
            At::CancelReset => {
                if count == 2 {
                    (Acts::none(), At::End(End::Cancelled { last: true }))
                } else {
                    (Acts::none(), At::End(End::Invalid))
                }
            },
            At::CancelNotify => {
                if !seen.ok {
                    return At::cancel_from(call, count);
                }
                match call {
                    Call::CancelPoll { reset: true } => {
                        (Acts::none(), At::End(End::Cancelled { last: false }))
                    },
                    // last reference is now responsible for dropping the allocation
                    _ => (Acts::none(), At::End(End::HandedOver)),
                }
            },
            At::CancelHold { .. } => {
                if !seen.ok {
                    return At::cancel_from(call, count);
                }
                // stored waker is now safe to remove
                let acts = Acts { drop_waker: true, ..Acts::none() };
                match call {
                    Call::DropLender { .. } => (acts, At::DropRelease),
                    _ => (acts, At::End(End::Cancelled { last: false })),
                }
            },
            At::DropRelease => {
                if count == 3 {
                    (Acts::none(), At::End(End::Free))
                } else {
                    (Acts::none(), At::End(End::Kept))
                }
            },
            At::End(_) => (Acts::none(), self),
        }
    }
}

} // verus!
