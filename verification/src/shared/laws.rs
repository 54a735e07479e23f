//! What operations on a shared value do to each other.

use vstd::prelude::*;

use crate::poll::Poll;
use crate::shared::memory::Mem;
use crate::shared::step::MAX_REFCOUNT;

verus! {

/// Returning a borrow undoes taking it.
pub proof fn law_borrow_return<W>(mem: Mem<W>, pending: bool)
    requires
        mem.lent(pending) || mem.borrowed(),
        !mem.returned(),
        mem.count <= MAX_REFCOUNT,
    ensures
        mem.with_borrow().borrowed(),
        mem.with_borrow().without_borrow() == mem,
{
}

/// Every borrow that is returned counts: an owner that does not wait sees one less.
pub proof fn law_return_owned<W>(mem: Mem<W>, borrows: nat)
    requires
        borrows > 0,
        mem.owned(borrows),
    ensures
        mem.without_borrow().owned((borrows - 1) as nat),
        mem.without_borrow().woken == mem.woken,
{
}

/// An owner that waits is not woken before the last borrow has been returned.
pub proof fn law_return_waits<W>(mem: Mem<W>, borrows: nat)
    requires
        borrows > 1,
        mem.collecting(borrows),
    ensures
        mem.without_borrow().collecting((borrows - 1) as nat),
        mem.without_borrow().waker == mem.waker,
        mem.without_borrow().woken == mem.woken,
{
}

/// The last borrow to be returned wakes the owner that waits, and the owner
/// then finds the value collected.
pub proof fn law_last_return_wakes<W>(mem: Mem<W>, waker: W, again: W)
    requires
        mem.collecting(1),
        mem.waker == Some(waker),
    ensures
        mem.without_borrow().returned(),
        mem.without_borrow().woken == mem.woken.push(waker),
        mem.without_borrow().poll_result(true, again).0 == Poll::Ready(()),
        mem.without_borrow().poll_result(true, again).1.owned(0),
        mem.without_borrow().try_result(true).0,
        mem.without_borrow().try_result(true).1.owned(0),
{
}

/// A collection succeeds if and only if no borrow is out, whichever way it is attempted.
pub proof fn law_collect_exactly<W>(mem: Mem<W>, pending: bool, waker: W)
    requires
        mem.lent(pending),
    ensures
        mem.try_result(pending).0 == (mem.borrows(pending) == 0),
        (mem.poll_result(pending, waker).0 is Ready) == (mem.borrows(pending) == 0),
        mem.borrows(pending) == 0 ==> mem.try_result(pending).1 == mem.poll_result(
            pending,
            waker,
        ).1,
        mem.borrows(pending) == 0 ==> mem.try_result(pending).1.owned(0),
{
}

/// Polling again replaces the waker and changes nothing else.
pub proof fn law_poll_again<W>(mem: Mem<W>, first: W, second: W)
    requires
        mem.lent(false),
        mem.borrows(false) > 0,
    ensures
        mem.poll_result(false, first).1.lent(true),
        mem.poll_result(false, first).1.poll_result(true, second) == mem.poll_result(
            false,
            second,
        ),
{
}

/// Cancelling undoes polling.
pub proof fn law_cancel<W>(mem: Mem<W>, waker: W)
    requires
        mem.lent(false),
        mem.borrows(false) > 0,
    ensures
        mem.poll_result(false, waker).1.lent(true),
        mem.poll_result(false, waker).1.cancelled() == mem,
{
}

/// Once the owner is gone, it is the last borrow to be returned that frees
/// the value, and no other.
pub proof fn law_orphaned<W>(mem: Mem<W>, pending: bool)
    requires
        mem.lent(pending),
        mem.borrows(pending) > 0,
    ensures
        mem.without_owner(pending).orphaned(mem.borrows(pending)),
        mem.without_owner(pending).borrowed(),
        mem.without_owner(pending).woken == mem.woken,
        mem.borrows(pending) > 1 ==> !mem.without_owner(pending).orphaned(1)
            && mem.without_owner(pending).without_borrow().orphaned(
            (mem.borrows(pending) - 1) as nat,
        ),
{
}

} // verus!
