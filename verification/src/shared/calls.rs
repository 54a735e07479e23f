//! What a shared value gives to its owner and to those who borrow it.
//!
//! The owner and the borrows share a counter, in which each borrow counts twice: on
//! top of three for an owner that does not wait, of one for an owner that waits, and
//! of nothing once the owner is gone. An owner that waits, and has all borrows back,
//! finds a two.

use vstd::prelude::*;

use crate::poll::{Poll, Turn};
use crate::shared::handles::{Collect, CollectInto, Lender, Shared, SharedRef};
use crate::shared::memory::SharedInner;
use crate::util::{BoxPtr, Heap};

verus! {

/// The owner finds one borrow more, and nothing else has changed.
pub proof fn law_borrow<T, W>(
    lender: &Lender<T, W>,
    heap: &mut Heap<SharedInner<T, W>>,
    ptr: BoxPtr<SharedInner<T, W>>,
    n: nat,
    shared: Shared<T, W>,
)
    requires
        lender.link() == ptr,
        heap.has(ptr),
        heap.at(ptr).at_rest(),
        lender.pending() ==> (n > 0 && heap.at(ptr)@.count == 1 + 2 * n && heap.at(ptr)@.waker is Some) || (n == 0
            && heap.at(ptr)@.count == 2 && heap.at(ptr)@.waker is None),
        !lender.pending() ==> heap.at(ptr)@.count == 3 + 2 * n && heap.at(ptr)@.waker is None,
        !lender.pending() || n > 0,
        call_ensures(Lender::<T, W>::borrow, (lender, heap), shared),
    ensures
        ({
            let before = old(heap).at(ptr)@;
            let after = final(heap).at(ptr)@;
            &&& shared.link() == ptr
            &&& after.count == before.count + 2
            &&& after.waker == before.waker
            &&& after.woken == before.woken
            &&& final(heap).at(ptr).value() == old(heap).at(ptr).value()
            &&& final(heap).has(ptr)
            &&& final(heap)@.remove(ptr.addr()) == old(heap)@.remove(ptr.addr())
        }),
{
}

/// The owner is told how many borrows are out, whether it waits for them or not.
pub proof fn law_lender_borrow_count<T, W>(
    lender: &Lender<T, W>,
    heap: &Heap<SharedInner<T, W>>,
    ptr: BoxPtr<SharedInner<T, W>>,
    n: nat,
    count: usize,
)
    requires
        lender.link() == ptr,
        lender.pending() ==> (n > 0 && heap.at(ptr)@.count == 1 + 2 * n && heap.at(ptr)@.waker is Some) || (n == 0
            && heap.at(ptr)@.count == 2 && heap.at(ptr)@.waker is None),
        !lender.pending() ==> heap.at(ptr)@.count == 3 + 2 * n && heap.at(ptr)@.waker is None,
        call_ensures(Lender::<T, W>::borrow_count, (lender, heap), count),
    ensures
        count == n,
{
}

/// A borrow is told how many there are, whether the owner waits, does not wait, or
/// is gone.
pub proof fn law_shared_borrow_count<T, W>(
    shared: &Shared<T, W>,
    heap: &Heap<SharedInner<T, W>>,
    ptr: BoxPtr<SharedInner<T, W>>,
    n: nat,
    count: usize,
)
    requires
        shared.link() == ptr,
        n > 0,
        ({
            let mem = heap.at(ptr)@;
            ||| mem.waker is None && mem.count == 3 + 2 * n
            ||| mem.waker is Some && mem.count == 1 + 2 * n
            ||| mem.waker is None && mem.count == 2 * n
        }),
        call_ensures(Shared::<T, W>::borrow_count, (shared, heap), count),
    ensures
        count == n,
{
}

/// There is one borrow more, and nothing else has changed.
pub proof fn law_shared_clone<T, W>(
    shared: &Shared<T, W>,
    heap: &mut Heap<SharedInner<T, W>>,
    ptr: BoxPtr<SharedInner<T, W>>,
    other: Shared<T, W>,
)
    requires
        shared.link() == ptr,
        heap.at(ptr)@.count < usize::MAX - 1,
        call_ensures(Shared::<T, W>::clone, (shared, heap), other),
    ensures
        ({
            let before = old(heap).at(ptr)@;
            let after = final(heap).at(ptr)@;
            &&& other.link() == ptr
            &&& after.count == before.count + 2
            &&& after.waker == before.waker
            &&& after.woken == before.woken
            &&& final(heap).at(ptr).value() == old(heap).at(ptr).value()
            &&& final(heap).has(ptr)
            &&& final(heap)@.remove(ptr.addr()) == old(heap)@.remove(ptr.addr())
        }),
{
}

/// A borrow that is returned counts no more. The last one calls the owner that
/// waits for it, and takes the value with it if the owner is gone.
pub proof fn law_shared_drop<T, W>(
    shared: Shared<T, W>,
    heap: &mut Heap<SharedInner<T, W>>,
    ptr: BoxPtr<SharedInner<T, W>>,
    n: nat,
)
    requires
        shared.link() == ptr,
        n > 0,
        call_ensures(Shared::<T, W>::drop, (shared, heap), ()),
    ensures
        ({
            let before = old(heap).at(ptr)@;
            let after = final(heap).at(ptr)@;
            &&& before.waker is None && before.count == 3 + 2 * n ==> after.count == 3 + 2 * (n - 1)
                && after.waker is None
            &&& before.waker is Some && before.count == 1 + 2 * n && n > 1
                ==> after.count == 1 + 2 * (n - 1) && after.waker == before.waker
            &&& before.waker is Some && before.count == 3 ==> {
                &&& after.count == 2
                &&& after.waker is None
                &&& after.woken == before.woken.push(before.waker->0)
            }
            &&& before.waker is None && before.count == 2 * n && n > 1 ==> after.count == 2 * (n - 1)
                && after.waker is None
            &&& before.waker is None && before.count == 2
                ==> final(heap)@ == old(heap)@.remove(ptr.addr())
            &&& !(before.waker is None && before.count == 2) ==> {
                &&& final(heap).at(ptr).value() == old(heap).at(ptr).value()
                &&& final(heap).has(ptr)
                &&& final(heap)@.remove(ptr.addr()) == old(heap)@.remove(ptr.addr())
            }
            &&& before.waker is None && before.count > 2 && before.count != 3
                ==> after.woken == before.woken
            &&& before.waker is Some && before.count > 3 ==> after.woken == before.woken
        }),
{
}

/// The value is collected if and only if no borrow is out; the owner then does not
/// wait any more. Otherwise nothing has changed.
pub proof fn law_try_collect<T, W>(
    lender: &mut Lender<T, W>,
    heap: &mut Heap<SharedInner<T, W>>,
    ptr: BoxPtr<SharedInner<T, W>>,
    n: nat,
    collected: bool,
)
    requires
        lender.link() == ptr,
        heap.has(ptr),
        heap.at(ptr).at_rest(),
        lender.pending() ==> (n > 0 && heap.at(ptr)@.count == 1 + 2 * n && heap.at(ptr)@.waker is Some) || (n == 0
            && heap.at(ptr)@.count == 2 && heap.at(ptr)@.waker is None),
        !lender.pending() ==> heap.at(ptr)@.count == 3 + 2 * n && heap.at(ptr)@.waker is None,
        call_ensures(Lender::<T, W>::try_collect, (lender, heap), collected),
    ensures
        ({
            let before = old(heap).at(ptr)@;
            let after = final(heap).at(ptr)@;
            &&& collected == (n == 0)
            &&& (n == 0) ==> {
                &&& after.count == 3
                &&& after.waker is None
                &&& after.woken == before.woken
                &&& !final(lender).pending()
            }
            &&& n > 0 ==> after == before && final(lender).pending() == old(lender).pending()
            &&& final(lender).link() == ptr
            &&& final(heap).has(ptr)
            &&& final(heap)@.remove(ptr.addr()) == old(heap)@.remove(ptr.addr())
            &&& final(heap).at(ptr).value() == old(heap).at(ptr).value()
        }),
{
}

/// The owner can change the value if and only if no borrow is out.
pub proof fn law_get_mut<T, W>(
    lender: &mut Lender<T, W>,
    heap: &mut Heap<SharedInner<T, W>>,
    ptr: BoxPtr<SharedInner<T, W>>,
    n: nat,
    value: Option<&mut T>,
)
    requires
        lender.link() == ptr,
        heap.has(ptr),
        heap.at(ptr).at_rest(),
        lender.pending() ==> (n > 0 && heap.at(ptr)@.count == 1 + 2 * n && heap.at(ptr)@.waker is Some) || (n == 0
            && heap.at(ptr)@.count == 2 && heap.at(ptr)@.waker is None),
        !lender.pending() ==> heap.at(ptr)@.count == 3 + 2 * n && heap.at(ptr)@.waker is None,
        call_ensures(Lender::<T, W>::get_mut, (lender, heap), value),
    ensures
        ({
            let before = old(heap).at(ptr)@;
            let after = final(heap).at(ptr)@;
            &&& (value is Some) == (n == 0)
            &&& value matches Some(value) ==> {
                &&& *value == old(heap).at(ptr).value()
                &&& *final(value) == final(heap).at(ptr).value()
            }
            &&& value is None ==> final(heap).at(ptr).value() == old(heap).at(ptr).value()
            &&& (n == 0) ==> {
                &&& after.count == 3
                &&& after.waker is None
                &&& after.woken == before.woken
                &&& !final(lender).pending()
            }
            &&& n > 0 ==> after == before && final(lender).pending() == old(lender).pending()
            &&& final(lender).link() == ptr
            &&& final(heap).has(ptr)
            &&& final(heap)@.remove(ptr.addr()) == old(heap)@.remove(ptr.addr())
        }),
{
}

/// The value is collected as soon as no borrow is out. Otherwise the owner waits for
/// the borrows that are out, with the waker that it came with last.
pub proof fn law_poll_collect<T, W>(
    lender: &mut Lender<T, W>,
    heap: &mut Heap<SharedInner<T, W>>,
    ptr: BoxPtr<SharedInner<T, W>>,
    n: nat,
    waker: W,
    result: Poll<()>,
)
    requires
        lender.link() == ptr,
        heap.has(ptr),
        heap.at(ptr).at_rest(),
        lender.pending() ==> (n > 0 && heap.at(ptr)@.count == 1 + 2 * n && heap.at(ptr)@.waker is Some) || (n == 0
            && heap.at(ptr)@.count == 2 && heap.at(ptr)@.waker is None),
        !lender.pending() ==> heap.at(ptr)@.count == 3 + 2 * n && heap.at(ptr)@.waker is None,
        call_ensures(Lender::<T, W>::poll_collect, (lender, heap, waker), result),
    ensures
        ({
            let before = old(heap).at(ptr)@;
            let after = final(heap).at(ptr)@;
            &&& (result is Ready) == (n == 0)
            &&& final(lender).pending() == (n > 0)
            &&& n == 0 ==> after.count == 3 && after.waker is None && after.woken == before.woken
            &&& n > 0 ==> {
                &&& after.count == 1 + 2 * n
                &&& after.waker == Some(waker)
                &&& after.woken == before.woken
                &&& final(heap).at(ptr).value() == old(heap).at(ptr).value()
            }
            &&& final(heap).at(ptr).value() == old(heap).at(ptr).value()
            &&& final(lender).link() == ptr
            &&& final(heap).has(ptr)
            &&& final(heap)@.remove(ptr.addr()) == old(heap)@.remove(ptr.addr())
        }),
{
}

/// An owner that stops waiting has the same borrows out, and is not called for them
/// any more.
pub proof fn law_cancel_collect<T, W>(
    lender: &mut Lender<T, W>,
    heap: &mut Heap<SharedInner<T, W>>,
    ptr: BoxPtr<SharedInner<T, W>>,
    n: nat,
)
    requires
        lender.link() == ptr,
        heap.has(ptr),
        heap.at(ptr).at_rest(),
        lender.pending() ==> (n > 0 && heap.at(ptr)@.count == 1 + 2 * n && heap.at(ptr)@.waker is Some) || (n == 0
            && heap.at(ptr)@.count == 2 && heap.at(ptr)@.waker is None),
        !lender.pending() ==> heap.at(ptr)@.count == 3 + 2 * n && heap.at(ptr)@.waker is None,
        call_ensures(Lender::<T, W>::cancel_collect, (lender, heap), ()),
    ensures
        ({
            let before = old(heap).at(ptr)@;
            let after = final(heap).at(ptr)@;
            &&& !final(lender).pending()
            &&& final(lender).link() == ptr
            &&& after.count == 3 + 2 * n
            &&& after.waker is None
            &&& after.woken == before.woken
            &&& final(heap).at(ptr).value() == old(heap).at(ptr).value()
            &&& final(heap).has(ptr)
            &&& final(heap)@.remove(ptr.addr()) == old(heap)@.remove(ptr.addr())
        }),
{
}

/// An owner that goes leaves the value to the borrows that are out, and takes it with
/// it if there are none.
pub proof fn law_lender_drop<T, W>(
    lender: Lender<T, W>,
    heap: &mut Heap<SharedInner<T, W>>,
    ptr: BoxPtr<SharedInner<T, W>>,
    n: nat,
)
    requires
        lender.link() == ptr,
        heap.has(ptr),
        heap.at(ptr).at_rest(),
        lender.pending() ==> (n > 0 && heap.at(ptr)@.count == 1 + 2 * n && heap.at(ptr)@.waker is Some) || (n == 0
            && heap.at(ptr)@.count == 2 && heap.at(ptr)@.waker is None),
        !lender.pending() ==> heap.at(ptr)@.count == 3 + 2 * n && heap.at(ptr)@.waker is None,
        call_ensures(Lender::<T, W>::drop, (lender, heap), ()),
    ensures
        ({
            let before = old(heap).at(ptr)@;
            let after = final(heap).at(ptr)@;
            &&& n == 0 ==> final(heap)@ == old(heap)@.remove(ptr.addr())
            &&& n > 0 ==> {
                &&& after.count == 2 * n
                &&& after.waker is None
                &&& after.woken == before.woken
                &&& final(heap).at(ptr).value() == old(heap).at(ptr).value()
                &&& final(heap).has(ptr)
                &&& final(heap)@.remove(ptr.addr()) == old(heap)@.remove(ptr.addr())
            }
        }),
{
}

/// The value is unwrapped if and only if no borrow is out. Otherwise the owner is
/// given back, and does not wait.
pub proof fn law_collect_into_resolve<T, W>(
    collect: CollectInto<T, W>,
    heap: &mut Heap<SharedInner<T, W>>,
    ptr: BoxPtr<SharedInner<T, W>>,
    n: nat,
    result: Result<T, Lender<T, W>>,
)
    requires
        collect.lender() matches Some(lender) && lender.link() == ptr,
        heap.has(ptr),
        heap.at(ptr).at_rest(),
        collect.lender()->0.pending() ==> (n > 0 && heap.at(ptr)@.count == 1 + 2 * n && heap.at(ptr)@.waker is Some) || (n == 0
            && heap.at(ptr)@.count == 2 && heap.at(ptr)@.waker is None),
        !collect.lender()->0.pending() ==> heap.at(ptr)@.count == 3 + 2 * n && heap.at(ptr)@.waker is None,
        call_ensures(CollectInto::<T, W>::resolve, (collect, heap), result),
    ensures
        ({
            let before = old(heap).at(ptr)@;
            let after = final(heap).at(ptr)@;
            &&& n == 0 ==> {
                &&& result == Ok::<T, Lender<T, W>>(old(heap).at(ptr).value())
                &&& final(heap)@ == old(heap)@.remove(ptr.addr())
            }
            &&& n > 0 ==> {
                &&& result matches Err(rest) && rest.link() == ptr && !rest.pending()
                &&& after.count == 3 + 2 * n
                &&& after.waker is None
                &&& after.woken == before.woken
                &&& final(heap).at(ptr).value() == old(heap).at(ptr).value()
                &&& final(heap).has(ptr)
                &&& final(heap)@.remove(ptr.addr()) == old(heap)@.remove(ptr.addr())
            }
        }),
{
}

/// The value is unwrapped as soon as no borrow is out. Otherwise the owner waits for
/// the borrows that are out.
pub proof fn law_collect_into_poll<T, W>(
    collect: &mut CollectInto<T, W>,
    heap: &mut Heap<SharedInner<T, W>>,
    ptr: BoxPtr<SharedInner<T, W>>,
    n: nat,
    waker: W,
    result: Poll<T>,
)
    requires
        collect.lender() matches Some(lender) && lender.link() == ptr,
        heap.has(ptr),
        heap.at(ptr).at_rest(),
        collect.lender()->0.pending() ==> (n > 0 && heap.at(ptr)@.count == 1 + 2 * n && heap.at(ptr)@.waker is Some) || (n == 0
            && heap.at(ptr)@.count == 2 && heap.at(ptr)@.waker is None),
        !collect.lender()->0.pending() ==> heap.at(ptr)@.count == 3 + 2 * n && heap.at(ptr)@.waker is None,
        call_ensures(CollectInto::<T, W>::poll, (collect, heap, waker), result),
    ensures
        ({
            let before = old(heap).at(ptr)@;
            let after = final(heap).at(ptr)@;
            &&& n == 0 ==> {
                &&& result == Poll::Ready(old(heap).at(ptr).value())
                &&& final(collect).lender() is None
                &&& final(heap)@ == old(heap)@.remove(ptr.addr())
            }
            &&& n > 0 ==> {
                &&& result is Pending
                &&& final(collect).lender() matches Some(rest) && rest.link() == ptr && rest.pending()
                &&& after.count == 1 + 2 * n
                &&& after.waker == Some(waker)
                &&& after.woken == before.woken
                &&& final(heap).at(ptr).value() == old(heap).at(ptr).value()
                &&& final(heap).has(ptr)
                &&& final(heap)@.remove(ptr.addr()) == old(heap)@.remove(ptr.addr())
            }
        }),
{
}

/// The value is unwrapped as soon as no borrow is out, also if the time is up.
/// Otherwise the owner waits for the borrows that are out until the time is up, and
/// is then given back, and does not wait.
pub proof fn law_collect_into_wait<T, W>(
    collect: &mut CollectInto<T, W>,
    heap: &mut Heap<SharedInner<T, W>>,
    ptr: BoxPtr<SharedInner<T, W>>,
    n: nat,
    turn: Turn<W>,
    result: Poll<Result<T, Lender<T, W>>>,
)
    requires
        collect.lender() matches Some(lender) && lender.link() == ptr,
        heap.has(ptr),
        heap.at(ptr).at_rest(),
        collect.lender()->0.pending() ==> (n > 0 && heap.at(ptr)@.count == 1 + 2 * n && heap.at(ptr)@.waker is Some) || (n == 0
            && heap.at(ptr)@.count == 2 && heap.at(ptr)@.waker is None),
        !collect.lender()->0.pending() ==> heap.at(ptr)@.count == 3 + 2 * n && heap.at(ptr)@.waker is None,
        call_ensures(CollectInto::<T, W>::wait, (collect, heap, turn), result),
    ensures
        ({
            let before = old(heap).at(ptr)@;
            let after = final(heap).at(ptr)@;
            &&& n == 0 ==> {
                &&& result == Poll::Ready(Ok::<T, Lender<T, W>>(old(heap).at(ptr).value()))
                &&& final(collect).lender() is None
                &&& final(heap)@ == old(heap)@.remove(ptr.addr())
            }
            &&& turn matches Turn::Wait(waker) ==> n > 0 ==> {
                &&& result is Pending
                &&& final(collect).lender() matches Some(rest) && rest.link() == ptr && rest.pending()
                &&& after.count == 1 + 2 * n
                &&& after.waker == Some(waker)
                &&& after.woken == before.woken
                &&& final(heap).at(ptr).value() == old(heap).at(ptr).value()
                &&& final(heap).has(ptr)
                &&& final(heap)@.remove(ptr.addr()) == old(heap)@.remove(ptr.addr())
            }
            &&& turn is Expired && n > 0 ==> {
                &&& result matches Poll::Ready(Err(rest)) && rest.link() == ptr && !rest.pending()
                &&& final(collect).lender() is None
                &&& after.count == 3 + 2 * n
                &&& after.waker is None
                &&& after.woken == before.woken
                &&& final(heap).at(ptr).value() == old(heap).at(ptr).value()
                &&& final(heap).has(ptr)
                &&& final(heap)@.remove(ptr.addr()) == old(heap)@.remove(ptr.addr())
            }
        }),
{
}

/// An owner that goes while it collects leaves the value to the borrows that are out,
/// and takes it with it if there are none.
pub proof fn law_collect_into_drop<T, W>(
    collect: CollectInto<T, W>,
    heap: &mut Heap<SharedInner<T, W>>,
    ptr: BoxPtr<SharedInner<T, W>>,
    n: nat,
)
    requires
        collect.lender() matches Some(lender) && lender.link() == ptr,
        heap.has(ptr),
        heap.at(ptr).at_rest(),
        collect.lender()->0.pending() ==> (n > 0 && heap.at(ptr)@.count == 1 + 2 * n && heap.at(ptr)@.waker is Some) || (n == 0
            && heap.at(ptr)@.count == 2 && heap.at(ptr)@.waker is None),
        !collect.lender()->0.pending() ==> heap.at(ptr)@.count == 3 + 2 * n && heap.at(ptr)@.waker is None,
        call_ensures(CollectInto::<T, W>::drop, (collect, heap), ()),
    ensures
        ({
            let before = old(heap).at(ptr)@;
            let after = final(heap).at(ptr)@;
            &&& n == 0 ==> final(heap)@ == old(heap)@.remove(ptr.addr())
            &&& n > 0 ==> {
                &&& after.count == 2 * n
                &&& after.waker is None
                &&& after.woken == before.woken
                &&& final(heap).at(ptr).value() == old(heap).at(ptr).value()
                &&& final(heap).has(ptr)
                &&& final(heap)@.remove(ptr.addr()) == old(heap)@.remove(ptr.addr())
            }
        }),
{
}

/// The owner has the value to itself if and only if no borrow is out. Otherwise it is
/// given back, and does not wait.
pub proof fn law_collect_resolve<'c, T, W>(
    collect: Collect<'c, T, W>,
    heap: &mut Heap<SharedInner<T, W>>,
    ptr: BoxPtr<SharedInner<T, W>>,
    n: nat,
    result: Result<&mut T, &'c mut Lender<T, W>>,
)
    requires
        collect.lender() matches Some(lender) && lender.link() == ptr,
        heap.has(ptr),
        heap.at(ptr).at_rest(),
        collect.lender()->0.pending() ==> (n > 0 && heap.at(ptr)@.count == 1 + 2 * n && heap.at(ptr)@.waker is Some) || (n == 0
            && heap.at(ptr)@.count == 2 && heap.at(ptr)@.waker is None),
        !collect.lender()->0.pending() ==> heap.at(ptr)@.count == 3 + 2 * n && heap.at(ptr)@.waker is None,
        call_ensures(Collect::<'c, T, W>::resolve, (collect, heap), result),
    ensures
        ({
            let before = old(heap).at(ptr)@;
            let after = final(heap).at(ptr)@;
            &&& n == 0 ==> {
                &&& result matches Ok(value) && {
                    &&& *value == old(heap).at(ptr).value()
                    &&& *final(value) == final(heap).at(ptr).value()
                }
                &&& !final(collect.lender()->0).pending()
                &&& after.count == 3
                &&& after.waker is None
                &&& after.woken == before.woken
                &&& final(heap).has(ptr)
                &&& final(heap)@.remove(ptr.addr()) == old(heap)@.remove(ptr.addr())
            }
            &&& n > 0 ==> {
                &&& result matches Err(rest) && rest.link() == ptr && !rest.pending()
                &&& after.count == 3 + 2 * n
                &&& after.waker is None
                &&& after.woken == before.woken
                &&& final(heap).at(ptr).value() == old(heap).at(ptr).value()
                &&& final(heap).has(ptr)
                &&& final(heap)@.remove(ptr.addr()) == old(heap)@.remove(ptr.addr())
            }
        }),
{
}

/// The owner has the value to itself as soon as no borrow is out. Otherwise it waits
/// for the borrows that are out.
pub proof fn law_collect_poll<'c, T, W>(
    collect: &mut Collect<'c, T, W>,
    heap: &mut Heap<SharedInner<T, W>>,
    ptr: BoxPtr<SharedInner<T, W>>,
    n: nat,
    waker: W,
    result: Poll<&mut T>,
)
    requires
        collect.lender() matches Some(lender) && lender.link() == ptr,
        heap.has(ptr),
        heap.at(ptr).at_rest(),
        collect.lender()->0.pending() ==> (n > 0 && heap.at(ptr)@.count == 1 + 2 * n && heap.at(ptr)@.waker is Some) || (n == 0
            && heap.at(ptr)@.count == 2 && heap.at(ptr)@.waker is None),
        !collect.lender()->0.pending() ==> heap.at(ptr)@.count == 3 + 2 * n && heap.at(ptr)@.waker is None,
        call_ensures(Collect::<'c, T, W>::poll, (collect, heap, waker), result),
    ensures
        ({
            let before = old(heap).at(ptr)@;
            let after = final(heap).at(ptr)@;
            &&& n == 0 ==> {
                &&& result matches Poll::Ready(value) && {
                    &&& *value == old(heap).at(ptr).value()
                    &&& *final(value) == final(heap).at(ptr).value()
                }
                &&& final(collect).lender() is None
                &&& after.count == 3
                &&& after.waker is None
                &&& after.woken == before.woken
                &&& final(heap).has(ptr)
                &&& final(heap)@.remove(ptr.addr()) == old(heap)@.remove(ptr.addr())
            }
            &&& n > 0 ==> {
                &&& result is Pending
                &&& final(collect).lender() matches Some(rest) && rest.link() == ptr && rest.pending()
                &&& after.count == 1 + 2 * n
                &&& after.waker == Some(waker)
                &&& after.woken == before.woken
                &&& final(heap).at(ptr).value() == old(heap).at(ptr).value()
                &&& final(heap).has(ptr)
                &&& final(heap)@.remove(ptr.addr()) == old(heap)@.remove(ptr.addr())
            }
        }),
{
}

/// The owner has the value to itself as soon as no borrow is out, also if the time is
/// up. Otherwise it waits for the borrows that are out until the time is up, and is
/// then given back, and does not wait.
pub proof fn law_collect_wait<'c, T, W>(
    collect: &mut Collect<'c, T, W>,
    heap: &mut Heap<SharedInner<T, W>>,
    ptr: BoxPtr<SharedInner<T, W>>,
    n: nat,
    turn: Turn<W>,
    result: Poll<Result<&mut T, &'c mut Lender<T, W>>>,
)
    requires
        collect.lender() matches Some(lender) && lender.link() == ptr,
        heap.has(ptr),
        heap.at(ptr).at_rest(),
        collect.lender()->0.pending() ==> (n > 0 && heap.at(ptr)@.count == 1 + 2 * n && heap.at(ptr)@.waker is Some) || (n == 0
            && heap.at(ptr)@.count == 2 && heap.at(ptr)@.waker is None),
        !collect.lender()->0.pending() ==> heap.at(ptr)@.count == 3 + 2 * n && heap.at(ptr)@.waker is None,
        call_ensures(Collect::<'c, T, W>::wait, (collect, heap, turn), result),
    ensures
        ({
            let before = old(heap).at(ptr)@;
            let after = final(heap).at(ptr)@;
            &&& n == 0 ==> {
                &&& result matches Poll::Ready(Ok(value)) && {
                    &&& *value == old(heap).at(ptr).value()
                    &&& *final(value) == final(heap).at(ptr).value()
                }
                &&& final(collect).lender() is None
                &&& after.count == 3
                &&& after.waker is None
                &&& after.woken == before.woken
                &&& final(heap).has(ptr)
                &&& final(heap)@.remove(ptr.addr()) == old(heap)@.remove(ptr.addr())
            }
            &&& turn matches Turn::Wait(waker) ==> n > 0 ==> {
                &&& result is Pending
                &&& final(collect).lender() matches Some(rest) && rest.link() == ptr && rest.pending()
                &&& after.count == 1 + 2 * n
                &&& after.waker == Some(waker)
                &&& after.woken == before.woken
                &&& final(heap).at(ptr).value() == old(heap).at(ptr).value()
                &&& final(heap).has(ptr)
                &&& final(heap)@.remove(ptr.addr()) == old(heap)@.remove(ptr.addr())
            }
            &&& turn is Expired && n > 0 ==> {
                &&& result matches Poll::Ready(Err(rest)) && rest.link() == ptr && !rest.pending()
                &&& final(collect).lender() is None
                &&& after.count == 3 + 2 * n
                &&& after.waker is None
                &&& after.woken == before.woken
                &&& final(heap).at(ptr).value() == old(heap).at(ptr).value()
                &&& final(heap).has(ptr)
                &&& final(heap)@.remove(ptr.addr()) == old(heap)@.remove(ptr.addr())
            }
        }),
{
}

/// An owner that gives up collecting has the same borrows out, and is not called for
/// them any more.
pub proof fn law_collect_drop<'c, T, W>(
    collect: Collect<'c, T, W>,
    heap: &mut Heap<SharedInner<T, W>>,
    ptr: BoxPtr<SharedInner<T, W>>,
    n: nat,
)
    requires
        collect.lender() matches Some(lender) && lender.link() == ptr,
        heap.has(ptr),
        heap.at(ptr).at_rest(),
        collect.lender()->0.pending() ==> (n > 0 && heap.at(ptr)@.count == 1 + 2 * n && heap.at(ptr)@.waker is Some) || (n == 0
            && heap.at(ptr)@.count == 2 && heap.at(ptr)@.waker is None),
        !collect.lender()->0.pending() ==> heap.at(ptr)@.count == 3 + 2 * n && heap.at(ptr)@.waker is None,
        call_ensures(Collect::<'c, T, W>::drop, (collect, heap), ()),
    ensures
        ({
            let before = old(heap).at(ptr)@;
            let after = final(heap).at(ptr)@;
            &&& !final(collect.lender()->0).pending()
            &&& after.count == 3 + 2 * n
            &&& after.waker is None
            &&& after.woken == before.woken
            &&& final(heap).at(ptr).value() == old(heap).at(ptr).value()
            &&& final(heap).has(ptr)
            &&& final(heap)@.remove(ptr.addr()) == old(heap)@.remove(ptr.addr())
        }),
{
}

/// The wakers that were called are handed out, each once, in the order in which they
/// were called, and the value is otherwise as it was.
pub proof fn law_take_woken<T, W>(
    lender: &Lender<T, W>,
    heap: &mut Heap<SharedInner<T, W>>,
    ptr: BoxPtr<SharedInner<T, W>>,
    woken: Vec<W>,
)
    requires
        lender.link() == ptr,
        call_ensures(Lender::<T, W>::take_woken, (lender, heap), woken),
    ensures
        ({
            let before = old(heap).at(ptr)@;
            let after = final(heap).at(ptr)@;
            &&& woken@ == before.woken
            &&& after.woken.len() == 0
            &&& after.count == before.count
            &&& after.waker == before.waker
            &&& final(heap).at(ptr).value() == old(heap).at(ptr).value()
            &&& final(heap).has(ptr)
            &&& final(heap)@.remove(ptr.addr()) == old(heap)@.remove(ptr.addr())
        }),
{
}

/// A temporary reference makes a borrow of the value, which counts like any other.
pub proof fn law_into_shared<T, W>(
    lender: &Lender<T, W>,
    shared: SharedRef<T, W>,
    heap: &mut Heap<SharedInner<T, W>>,
    ptr: BoxPtr<SharedInner<T, W>>,
    made: Shared<T, W>,
)
    requires
        lender.link() == ptr,
        heap.at(ptr)@.count < usize::MAX - 1,
        call_ensures(Lender::<T, W>::borrow_ref, (lender,), shared),
        call_ensures(SharedRef::<T, W>::into_shared, (shared, heap), made),
    ensures
        ({
            let before = old(heap).at(ptr)@;
            let after = final(heap).at(ptr)@;
            &&& made.link() == ptr
            &&& after.count == before.count + 2
            &&& after.waker == before.waker
            &&& after.woken == before.woken
            &&& final(heap).at(ptr).value() == old(heap).at(ptr).value()
            &&& final(heap).has(ptr)
            &&& final(heap)@.remove(ptr.addr()) == old(heap)@.remove(ptr.addr())
        }),
{
}

/// A value that is shared has an owner and no borrows, and comes out again as it went in.
pub proof fn law_new_and_into_inner<T, W>(
    made: &mut Heap<SharedInner<T, W>>,
    heap: &mut Heap<SharedInner<T, W>>,
    value: T,
    lender: Lender<T, W>,
    count: usize,
    back: T,
)
    requires
        call_ensures(Lender::<T, W>::new, (made, value), lender),
        *final(made) == *heap,
        call_ensures(Lender::<T, W>::borrow_count, (&lender, &*heap), count),
        call_ensures(Lender::<T, W>::into_inner, (lender, heap), back),
    ensures
        !old(made).has(lender.link()),
        !lender.pending(),
        count == 0,
        back == value,
        !final(heap).has(lender.link()),
        final(heap)@ == old(made)@,
{
}

/// A collection that is over stays so.
pub proof fn law_collected_once<'c, T, W>(
    collect: &mut Collect<'c, T, W>,
    into: &mut CollectInto<T, W>,
    heap: &mut Heap<SharedInner<T, W>>,
    later: &mut Heap<SharedInner<T, W>>,
    waker: W,
    other: W,
    result: Poll<&mut T>,
    value: Poll<T>,
)
    requires
        collect.lender() is None,
        call_ensures(Collect::<'c, T, W>::poll, (collect, heap, waker), result),
        into.lender() is None,
        call_ensures(CollectInto::<T, W>::poll, (into, later, other), value),
    ensures
        result is Pending,
        final(collect).lender() is None,
        final(heap)@ == old(heap)@,
        value is Pending,
        final(into).lender() is None,
        final(later)@ == old(later)@,
{
}

/// An owner that waits for its only borrow is called when it is returned, and then
/// has the value to itself.
pub proof fn law_lend_and_collect<T, W>(
    made: &mut Heap<SharedInner<T, W>>,
    lent: &mut Heap<SharedInner<T, W>>,
    asked: &mut Heap<SharedInner<T, W>>,
    back: &mut Heap<SharedInner<T, W>>,
    done: &mut Heap<SharedInner<T, W>>,
    value: T,
    lender: Lender<T, W>,
    shared: Shared<T, W>,
    owners: (&mut Lender<T, W>, &mut Lender<T, W>),
    wakers: (W, W),
    results: (Poll<()>, Poll<()>),
)
    requires
        call_ensures(Lender::<T, W>::new, (made, value), lender),
        *final(made) == *lent,
        call_ensures(Lender::<T, W>::borrow, (&lender, lent), shared),
        *final(lent) == *asked,
        *owners.0 == lender,
        call_ensures(Lender::<T, W>::poll_collect, (owners.0, asked, wakers.0), results.0),
        *final(asked) == *back,
        call_ensures(Shared::<T, W>::drop, (shared, back), ()),
        *final(back) == *done,
        *final(owners.0) == *owners.1,
        call_ensures(Lender::<T, W>::poll_collect, (owners.1, done, wakers.1), results.1),
    ensures
        results.0 is Pending,
        final(asked).at(lender.link())@.woken.len() == 0,
        final(back).at(lender.link())@.woken == seq![wakers.0],
        results.1 is Ready,
        !final(owners.1).pending(),
        final(done).at(lender.link()).value() == value,
{
    assert(final(made).at(lender.link())@.count == 3);
    assert(final(back).at(lender.link())@.woken =~= seq![wakers.0]);
}

} // verus!
