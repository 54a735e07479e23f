//! What the ends of a channel give to whoever uses them.
//!
//! A channel is described here by what can be told of it from outside: a value
//! is loaded or not, and it is active until one of the ends has detached.

use vstd::prelude::*;

use crate::channel::handles::{channel, send_once, Flush, ReceiveOnce, Receiver, SendOnce, Sender};
use crate::channel::memory::Channel;
use crate::error::{RecvError, TrySendError};
use crate::poll::{Poll, Turn};
use crate::util::{BoxPtr, Heap};

verus! {

/// What has been loaded is received, whether its sender is gone or waits to be
/// told. Until then the receiver waits, and only if the sender has gone without a
/// value is it told that there will be none.
pub proof fn law_receive_once_recv<T, W>(
    receiver: &mut ReceiveOnce<T, W>,
    heap: &mut Heap<Channel<T, W>>,
    ptr: BoxPtr<Channel<T, W>>,
    waker: W,
    result: Poll<Result<T, RecvError>>,
)
    requires
        receiver.link() == Some(ptr),
        heap.has(ptr),
        heap.at(ptr).at_rest(),
        call_ensures(ReceiveOnce::<T, W>::recv, (receiver, heap, waker), result),
    ensures
        ({
            let before = old(heap).at(ptr)@;
            let after = final(heap).at(ptr)@;
            &&& before.state.loaded ==> {
                &&& before.value matches Some(value) && result == Poll::Ready(Ok::<T, RecvError>(value))
                &&& final(receiver).link() is None
            }
            &&& before.state.loaded && !before.state.active
                ==> final(heap)@ == old(heap)@.remove(ptr.addr())
            &&& before.state.loaded && before.state.active ==> {
                &&& final(heap)@.remove(ptr.addr()) == old(heap)@.remove(ptr.addr())
                &&& final(heap).has(ptr)
                &&& !after.state.active
                &&& !after.state.loaded
                &&& after.value is None
                &&& after.waker is None
                &&& after.woken == (match before.waker {
                    Some(w) => before.woken.push(w),
                    None => before.woken,
                })
            }
            &&& !before.state.loaded && before.state.active ==> {
                &&& result is Pending
                &&& final(receiver).link() == Some(ptr)
                &&& final(heap)@.remove(ptr.addr()) == old(heap)@.remove(ptr.addr())
                &&& final(heap).has(ptr)
                &&& after.state.active
                &&& !after.state.loaded
                &&& after.waker == Some(waker)
                &&& after.woken == before.woken
            }
            &&& !before.state.loaded && !before.state.active ==> {
                &&& result == Poll::Ready(Err::<T, RecvError>(RecvError::Incomplete))
                &&& final(receiver).link() is None
                &&& final(heap)@ == old(heap)@.remove(ptr.addr())
            }
        }),
{
}

/// What has been loaded is received, whether its sender is gone or waits to be
/// told. Until then the receiver waits, and only if the sender has gone without a
/// value is it told that there will be none.
pub proof fn law_receive_once_poll<T, W>(
    receiver: &mut ReceiveOnce<T, W>,
    heap: &mut Heap<Channel<T, W>>,
    ptr: BoxPtr<Channel<T, W>>,
    waker: W,
    result: Poll<Result<T, RecvError>>,
)
    requires
        receiver.link() == Some(ptr),
        heap.has(ptr),
        heap.at(ptr).at_rest(),
        call_ensures(ReceiveOnce::<T, W>::poll, (receiver, heap, waker), result),
    ensures
        ({
            let before = old(heap).at(ptr)@;
            let after = final(heap).at(ptr)@;
            &&& before.state.loaded ==> {
                &&& before.value matches Some(value) && result == Poll::Ready(Ok::<T, RecvError>(value))
                &&& final(receiver).link() is None
            }
            &&& before.state.loaded && !before.state.active
                ==> final(heap)@ == old(heap)@.remove(ptr.addr())
            &&& before.state.loaded && before.state.active ==> {
                &&& final(heap)@.remove(ptr.addr()) == old(heap)@.remove(ptr.addr())
                &&& final(heap).has(ptr)
                &&& !after.state.active
                &&& !after.state.loaded
                &&& after.value is None
                &&& after.waker is None
                &&& after.woken == (match before.waker {
                    Some(w) => before.woken.push(w),
                    None => before.woken,
                })
            }
            &&& !before.state.loaded && before.state.active ==> {
                &&& result is Pending
                &&& final(receiver).link() == Some(ptr)
                &&& final(heap)@.remove(ptr.addr()) == old(heap)@.remove(ptr.addr())
                &&& final(heap).has(ptr)
                &&& after.state.active
                &&& !after.state.loaded
                &&& after.waker == Some(waker)
                &&& after.woken == before.woken
            }
            &&& !before.state.loaded && !before.state.active ==> {
                &&& result == Poll::Ready(Err::<T, RecvError>(RecvError::Incomplete))
                &&& final(receiver).link() is None
                &&& final(heap)@ == old(heap)@.remove(ptr.addr())
            }
        }),
{
}

/// What has been loaded is received, whether its sender is gone or waits to be
/// told. Until then the receiver waits, and only if the sender has gone without a
/// value is it told that there will be none.
pub proof fn law_receive_once_try_recv<T, W>(
    receiver: &mut ReceiveOnce<T, W>,
    heap: &mut Heap<Channel<T, W>>,
    ptr: BoxPtr<Channel<T, W>>,
    result: Option<Result<T, RecvError>>,
)
    requires
        receiver.link() == Some(ptr),
        heap.has(ptr),
        heap.at(ptr).at_rest(),
        call_ensures(ReceiveOnce::<T, W>::try_recv, (receiver, heap), result),
    ensures
        ({
            let before = old(heap).at(ptr)@;
            let after = final(heap).at(ptr)@;
            &&& before.state.loaded ==> {
                &&& before.value matches Some(value) && result == Some(Ok::<T, RecvError>(value))
                &&& final(receiver).link() is None
            }
            &&& before.state.loaded && !before.state.active
                ==> final(heap)@ == old(heap)@.remove(ptr.addr())
            &&& before.state.loaded && before.state.active ==> {
                &&& final(heap)@.remove(ptr.addr()) == old(heap)@.remove(ptr.addr())
                &&& final(heap).has(ptr)
                &&& !after.state.active
                &&& !after.state.loaded
                &&& after.value is None
                &&& after.waker is None
                &&& after.woken == (match before.waker {
                    Some(w) => before.woken.push(w),
                    None => before.woken,
                })
            }
            &&& !before.state.loaded && before.state.active ==> {
                &&& result is None
                &&& final(receiver).link() == Some(ptr)
                &&& final(heap)@.remove(ptr.addr()) == old(heap)@.remove(ptr.addr())
                &&& final(heap).has(ptr)
                &&& after.state.active
                &&& !after.state.loaded
                &&& after.waker == None::<W>
                &&& after.woken == before.woken
            }
            &&& !before.state.loaded && !before.state.active ==> {
                &&& result == Some(Err::<T, RecvError>(RecvError::Incomplete))
                &&& final(receiver).link() is None
                &&& final(heap)@ == old(heap)@.remove(ptr.addr())
            }
        }),
{
}

/// As an item of a stream, what has been loaded is received, whether its sender
/// is gone or waits to be told. Until then the receiver waits, and the stream
/// ends if the sender has gone without a value.
pub proof fn law_receive_once_poll_next<T, W>(
    receiver: &mut ReceiveOnce<T, W>,
    heap: &mut Heap<Channel<T, W>>,
    ptr: BoxPtr<Channel<T, W>>,
    waker: W,
    result: Poll<Option<T>>,
)
    requires
        receiver.link() == Some(ptr),
        heap.has(ptr),
        heap.at(ptr).at_rest(),
        call_ensures(ReceiveOnce::<T, W>::poll_next, (receiver, heap, waker), result),
    ensures
        ({
            let before = old(heap).at(ptr)@;
            let after = final(heap).at(ptr)@;
            &&& before.state.loaded ==> {
                &&& before.value matches Some(value) && result == Poll::Ready(Some(value))
                &&& final(receiver).link() is None
            }
            &&& before.state.loaded && !before.state.active
                ==> final(heap)@ == old(heap)@.remove(ptr.addr())
            &&& before.state.loaded && before.state.active ==> {
                &&& final(heap)@.remove(ptr.addr()) == old(heap)@.remove(ptr.addr())
                &&& final(heap).has(ptr)
                &&& !after.state.active
                &&& !after.state.loaded
                &&& after.value is None
                &&& after.waker is None
                &&& after.woken == (match before.waker {
                    Some(w) => before.woken.push(w),
                    None => before.woken,
                })
            }
            &&& !before.state.loaded && before.state.active ==> {
                &&& result is Pending
                &&& final(receiver).link() == Some(ptr)
                &&& final(heap)@.remove(ptr.addr()) == old(heap)@.remove(ptr.addr())
                &&& final(heap).has(ptr)
                &&& after.state.active
                &&& !after.state.loaded
                &&& after.waker == Some(waker)
                &&& after.woken == before.woken
            }
            &&& !before.state.loaded && !before.state.active ==> {
                &&& result == Poll::Ready(None::<T>)
                &&& final(receiver).link() is None
                &&& final(heap)@ == old(heap)@.remove(ptr.addr())
            }
        }),
{
}

/// What has been loaded is received, whether its sender is gone or waits to be
/// told, and also if the time is up. Without a value the receiver waits until the
/// time is up, and can ask again after that.
pub proof fn law_receive_once_recv_timeout<T, W>(
    receiver: &mut ReceiveOnce<T, W>,
    heap: &mut Heap<Channel<T, W>>,
    ptr: BoxPtr<Channel<T, W>>,
    turn: Turn<W>,
    result: Poll<Result<T, RecvError>>,
)
    requires
        receiver.link() == Some(ptr),
        heap.has(ptr),
        heap.at(ptr).at_rest(),
        call_ensures(ReceiveOnce::<T, W>::recv_timeout, (receiver, heap, turn), result),
    ensures
        ({
            let before = old(heap).at(ptr)@;
            let after = final(heap).at(ptr)@;
            &&& before.state.loaded ==> {
                &&& before.value matches Some(value) && result == Poll::Ready(Ok::<T, RecvError>(value))
                &&& final(receiver).link() is None
            }
            &&& before.state.loaded && !before.state.active
                ==> final(heap)@ == old(heap)@.remove(ptr.addr())
            &&& before.state.loaded && before.state.active ==> {
                &&& final(heap)@.remove(ptr.addr()) == old(heap)@.remove(ptr.addr())
                &&& final(heap).has(ptr)
                &&& !after.state.active
                &&& !after.state.loaded
                &&& after.value is None
                &&& after.waker is None
                &&& after.woken == (match before.waker {
                    Some(w) => before.woken.push(w),
                    None => before.woken,
                })
            }
            &&& !before.state.loaded && before.state.active ==> {
                &&& result == (match turn {
                    Turn::Wait(_) => Poll::Pending,
                    Turn::Expired => Poll::Ready(Err::<T, RecvError>(RecvError::TimedOut)),
                })
                &&& final(receiver).link() == Some(ptr)
                &&& final(heap)@.remove(ptr.addr()) == old(heap)@.remove(ptr.addr())
                &&& final(heap).has(ptr)
                &&& after.state.active
                &&& !after.state.loaded
                &&& after.waker == (match turn {
                    Turn::Wait(waker) => Some(waker),
                    Turn::Expired => None,
                })
                &&& after.woken == before.woken
            }
            &&& !before.state.loaded && !before.state.active ==> {
                &&& result == Poll::Ready(Err::<T, RecvError>(RecvError::Incomplete))
                &&& final(receiver).link() is None
                &&& final(heap)@ == old(heap)@.remove(ptr.addr())
            }
        }),
{
}

/// A receiver that has produced its result has no other.
pub proof fn law_receive_once_terminated<T, W>(
    receiver: &mut ReceiveOnce<T, W>,
    heap: &mut Heap<Channel<T, W>>,
    waker: W,
    turn: Turn<W>,
    result: Poll<Result<T, RecvError>>,
)
    requires
        receiver.link() is None,
        call_ensures(ReceiveOnce::<T, W>::recv, (receiver, heap, waker), result) || call_ensures(
            ReceiveOnce::<T, W>::poll,
            (receiver, heap, waker),
            result,
        ) || call_ensures(ReceiveOnce::<T, W>::recv_timeout, (receiver, heap, turn), result),
    ensures
        result == Poll::Ready(Err::<T, RecvError>(RecvError::Terminated)),
        final(receiver).link() is None,
        final(heap)@ == old(heap)@,
{
}

/// What has been loaded is received, and the sender is told if it waits for that.
/// Without a value the receiver waits as long as the sender is there; then the
/// stream ends.
pub proof fn law_receiver_wait_next<T, W>(
    receiver: &mut Receiver<T, W>,
    heap: &mut Heap<Channel<T, W>>,
    ptr: BoxPtr<Channel<T, W>>,
    waker: W,
    result: Poll<Option<T>>,
)
    requires
        receiver.link() == Some(ptr),
        heap.has(ptr),
        heap.at(ptr).at_rest(),
        call_ensures(Receiver::<T, W>::wait_next, (receiver, heap, waker), result),
    ensures
        ({
            let before = old(heap).at(ptr)@;
            let after = final(heap).at(ptr)@;
            &&& before.state.loaded ==> (before.value matches Some(value)
                && result == Poll::Ready(Some(value)))
            &&& before.state.loaded && !before.state.active ==> {
                &&& final(receiver).link() is None
                &&& final(heap)@ == old(heap)@.remove(ptr.addr())
            }
            &&& before.state.loaded && before.state.active ==> {
                &&& final(receiver).link() == Some(ptr)
                &&& final(heap)@.remove(ptr.addr()) == old(heap)@.remove(ptr.addr())
                &&& final(heap).has(ptr)
                &&& after.state.active
                &&& !after.state.loaded
                &&& after.value is None
                &&& after.waker is None
                &&& after.woken == (match before.waker {
                    Some(w) => before.woken.push(w),
                    None => before.woken,
                })
            }
            &&& !before.state.loaded && before.state.active ==> {
                &&& result is Pending
                &&& final(receiver).link() == Some(ptr)
                &&& final(heap)@.remove(ptr.addr()) == old(heap)@.remove(ptr.addr())
                &&& final(heap).has(ptr)
                &&& after.state.active
                &&& !after.state.loaded
                &&& after.waker == Some(waker)
                &&& after.woken == before.woken
            }
            &&& !before.state.loaded && !before.state.active ==> {
                &&& result == Poll::Ready(None::<T>)
                &&& final(receiver).link() is None
                &&& final(heap)@ == old(heap)@.remove(ptr.addr())
            }
        }),
{
}

/// What has been loaded is received, and the sender is told if it waits for that.
/// Without a value the receiver waits as long as the sender is there; then the
/// stream ends.
pub proof fn law_receiver_poll_next<T, W>(
    receiver: &mut Receiver<T, W>,
    heap: &mut Heap<Channel<T, W>>,
    ptr: BoxPtr<Channel<T, W>>,
    waker: W,
    result: Poll<Option<T>>,
)
    requires
        receiver.link() == Some(ptr),
        heap.has(ptr),
        heap.at(ptr).at_rest(),
        call_ensures(Receiver::<T, W>::poll_next, (receiver, heap, waker), result),
    ensures
        ({
            let before = old(heap).at(ptr)@;
            let after = final(heap).at(ptr)@;
            &&& before.state.loaded ==> (before.value matches Some(value)
                && result == Poll::Ready(Some(value)))
            &&& before.state.loaded && !before.state.active ==> {
                &&& final(receiver).link() is None
                &&& final(heap)@ == old(heap)@.remove(ptr.addr())
            }
            &&& before.state.loaded && before.state.active ==> {
                &&& final(receiver).link() == Some(ptr)
                &&& final(heap)@.remove(ptr.addr()) == old(heap)@.remove(ptr.addr())
                &&& final(heap).has(ptr)
                &&& after.state.active
                &&& !after.state.loaded
                &&& after.value is None
                &&& after.waker is None
                &&& after.woken == (match before.waker {
                    Some(w) => before.woken.push(w),
                    None => before.woken,
                })
            }
            &&& !before.state.loaded && before.state.active ==> {
                &&& result is Pending
                &&& final(receiver).link() == Some(ptr)
                &&& final(heap)@.remove(ptr.addr()) == old(heap)@.remove(ptr.addr())
                &&& final(heap).has(ptr)
                &&& after.state.active
                &&& !after.state.loaded
                &&& after.waker == Some(waker)
                &&& after.woken == before.woken
            }
            &&& !before.state.loaded && !before.state.active ==> {
                &&& result == Poll::Ready(None::<T>)
                &&& final(receiver).link() is None
                &&& final(heap)@ == old(heap)@.remove(ptr.addr())
            }
        }),
{
}

/// What has been loaded is received, and the sender is told if it waits for that.
/// Without a value nothing is received, and the receiver can ask again as long as
/// the sender is there.
pub proof fn law_receiver_try_recv<T, W>(
    receiver: &mut Receiver<T, W>,
    heap: &mut Heap<Channel<T, W>>,
    ptr: BoxPtr<Channel<T, W>>,
    result: Poll<Option<T>>,
)
    requires
        receiver.link() == Some(ptr),
        heap.has(ptr),
        heap.at(ptr).at_rest(),
        call_ensures(Receiver::<T, W>::try_recv, (receiver, heap), result),
    ensures
        ({
            let before = old(heap).at(ptr)@;
            let after = final(heap).at(ptr)@;
            &&& before.state.loaded ==> (before.value matches Some(value)
                && result == Poll::Ready(Some(value)))
            &&& before.state.loaded && !before.state.active ==> {
                &&& final(receiver).link() is None
                &&& final(heap)@ == old(heap)@.remove(ptr.addr())
            }
            &&& before.state.loaded && before.state.active ==> {
                &&& final(receiver).link() == Some(ptr)
                &&& final(heap)@.remove(ptr.addr()) == old(heap)@.remove(ptr.addr())
                &&& final(heap).has(ptr)
                &&& after.state.active
                &&& !after.state.loaded
                &&& after.value is None
                &&& after.waker is None
                &&& after.woken == (match before.waker {
                    Some(w) => before.woken.push(w),
                    None => before.woken,
                })
            }
            &&& !before.state.loaded && before.state.active ==> {
                &&& result == Poll::Ready(None::<T>)
                &&& final(receiver).link() == Some(ptr)
                &&& final(heap)@.remove(ptr.addr()) == old(heap)@.remove(ptr.addr())
                &&& final(heap).has(ptr)
                &&& after.state.active
                &&& !after.state.loaded
                &&& after.waker == None::<W>
                &&& after.woken == before.woken
            }
            &&& !before.state.loaded && !before.state.active ==> {
                &&& result == Poll::Ready(None::<T>)
                &&& final(receiver).link() is None
                &&& final(heap)@ == old(heap)@.remove(ptr.addr())
            }
        }),
{
}

/// What has been loaded is received, also if the time is up, and the sender is
/// told if it waits for that. Without a value the receiver waits until the time is
/// up, as long as the sender is there.
pub proof fn law_receiver_wait_next_timeout<T, W>(
    receiver: &mut Receiver<T, W>,
    heap: &mut Heap<Channel<T, W>>,
    ptr: BoxPtr<Channel<T, W>>,
    turn: Turn<W>,
    result: Poll<Result<T, RecvError>>,
)
    requires
        receiver.link() == Some(ptr),
        heap.has(ptr),
        heap.at(ptr).at_rest(),
        call_ensures(Receiver::<T, W>::wait_next_timeout, (receiver, heap, turn), result),
    ensures
        ({
            let before = old(heap).at(ptr)@;
            let after = final(heap).at(ptr)@;
            &&& before.state.loaded ==> (before.value matches Some(value)
                && result == Poll::Ready(Ok::<T, RecvError>(value)))
            &&& before.state.loaded && !before.state.active ==> {
                &&& final(receiver).link() is None
                &&& final(heap)@ == old(heap)@.remove(ptr.addr())
            }
            &&& before.state.loaded && before.state.active ==> {
                &&& final(receiver).link() == Some(ptr)
                &&& final(heap)@.remove(ptr.addr()) == old(heap)@.remove(ptr.addr())
                &&& final(heap).has(ptr)
                &&& after.state.active
                &&& !after.state.loaded
                &&& after.value is None
                &&& after.waker is None
                &&& after.woken == (match before.waker {
                    Some(w) => before.woken.push(w),
                    None => before.woken,
                })
            }
            &&& !before.state.loaded && before.state.active ==> {
                &&& result == (match turn {
                    Turn::Wait(_) => Poll::Pending,
                    Turn::Expired => Poll::Ready(Err::<T, RecvError>(RecvError::TimedOut)),
                })
                &&& final(receiver).link() == Some(ptr)
                &&& final(heap)@.remove(ptr.addr()) == old(heap)@.remove(ptr.addr())
                &&& final(heap).has(ptr)
                &&& after.state.active
                &&& !after.state.loaded
                &&& after.waker == (match turn {
                    Turn::Wait(waker) => Some(waker),
                    Turn::Expired => None,
                })
                &&& after.woken == before.woken
            }
            &&& !before.state.loaded && !before.state.active ==> {
                &&& result == Poll::Ready(Err::<T, RecvError>(RecvError::Incomplete))
                &&& final(receiver).link() is None
                &&& final(heap)@ == old(heap)@.remove(ptr.addr())
            }
        }),
{
}

/// A value is loaded if the receiver is there and has received the one before; a
/// receiver that waits is called. Otherwise it comes back, and nothing has changed.
pub proof fn law_sender_try_send<T, W>(
    sender: &mut Sender<T, W>,
    heap: &mut Heap<Channel<T, W>>,
    ptr: BoxPtr<Channel<T, W>>,
    value: T,
    result: Result<(), TrySendError<T>>,
)
    requires
        sender.link() == Some(ptr),
        heap.has(ptr),
        heap.at(ptr).at_rest(),
        call_ensures(Sender::<T, W>::try_send, (sender, heap, value), result),
    ensures
        ({
            let before = old(heap).at(ptr)@;
            let after = final(heap).at(ptr)@;
            &&& before.state.active && !before.state.loaded ==> {
                &&& result is Ok
                &&& final(sender).link() == Some(ptr)
                &&& after.state.active
                &&& after.waker is None
                &&& final(heap)@.remove(ptr.addr()) == old(heap)@.remove(ptr.addr())
                &&& final(heap).has(ptr)
                &&& after.state.loaded
                &&& after.value == Some(value)
                &&& after.woken == (match before.waker {
                    Some(w) => before.woken.push(w),
                    None => before.woken,
                })
            }
            &&& before.state.active && before.state.loaded ==> {
                &&& result == Err::<(), TrySendError<T>>(TrySendError::Full(value))
                &&& final(sender).link() == Some(ptr)
                &&& final(heap)@.remove(ptr.addr()) == old(heap)@.remove(ptr.addr())
                &&& final(heap).has(ptr)
                &&& after == before
            }
            &&& !before.state.active ==> {
                &&& result == Err::<(), TrySendError<T>>(TrySendError::Disconnected(value))
                &&& final(sender).link() is None
                &&& final(heap)@ == old(heap)@.remove(ptr.addr())
            }
        }),
{
}

/// The only value is loaded if the receiver is there, and the sender is gone with
/// that; a receiver that waits is called. Otherwise the value comes back.
pub proof fn law_send_once_try_send<T, W>(
    sender: SendOnce<T, W>,
    heap: &mut Heap<Channel<T, W>>,
    ptr: BoxPtr<Channel<T, W>>,
    value: T,
    result: Result<(), TrySendError<T>>,
)
    requires
        sender.link() == ptr,
        heap.has(ptr),
        heap.at(ptr).at_rest(),
        call_ensures(SendOnce::<T, W>::try_send, (sender, heap, value), result),
    ensures
        ({
            let before = old(heap).at(ptr)@;
            let after = final(heap).at(ptr)@;
            &&& before.state.active && before.state.loaded ==> {
                &&& result == Err::<(), TrySendError<T>>(TrySendError::Full(value))
                &&& final(heap)@ == old(heap)@.remove(ptr.addr())
            }
            &&& before.state.active && !before.state.loaded ==> {
                &&& result is Ok
                &&& !after.state.active
                &&& after.waker is None
                &&& final(heap)@.remove(ptr.addr()) == old(heap)@.remove(ptr.addr())
                &&& final(heap).has(ptr)
                &&& after.state.loaded
                &&& after.value == Some(value)
                &&& after.woken == (match before.waker {
                    Some(w) => before.woken.push(w),
                    None => before.woken,
                })
            }
            &&& !before.state.active ==> {
                &&& result == Err::<(), TrySendError<T>>(TrySendError::Disconnected(value))
                &&& final(heap)@ == old(heap)@.remove(ptr.addr())
            }
        }),
{
}

/// A send begins by loading the value, as soon as it is polled. It then waits to
/// be told that the value has been received. If the receiver is gone, or has not
/// received the value before, the value comes back.
pub proof fn law_flush_loads<T, W>(
    flush: &mut Flush<T, W>,
    heap: &mut Heap<Channel<T, W>>,
    ptr: BoxPtr<Channel<T, W>>,
    value: T,
    waker: W,
    result: Poll<Result<(), TrySendError<T>>>,
)
    requires
        flush.link() == Some(ptr),
        flush.value() == Some(value),
        heap.has(ptr),
        heap.at(ptr).at_rest(),
        call_ensures(Flush::<T, W>::poll, (flush, heap, waker), result),
    ensures
        ({
            let before = old(heap).at(ptr)@;
            let after = final(heap).at(ptr)@;
            &&& final(flush).value() is None
            &&& final(flush).finalize() == old(flush).finalize()
            &&& before.state.active && !before.state.loaded ==> {
                &&& result is Pending
                &&& final(flush).link() == Some(ptr)
                &&& after.state.active
                &&& after.waker == Some(waker)
                &&& final(heap)@.remove(ptr.addr()) == old(heap)@.remove(ptr.addr())
                &&& final(heap).has(ptr)
                &&& after.state.loaded
                &&& after.value == Some(value)
                &&& after.woken == (match before.waker {
                    Some(w) => before.woken.push(w),
                    None => before.woken,
                })
            }
            &&& before.state.active && before.state.loaded ==> {
                &&& result == Poll::Ready(Err::<(), TrySendError<T>>(TrySendError::Full(value)))
                &&& final(flush).link() == Some(ptr)
                &&& final(heap)@.remove(ptr.addr()) == old(heap)@.remove(ptr.addr())
                &&& final(heap).has(ptr)
                &&& after == before
            }
            &&& !before.state.active ==> result == Poll::Ready(
                Err::<(), TrySendError<T>>(TrySendError::Disconnected(value)),
            )
            &&& !before.state.active && old(flush).finalize() ==> final(flush).link() is None
                && final(heap)@ == old(heap)@.remove(ptr.addr())
            &&& !before.state.active && !old(flush).finalize() ==> final(flush).link() == Some(ptr) && after
                == before
        }),
{
}

/// A send whose value has been loaded is done once the value has been received.
/// Until then it waits; if the receiver has gone without it, the value comes back.
pub proof fn law_flush_waits<T, W>(
    flush: &mut Flush<T, W>,
    heap: &mut Heap<Channel<T, W>>,
    ptr: BoxPtr<Channel<T, W>>,
    waker: W,
    result: Poll<Result<(), TrySendError<T>>>,
)
    requires
        flush.link() == Some(ptr),
        flush.value() is None,
        heap.has(ptr),
        heap.at(ptr).at_rest(),
        call_ensures(Flush::<T, W>::poll, (flush, heap, waker), result),
    ensures
        ({
            let before = old(heap).at(ptr)@;
            let after = final(heap).at(ptr)@;
            &&& final(flush).value() is None
            &&& final(flush).finalize() == old(flush).finalize()
            &&& !before.state.loaded ==> result == Poll::Ready(Ok::<(), TrySendError<T>>(()))
            &&& before.state.loaded && before.state.active ==> {
                &&& result is Pending
                &&& final(flush).link() == Some(ptr)
                &&& final(heap)@.remove(ptr.addr()) == old(heap)@.remove(ptr.addr())
                &&& final(heap).has(ptr)
                &&& after.state.active
                &&& after.state.loaded
                &&& after.value == before.value
                &&& after.waker == Some(waker)
                &&& after.woken == before.woken
            }
            &&& before.state.loaded && !before.state.active ==> (before.value matches Some(value) && result
                == Poll::Ready(Err::<(), TrySendError<T>>(TrySendError::Disconnected(value))))
            &&& result is Ready && old(flush).finalize() ==> final(flush).link() is None
            &&& result is Ready && !old(flush).finalize() ==> {
                &&& final(flush).link() == Some(ptr)
                &&& final(heap)@.remove(ptr.addr()) == old(heap)@.remove(ptr.addr())
                &&& final(heap).has(ptr)
                &&& after.state.active == before.state.active
                &&& !after.state.loaded
                &&& after.value is None
                &&& after.woken == before.woken
            }
            &&& old(flush).finalize() && !before.state.active
                ==> final(heap)@ == old(heap)@.remove(ptr.addr())
            &&& old(flush).finalize() && before.state.active && !before.state.loaded ==> {
                &&& final(heap)@.remove(ptr.addr()) == old(heap)@.remove(ptr.addr())
                &&& final(heap).has(ptr)
                &&& !after.state.active
                &&& !after.state.loaded
                &&& after.woken == before.woken
            }
        }),
{
}

/// A sender that goes leaves what it has loaded behind, and calls a receiver that
/// waits. If the receiver is gone, the channel goes too.
pub proof fn law_send_once_drop<T, W>(
    sender: SendOnce<T, W>,
    heap: &mut Heap<Channel<T, W>>,
    ptr: BoxPtr<Channel<T, W>>,
)
    requires
        sender.link() == ptr,
        heap.has(ptr),
        heap.at(ptr).at_rest(),
        call_ensures(SendOnce::<T, W>::drop, (sender, heap), ()),
    ensures
        ({
            let before = old(heap).at(ptr)@;
            let after = final(heap).at(ptr)@;
            &&& !before.state.active ==> final(heap)@ == old(heap)@.remove(ptr.addr())
            &&& before.state.active ==> {
                &&& final(heap)@.remove(ptr.addr()) == old(heap)@.remove(ptr.addr())
                &&& final(heap).has(ptr)
                &&& !after.state.active
                &&& after.state.loaded == before.state.loaded
                &&& after.value == before.value
                &&& after.waker is None
            }
            &&& before.state.active && !before.state.loaded ==> after.woken == (match before.waker {
                Some(w) => before.woken.push(w),
                None => before.woken,
            })
            &&& before.state.active && !(!before.state.loaded) ==> after.woken == before.woken
        }),
{
}

/// A sender that goes leaves what it has loaded behind, and calls a receiver that
/// waits. If the receiver is gone, the channel goes too.
pub proof fn law_sender_drop<T, W>(
    sender: Sender<T, W>,
    heap: &mut Heap<Channel<T, W>>,
    ptr: BoxPtr<Channel<T, W>>,
)
    requires
        sender.link() == Some(ptr),
        heap.has(ptr),
        heap.at(ptr).at_rest(),
        call_ensures(Sender::<T, W>::drop, (sender, heap), ()),
    ensures
        ({
            let before = old(heap).at(ptr)@;
            let after = final(heap).at(ptr)@;
            &&& !before.state.active ==> final(heap)@ == old(heap)@.remove(ptr.addr())
            &&& before.state.active ==> {
                &&& final(heap)@.remove(ptr.addr()) == old(heap)@.remove(ptr.addr())
                &&& final(heap).has(ptr)
                &&& !after.state.active
                &&& after.state.loaded == before.state.loaded
                &&& after.value == before.value
                &&& after.waker is None
            }
            &&& before.state.active && !before.state.loaded ==> after.woken == (match before.waker {
                Some(w) => before.woken.push(w),
                None => before.woken,
            })
            &&& before.state.active && !(!before.state.loaded) ==> after.woken == before.woken
        }),
{
}

/// A receiver that goes leaves what it has not received behind, for the sender to
/// take back, and calls a sender that waits for it to be received. If the sender is
/// gone, the channel goes too.
pub proof fn law_receive_once_drop<T, W>(
    receiver: ReceiveOnce<T, W>,
    heap: &mut Heap<Channel<T, W>>,
    ptr: BoxPtr<Channel<T, W>>,
)
    requires
        receiver.link() == Some(ptr),
        heap.has(ptr),
        heap.at(ptr).at_rest(),
        call_ensures(ReceiveOnce::<T, W>::drop, (receiver, heap), ()),
    ensures
        ({
            let before = old(heap).at(ptr)@;
            let after = final(heap).at(ptr)@;
            &&& !before.state.active ==> final(heap)@ == old(heap)@.remove(ptr.addr())
            &&& before.state.active ==> {
                &&& final(heap)@.remove(ptr.addr()) == old(heap)@.remove(ptr.addr())
                &&& final(heap).has(ptr)
                &&& !after.state.active
                &&& after.state.loaded == before.state.loaded
                &&& after.value == before.value
                &&& after.waker is None
            }
            &&& before.state.active && before.state.loaded ==> after.woken == (match before.waker {
                Some(w) => before.woken.push(w),
                None => before.woken,
            })
            &&& before.state.active && !(before.state.loaded) ==> after.woken == before.woken
        }),
{
}

/// A receiver that goes leaves what it has not received behind, for the sender to
/// take back, and calls a sender that waits for it to be received. If the sender is
/// gone, the channel goes too.
pub proof fn law_receiver_drop<T, W>(
    receiver: Receiver<T, W>,
    heap: &mut Heap<Channel<T, W>>,
    ptr: BoxPtr<Channel<T, W>>,
)
    requires
        receiver.link() == Some(ptr),
        heap.has(ptr),
        heap.at(ptr).at_rest(),
        call_ensures(Receiver::<T, W>::drop, (receiver, heap), ()),
    ensures
        ({
            let before = old(heap).at(ptr)@;
            let after = final(heap).at(ptr)@;
            &&& !before.state.active ==> final(heap)@ == old(heap)@.remove(ptr.addr())
            &&& before.state.active ==> {
                &&& final(heap)@.remove(ptr.addr()) == old(heap)@.remove(ptr.addr())
                &&& final(heap).has(ptr)
                &&& !after.state.active
                &&& after.state.loaded == before.state.loaded
                &&& after.value == before.value
                &&& after.waker is None
            }
            &&& before.state.active && before.state.loaded ==> after.woken == (match before.waker {
                Some(w) => before.woken.push(w),
                None => before.woken,
            })
            &&& before.state.active && !(before.state.loaded) ==> after.woken == before.woken
        }),
{
}

/// A receive that is cancelled gives what has been loaded, and the receiver is gone
/// with that: nothing can be sent any more.
pub proof fn law_receive_once_cancel<T, W>(
    receiver: ReceiveOnce<T, W>,
    heap: &mut Heap<Channel<T, W>>,
    ptr: BoxPtr<Channel<T, W>>,
    result: Option<T>,
)
    requires
        receiver.link() == Some(ptr),
        heap.has(ptr),
        heap.at(ptr).at_rest(),
        call_ensures(ReceiveOnce::<T, W>::cancel, (receiver, heap), result),
    ensures
        ({
            let before = old(heap).at(ptr)@;
            let after = final(heap).at(ptr)@;
            &&& result == before.value
            &&& !before.state.active ==> final(heap)@ == old(heap)@.remove(ptr.addr())
            &&& before.state.active ==> {
                &&& final(heap)@.remove(ptr.addr()) == old(heap)@.remove(ptr.addr())
                &&& final(heap).has(ptr)
                &&& !after.state.active
                &&& !after.state.loaded
                &&& after.value is None
            }
            &&& before.state.active && before.state.loaded ==> {
                &&& after.woken == (match before.waker {
                    Some(w) => before.woken.push(w),
                    None => before.woken,
                })
            }
        }),
{
}

/// A receive that is cancelled gives what has been loaded, and the receiver is gone
/// with that: nothing can be sent any more.
pub proof fn law_receiver_cancel<T, W>(
    receiver: Receiver<T, W>,
    heap: &mut Heap<Channel<T, W>>,
    ptr: BoxPtr<Channel<T, W>>,
    result: Option<T>,
)
    requires
        receiver.link() == Some(ptr),
        heap.has(ptr),
        heap.at(ptr).at_rest(),
        call_ensures(Receiver::<T, W>::cancel, (receiver, heap), result),
    ensures
        ({
            let before = old(heap).at(ptr)@;
            let after = final(heap).at(ptr)@;
            &&& result == before.value
            &&& !before.state.active ==> final(heap)@ == old(heap)@.remove(ptr.addr())
            &&& before.state.active ==> {
                &&& final(heap)@.remove(ptr.addr()) == old(heap)@.remove(ptr.addr())
                &&& final(heap).has(ptr)
                &&& !after.state.active
                &&& !after.state.loaded
                &&& after.value is None
            }
            &&& before.state.active && before.state.loaded ==> {
                &&& after.woken == (match before.waker {
                    Some(w) => before.woken.push(w),
                    None => before.woken,
                })
            }
        }),
{
}

/// A sender can find out that the receiver is gone, and is not told so before.
pub proof fn law_send_once_is_canceled<T, W>(
    sender: &SendOnce<T, W>,
    heap: &Heap<Channel<T, W>>,
    ptr: BoxPtr<Channel<T, W>>,
    yes: bool,
)
    requires
        sender.link() == ptr,
        call_ensures(SendOnce::<T, W>::is_canceled, (sender, heap), yes),
    ensures
        yes == !heap.at(ptr)@.state.active,
{
}

/// A sender can find out that the receiver is gone, and is not told so before.
pub proof fn law_sender_is_canceled<T, W>(
    sender: &Sender<T, W>,
    heap: &Heap<Channel<T, W>>,
    ptr: BoxPtr<Channel<T, W>>,
    yes: bool,
)
    requires
        sender.link() == Some(ptr),
        call_ensures(Sender::<T, W>::is_canceled, (sender, heap), yes),
    ensures
        yes == !heap.at(ptr)@.state.active,
{
}

/// There is nothing more to come only if the sender is gone and what it sent has
/// been received.
pub proof fn law_receive_once_is_terminated<T, W>(
    receiver: &ReceiveOnce<T, W>,
    heap: &Heap<Channel<T, W>>,
    yes: bool,
)
    requires
        call_ensures(ReceiveOnce::<T, W>::is_terminated, (receiver, heap), yes),
    ensures
        receiver.link() is None ==> yes,
        receiver.link() matches Some(ptr) ==> yes == (!heap.at(ptr)@.state.active && !heap.at(
            ptr,
        )@.state.loaded),
{
}

/// There is nothing more to come only if the sender is gone and what it sent has
/// been received.
pub proof fn law_receiver_is_terminated<T, W>(
    receiver: &Receiver<T, W>,
    heap: &Heap<Channel<T, W>>,
    yes: bool,
)
    requires
        call_ensures(Receiver::<T, W>::is_terminated, (receiver, heap), yes),
    ensures
        receiver.link() is None ==> yes,
        receiver.link() matches Some(ptr) ==> yes == (!heap.at(ptr)@.state.active && !heap.at(
            ptr,
        )@.state.loaded),
{
}

/// A sender that gives up on its last value goes, as if it had not begun to send it;
/// what it has loaded stays to be received. A sender of many values stays.
pub proof fn law_flush_drop<T, W>(
    flush: Flush<T, W>,
    heap: &mut Heap<Channel<T, W>>,
    ptr: BoxPtr<Channel<T, W>>,
)
    requires
        flush.link() == Some(ptr),
        heap.has(ptr),
        heap.at(ptr).at_rest(),
        call_ensures(Flush::<T, W>::drop, (flush, heap), ()),
    ensures
        ({
            let before = old(heap).at(ptr)@;
            let after = final(heap).at(ptr)@;
            &&& !flush.finalize() ==> final(heap)@ == old(heap)@
            &&& flush.finalize() && !before.state.active
                ==> final(heap)@ == old(heap)@.remove(ptr.addr())
            &&& flush.finalize() && before.state.active ==> {
                &&& final(heap)@.remove(ptr.addr()) == old(heap)@.remove(ptr.addr())
                &&& final(heap).has(ptr)
                &&& !after.state.active
                &&& after.state.loaded == before.state.loaded
                &&& after.value == before.value
                &&& after.waker is None
            }
            &&& flush.finalize() && before.state.active && !before.state.loaded ==> {
                &&& after.woken == (match before.waker {
                    Some(w) => before.woken.push(w),
                    None => before.woken,
                })
            }
            &&& flush.finalize() && before.state.active && before.state.loaded
                ==> after.woken == before.woken
        }),
{
}

/// The wakers that were called are handed out, each once, in the order in which they
/// were called, and the channel is otherwise as it was.
pub proof fn law_send_once_take_woken<T, W>(
    sender: &SendOnce<T, W>,
    heap: &mut Heap<Channel<T, W>>,
    ptr: BoxPtr<Channel<T, W>>,
    woken: Vec<W>,
)
    requires
        sender.link() == ptr,
        call_ensures(SendOnce::<T, W>::take_woken, (sender, heap), woken),
    ensures
        ({
            let before = old(heap).at(ptr)@;
            let after = final(heap).at(ptr)@;
            &&& woken@ == before.woken
            &&& after.woken.len() == 0
            &&& after.state == before.state
            &&& after.value == before.value
            &&& after.waker == before.waker
            &&& final(heap).has(ptr)
            &&& final(heap)@.remove(ptr.addr()) == old(heap)@.remove(ptr.addr())
        }),
{
}

/// The wakers that were called are handed out, each once, in the order in which they
/// were called, and the channel is otherwise as it was.
pub proof fn law_sender_take_woken<T, W>(
    sender: &Sender<T, W>,
    heap: &mut Heap<Channel<T, W>>,
    ptr: BoxPtr<Channel<T, W>>,
    woken: Vec<W>,
)
    requires
        sender.link() == Some(ptr),
        call_ensures(Sender::<T, W>::take_woken, (sender, heap), woken),
    ensures
        ({
            let before = old(heap).at(ptr)@;
            let after = final(heap).at(ptr)@;
            &&& woken@ == before.woken
            &&& after.woken.len() == 0
            &&& after.state == before.state
            &&& after.value == before.value
            &&& after.waker == before.waker
            &&& final(heap).has(ptr)
            &&& final(heap)@.remove(ptr.addr()) == old(heap)@.remove(ptr.addr())
        }),
{
}

/// The wakers that were called are handed out, each once, in the order in which they
/// were called, and the channel is otherwise as it was.
pub proof fn law_receive_once_take_woken<T, W>(
    receiver: &ReceiveOnce<T, W>,
    heap: &mut Heap<Channel<T, W>>,
    ptr: BoxPtr<Channel<T, W>>,
    woken: Vec<W>,
)
    requires
        receiver.link() == Some(ptr),
        call_ensures(ReceiveOnce::<T, W>::take_woken, (receiver, heap), woken),
    ensures
        ({
            let before = old(heap).at(ptr)@;
            let after = final(heap).at(ptr)@;
            &&& woken@ == before.woken
            &&& after.woken.len() == 0
            &&& after.state == before.state
            &&& after.value == before.value
            &&& after.waker == before.waker
            &&& final(heap).has(ptr)
            &&& final(heap)@.remove(ptr.addr()) == old(heap)@.remove(ptr.addr())
        }),
{
}

/// The wakers that were called are handed out, each once, in the order in which they
/// were called, and the channel is otherwise as it was.
pub proof fn law_receiver_take_woken<T, W>(
    receiver: &Receiver<T, W>,
    heap: &mut Heap<Channel<T, W>>,
    ptr: BoxPtr<Channel<T, W>>,
    woken: Vec<W>,
)
    requires
        receiver.link() == Some(ptr),
        call_ensures(Receiver::<T, W>::take_woken, (receiver, heap), woken),
    ensures
        ({
            let before = old(heap).at(ptr)@;
            let after = final(heap).at(ptr)@;
            &&& woken@ == before.woken
            &&& after.woken.len() == 0
            &&& after.state == before.state
            &&& after.value == before.value
            &&& after.waker == before.waker
            &&& final(heap).has(ptr)
            &&& final(heap)@.remove(ptr.addr()) == old(heap)@.remove(ptr.addr())
        }),
{
}

/// A receiver whose stream has ended has nothing more to give.
pub proof fn law_receiver_terminated<T, W>(
    receiver: &mut Receiver<T, W>,
    heap: &mut Heap<Channel<T, W>>,
    waker: W,
    result: Poll<Option<T>>,
)
    requires
        receiver.link() is None,
        call_ensures(Receiver::<T, W>::wait_next, (receiver, heap, waker), result) || call_ensures(
            Receiver::<T, W>::poll_next,
            (receiver, heap, waker),
            result,
        ) || call_ensures(Receiver::<T, W>::try_recv, (receiver, heap), result),
    ensures
        result == Poll::Ready(None::<T>),
        final(receiver).link() is None,
        final(heap)@ == old(heap)@,
{
}

/// A receiver whose stream has ended has nothing more to wait for.
pub proof fn law_receiver_timeout_terminated<T, W>(
    receiver: &mut Receiver<T, W>,
    heap: &mut Heap<Channel<T, W>>,
    turn: Turn<W>,
    result: Poll<Result<T, RecvError>>,
)
    requires
        receiver.link() is None,
        call_ensures(Receiver::<T, W>::wait_next_timeout, (receiver, heap, turn), result),
    ensures
        result == Poll::Ready(Err::<T, RecvError>(RecvError::Terminated)),
        final(receiver).link() is None,
        final(heap)@ == old(heap)@,
{
}

/// A receiver that has produced its result does not produce it as an item, nor if it
/// is only tried.
pub proof fn law_receive_once_no_more<T, W>(
    receiver: &mut ReceiveOnce<T, W>,
    other: &mut ReceiveOnce<T, W>,
    heap: &mut Heap<Channel<T, W>>,
    later: &mut Heap<Channel<T, W>>,
    waker: W,
    result: Option<Result<T, RecvError>>,
    item: Poll<Option<T>>,
)
    requires
        receiver.link() is None,
        call_ensures(ReceiveOnce::<T, W>::try_recv, (receiver, heap), result),
        other.link() is None,
        call_ensures(ReceiveOnce::<T, W>::poll_next, (other, later, waker), item),
    ensures
        result == Some(Err::<T, RecvError>(RecvError::Terminated)),
        item == Poll::Ready(None::<T>),
        final(heap)@ == old(heap)@,
        final(later)@ == old(later)@,
{
}

/// A sender that has found its receiver gone sends nothing any more, and a send that
/// is over stays so.
pub proof fn law_sender_disconnected<T, W>(
    sender: &mut Sender<T, W>,
    flush: &mut Flush<T, W>,
    heap: &mut Heap<Channel<T, W>>,
    later: &mut Heap<Channel<T, W>>,
    value: T,
    waker: W,
    result: Result<(), TrySendError<T>>,
    flushed: Poll<Result<(), TrySendError<T>>>,
)
    requires
        sender.link() is None,
        call_ensures(Sender::<T, W>::try_send, (sender, heap, value), result),
        flush.link() is None,
        call_ensures(Flush::<T, W>::poll, (flush, later, waker), flushed),
    ensures
        result == Err::<(), TrySendError<T>>(TrySendError::Disconnected(value)),
        final(sender).link() is None,
        final(heap)@ == old(heap)@,
        flushed == Poll::Ready(Ok::<(), TrySendError<T>>(())),
        final(flush).link() is None,
        final(later)@ == old(later)@,
{
}

/// An end that has let its channel go leaves everything as it is when it goes.
pub proof fn law_drop_after_end<T, W>(
    sender: Sender<T, W>,
    receiver: Receiver<T, W>,
    once: ReceiveOnce<T, W>,
    first: &mut Heap<Channel<T, W>>,
    second: &mut Heap<Channel<T, W>>,
    third: &mut Heap<Channel<T, W>>,
)
    requires
        sender.link() is None,
        call_ensures(Sender::<T, W>::drop, (sender, first), ()),
        receiver.link() is None,
        call_ensures(Receiver::<T, W>::drop, (receiver, second), ()),
        once.link() is None,
        call_ensures(ReceiveOnce::<T, W>::drop, (once, third), ()),
    ensures
        final(first)@ == old(first)@,
        final(second)@ == old(second)@,
        final(third)@ == old(third)@,
{
}

/// A new channel is one that was not there before. Its ends belong together, nothing
/// is in it, and nobody waits.
pub proof fn law_new_channel<T, W>(
    heap: &mut Heap<Channel<T, W>>,
    ptr: BoxPtr<Channel<T, W>>,
    once: (SendOnce<T, W>, ReceiveOnce<T, W>),
    many: (Sender<T, W>, Receiver<T, W>),
)
    requires
        ({
            ||| call_ensures(send_once::<T, W>, (heap,), once) && ptr == once.0.link()
            ||| call_ensures(channel::<T, W>, (heap,), many) && many.0.link() == Some(ptr)
        }),
    ensures
        ({
            let after = final(heap).at(ptr)@;
            &&& !old(heap).has(ptr)
            &&& final(heap).has(ptr)
            &&& final(heap)@.remove(ptr.addr()) == old(heap)@
            &&& after.state.active
            &&& !after.state.loaded
            &&& after.value is None
            &&& after.waker is None
            &&& after.woken.len() == 0
            &&& call_ensures(send_once::<T, W>, (heap,), once)
                ==> once.1.link() == Some(once.0.link())
            &&& call_ensures(channel::<T, W>, (heap,), many) ==> many.0.link() == many.1.link()
        }),
{
}

/// What is sent through a new channel is what comes out of it: while the sender
/// awaits the delivery the receiver gets the value, and the sender is then told.
pub proof fn law_send_then_recv<T, W>(
    made: &mut Heap<Channel<T, W>>,
    sent: &mut Heap<Channel<T, W>>,
    read: &mut Heap<Channel<T, W>>,
    told: &mut Heap<Channel<T, W>>,
    ends: (SendOnce<T, W>, ReceiveOnce<T, W>),
    value: T,
    flush: &mut Flush<T, W>,
    receiver: &mut ReceiveOnce<T, W>,
    later: &mut Flush<T, W>,
    wakers: (W, W, W),
    results: (
        Poll<Result<(), TrySendError<T>>>,
        Poll<Result<T, RecvError>>,
        Poll<Result<(), TrySendError<T>>>,
    ),
)
    requires
        call_ensures(send_once::<T, W>, (made,), ends),
        *final(made) == *sent,
        call_ensures(SendOnce::<T, W>::send, (ends.0, value), *flush),
        call_ensures(Flush::<T, W>::poll, (flush, sent, wakers.0), results.0),
        *final(sent) == *read,
        *receiver == ends.1,
        call_ensures(ReceiveOnce::<T, W>::recv, (receiver, read, wakers.1), results.1),
        *final(read) == *told,
        *final(flush) == *later,
        call_ensures(Flush::<T, W>::poll, (later, told, wakers.2), results.2),
    ensures
        results.0 is Pending,
        results.1 == Poll::Ready(Ok::<T, RecvError>(value)),
        results.2 == Poll::Ready(Ok::<(), TrySendError<T>>(())),
        final(read).at(ends.0.link())@.woken == seq![wakers.0],
        final(later).link() is None,
        !final(told).has(ends.0.link()),
{
    assert(final(read).at(ends.0.link())@.woken =~= seq![wakers.0]);
}

/// What is sent through a new channel of many values is what comes out of it, and
/// the next value can be sent after that, but not before.
pub proof fn law_try_send_then_next<T, W>(
    made: &mut Heap<Channel<T, W>>,
    sent: &mut Heap<Channel<T, W>>,
    full: &mut Heap<Channel<T, W>>,
    read: &mut Heap<Channel<T, W>>,
    more: &mut Heap<Channel<T, W>>,
    ends: (Sender<T, W>, Receiver<T, W>),
    senders: (&mut Sender<T, W>, &mut Sender<T, W>, &mut Sender<T, W>),
    receiver: &mut Receiver<T, W>,
    values: (T, T),
    waker: W,
    results: (
        Result<(), TrySendError<T>>,
        Result<(), TrySendError<T>>,
        Poll<Option<T>>,
        Result<(), TrySendError<T>>,
    ),
)
    requires
        call_ensures(channel::<T, W>, (made,), ends),
        *final(made) == *sent,
        *senders.0 == ends.0,
        call_ensures(Sender::<T, W>::try_send, (senders.0, sent, values.0), results.0),
        *final(sent) == *full,
        *final(senders.0) == *senders.1,
        call_ensures(Sender::<T, W>::try_send, (senders.1, full, values.1), results.1),
        *final(full) == *read,
        *receiver == ends.1,
        call_ensures(Receiver::<T, W>::wait_next, (receiver, read, waker), results.2),
        *final(read) == *more,
        *final(senders.1) == *senders.2,
        call_ensures(Sender::<T, W>::try_send, (senders.2, more, values.1), results.3),
    ensures
        results.0 is Ok,
        results.1 == Err::<(), TrySendError<T>>(TrySendError::Full(values.1)),
        results.2 == Poll::Ready(Some(values.0)),
        results.3 is Ok,
        final(more).at(ends.0.link()->0)@.value == Some(values.1),
{
}

} // verus!
