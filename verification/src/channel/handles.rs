//! The two ends of a channel.
//!
//! The ends share an allocation on a heap. Each end frees it if it finds that
//! the other one is gone.

use vstd::prelude::*;

use crate::channel::memory::{Channel, Mem};
use crate::channel::state::State;
use crate::error::{RecvError, TrySendError};
use crate::poll::{Poll, Turn};
use crate::util::{BoxPtr, Heap};

verus! {

/// The allocation is alive and the channel in it is at rest.
pub open spec fn usable<T, W>(heap: Heap<Channel<T, W>>, ptr: BoxPtr<Channel<T, W>>) -> bool {
    heap.has(ptr) && heap.at(ptr).at_rest()
}

/// The channel in the allocation has come to be `mem`, and nothing else has changed.
pub open spec fn updated<T, W>(
    after: Heap<Channel<T, W>>,
    before: Heap<Channel<T, W>>,
    ptr: BoxPtr<Channel<T, W>>,
    mem: Mem<T, W>,
) -> bool {
    &&& usable(after, ptr)
    &&& after.at(ptr)@ == mem
    &&& after.same_but(&before, ptr)
}

/// A channel with nothing in it.
pub open spec fn fresh<T, W>() -> Mem<T, W> {
    Mem {
        state: State::flags(true, false, false, false, false),
        value: None,
        waker: None,
        woken: Seq::<W>::empty(),
    }
}

/// Create a channel for sending a single value between a producer and consumer.
pub fn send_once<T, W>(heap: &mut Heap<Channel<T, W>>) -> (ends: (
    SendOnce<T, W>,
    ReceiveOnce<T, W>,
))
    requires
        old(heap).issued() < usize::MAX,
    ensures
        ends.1.link() == Some(ends.0.link()),
        !old(heap).has(ends.0.link()),
        usable(*final(heap), ends.0.link()),
        final(heap).at(ends.0.link())@ == fresh::<T, W>(),
        final(heap)@.remove(ends.0.link().addr()) == old(heap)@,
        final(heap).issued() == old(heap).issued() + 1,
{
    let channel = BoxPtr::new(heap, Box::new(Channel::new()));
    assert(heap@.remove(channel.addr()) =~= old(heap)@);
    (SendOnce { channel }, ReceiveOnce { channel: Some(channel) })
}

/// Create a channel for sending multiple values between a producer and consumer,
/// with synchronization between consecutive results.
pub fn channel<T, W>(heap: &mut Heap<Channel<T, W>>) -> (ends: (Sender<T, W>, Receiver<T, W>))
    requires
        old(heap).issued() < usize::MAX,
    ensures
        ends.0.link() == ends.1.link(),
        ends.0.link() matches Some(ptr) && {
            &&& !old(heap).has(ptr)
            &&& usable(*final(heap), ptr)
            &&& final(heap).at(ptr)@ == fresh::<T, W>()
            &&& final(heap)@.remove(ptr.addr()) == old(heap)@
        },
        final(heap).issued() == old(heap).issued() + 1,
{
    let channel = BoxPtr::new(heap, Box::new(Channel::new()));
    assert(heap@.remove(channel.addr()) =~= old(heap)@);
    (Sender { channel: Some(channel) }, Receiver { channel: Some(channel) })
}

/// A pending send, which completes once the value has been received.
#[derive(Debug)]
pub struct Flush<T, W> {
    channel: Option<BoxPtr<Channel<T, W>>>,
    value: Option<T>,
    finalize: bool,
}

impl<T, W> Flush<T, W> {
    /// The channel to send to.
    pub closed spec fn link(self) -> Option<BoxPtr<Channel<T, W>>> {
        self.channel
    }

    /// The value still to be loaded.
    pub closed spec fn value(self) -> Option<T> {
        self.value
    }

    /// The value is the last one.
    pub closed spec fn finalize(self) -> bool {
        self.finalize
    }

    /// The channel is there, and it is there as long as a value is to be loaded.
    pub open spec fn wf(self, heap: Heap<Channel<T, W>>) -> bool {
        &&& self.link() matches Some(ptr) ==> usable(heap, ptr)
        &&& self.value() is Some ==> self.link() is Some
    }

    /// Load the value if that is still to be done, else find out whether it has been received.
    pub fn poll(&mut self, heap: &mut Heap<Channel<T, W>>, waker: W) -> (result: Poll<
        Result<(), TrySendError<T>>,
    >)
        requires
            old(self).wf(*old(heap)),
        ensures
            final(self).finalize() == old(self).finalize(),
            final(self).value() is None,
            final(self).wf(*final(heap)),
            old(self).link() is None ==> {
                &&& result == Poll::<Result<(), TrySendError<T>>>::Ready(Ok(()))
                &&& final(self).link() is None
                &&& final(heap).same(old(heap))
            },
            old(self).link() matches Some(ptr) ==> old(self).value() matches Some(value) ==> {
                let (written, mem) = old(heap).at(ptr)@.write_result(
                    value,
                    Some(waker),
                    old(self).finalize(),
                );
                match written {
                    Ok(()) => {
                        &&& result is Pending
                        &&& final(self).link() == Some(ptr)
                        &&& updated(*final(heap), *old(heap), ptr, mem)
                    },
                    Err((v, true)) => {
                        &&& result == Poll::<Result<(), TrySendError<T>>>::Ready(
                            Err(TrySendError::Disconnected(v)),
                        )
                        &&& old(self).finalize() ==> final(self).link() is None && final(heap).freed(old(heap), ptr)
                        &&& !old(self).finalize() ==> final(self).link() == Some(ptr) && updated(
                            *final(heap),
                            *old(heap),
                            ptr,
                            mem,
                        )
                    },
                    Err((v, false)) => {
                        &&& result == Poll::<Result<(), TrySendError<T>>>::Ready(
                            Err(TrySendError::Full(v)),
                        )
                        &&& final(self).link() == Some(ptr)
                        &&& updated(*final(heap), *old(heap), ptr, mem)
                    },
                }
            },
            old(self).link() matches Some(ptr) ==> old(self).value() is None ==> {
                let (flushed, mem) = old(heap).at(ptr)@.flush_result(waker, old(self).finalize());
                match flushed {
                    Poll::Pending => {
                        &&& result is Pending
                        &&& final(self).link() == Some(ptr)
                        &&& updated(*final(heap), *old(heap), ptr, mem)
                    },
                    Poll::Ready((returned, dropped)) => {
                        &&& result == Poll::Ready(
                            match returned {
                                Some(v) => Err::<(), TrySendError<T>>(
                                    TrySendError::Disconnected(v),
                                ),
                                None => Ok(()),
                            },
                        )
                        &&& final(self).link() == (if old(self).finalize() {
                            None
                        } else {
                            Some(ptr)
                        })
                        &&& if old(self).finalize() && dropped {
                            final(heap).freed(old(heap), ptr)
                        } else {
                            updated(*final(heap), *old(heap), ptr, mem)
                        }
                    },
                }
            },
    {
        let value = self.value.take();
        match self.channel.take() {
            None => Poll::Ready(Ok(())),
            Some(channel) => match value {
                Some(value) => {
                    match channel.to_mut(heap).write(value, Some(waker), self.finalize) {
                        Err((value, dropped)) => {
                            if self.finalize && dropped {
                                channel.dealloc(heap);
                            } else {
                                self.channel = Some(channel);
                            }
                            Poll::Ready(
                                Err(
                                    if dropped {
                                        TrySendError::Disconnected(value)
                                    } else {
                                        TrySendError::Full(value)
                                    },
                                ),
                            )
                        },
                        Ok(()) => {
                            self.channel = Some(channel);
                            Poll::Pending
                        },
                    }
                },
                None => {
                    match channel.to_mut(heap).flush(waker, self.finalize) {
                        Poll::Ready((result, dropped)) => {
                            if !self.finalize {
                                self.channel = Some(channel);
                            } else if dropped {
                                channel.dealloc(heap);
                            }
                            match result {
                                Some(value) => {
                                    Poll::Ready(Err(TrySendError::Disconnected(value)))
                                },
                                None => Poll::Ready(Ok(())),
                            }
                        },
                        Poll::Pending => {
                            self.channel = Some(channel);
                            Poll::Pending
                        },
                    }
                },
            },
        }
    }

    /// Tell whether the channel is gone, and with it all there is to poll for.
    pub fn is_terminated(&self) -> (yes: bool)
        ensures
            yes == (self.link() is None),
    {
        self.channel.is_none()
    }

    /// Give up. If the value was to be the last one, the sending side detaches.
    pub fn drop(self, heap: &mut Heap<Channel<T, W>>)
        requires
            self.link() matches Some(ptr) ==> usable(*old(heap), ptr),
        ensures
            !(self.link() is Some && self.finalize()) ==> final(heap).same(old(heap)),
            self.link() matches Some(ptr) ==> self.finalize() ==> detached(
                *final(heap),
                *old(heap),
                ptr,
                true,
            ),
    {
        match self.channel {
            Some(channel) => {
                if self.finalize {
                    detach(channel, heap, true);
                }
            },
            None => {},
        }
    }
}

/// One side has detached; the allocation is gone if the other side had done so before.
pub open spec fn detached<T, W>(
    after: Heap<Channel<T, W>>,
    before: Heap<Channel<T, W>>,
    ptr: BoxPtr<Channel<T, W>>,
    is_writer: bool,
) -> bool {
    let (last, mem) = before.at(ptr)@.drop_result(is_writer);
    if last {
        after.freed(&before, ptr)
    } else {
        updated(after, before, ptr, mem)
    }
}

fn detach<T, W>(channel: BoxPtr<Channel<T, W>>, heap: &mut Heap<Channel<T, W>>, is_writer: bool)
    requires
        usable(*old(heap), channel),
    ensures
        detached(*final(heap), *old(heap), channel, is_writer),
{
    if channel.to_mut(heap).drop_one_side(is_writer) {
        channel.dealloc(heap);
    }
}

/// The wakers called so far have been forgotten.
pub open spec fn drained<T, W>(
    woken: Seq<W>,
    after: Heap<Channel<T, W>>,
    before: Heap<Channel<T, W>>,
    ptr: BoxPtr<Channel<T, W>>,
) -> bool {
    &&& woken == before.at(ptr)@.woken
    &&& updated(after, before, ptr, Mem { woken: Seq::<W>::empty(), ..before.at(ptr)@ })
}

/// Created by [`send_once()`] and used to dispatch a single value
/// to an associated [`ReceiveOnce`] instance.
#[derive(Debug)]
pub struct SendOnce<T, W> {
    channel: BoxPtr<Channel<T, W>>,
}

impl<T, W> SendOnce<T, W> {
    /// The channel to send to.
    pub closed spec fn link(self) -> BoxPtr<Channel<T, W>> {
        self.channel
    }

    /// Check if the receiver has already been dropped.
    pub fn is_canceled(&self, heap: &Heap<Channel<T, W>>) -> (yes: bool)
        requires
            usable(*heap, self.link()),
        ensures
            yes == !heap.at(self.link())@.state.active,
    {
        !self.channel.to_ref(heap).is_active()
    }

    /// The wakers called so far, oldest first, are handed out and forgotten.
    pub fn take_woken(&self, heap: &mut Heap<Channel<T, W>>) -> (woken: Vec<W>)
        requires
            usable(*old(heap), self.link()),
        ensures
            drained(woken@, *final(heap), *old(heap), self.link()),
    {
        self.channel.to_mut(heap).take_woken()
    }

    /// Load a value to be sent, returning a [`Flush`] which completes when
    /// the value is received or the [`ReceiveOnce`] is dropped.
    pub fn send(self, value: T) -> (flush: Flush<T, W>)
        ensures
            flush.link() == Some(self.link()),
            flush.value() == Some(value),
            flush.finalize(),
    {
        Flush { channel: Some(self.channel), value: Some(value), finalize: true }
    }

    /// Try to dispatch the result and consume the [`SendOnce`].
    pub fn try_send(self, heap: &mut Heap<Channel<T, W>>, value: T) -> (result: Result<
        (),
        TrySendError<T>,
    >)
        requires
            usable(*old(heap), self.link()),
        ensures
            ({
                let (written, mem) = old(heap).at(self.link())@.write_result(value, None, true);
                match written {
                    Ok(()) => {
                        &&& result is Ok
                        &&& updated(*final(heap), *old(heap), self.link(), mem)
                    },
                    Err((v, dropped)) => {
                        &&& result == Err::<(), TrySendError<T>>(
                            if dropped {
                                TrySendError::Disconnected(v)
                            } else {
                                TrySendError::Full(v)
                            },
                        )
                        &&& final(heap).freed(old(heap), self.link())
                    },
                }
            }),
    {
        match self.channel.to_mut(heap).write(value, None, true) {
            Ok(()) => Ok(()),
            Err((value, dropped)) => {
                self.channel.dealloc(heap);
                Err(
                    if dropped {
                        TrySendError::Disconnected(value)
                    } else {
                        TrySendError::Full(value)
                    },
                )
            },
        }
    }

    /// Go away without sending.
    pub fn drop(self, heap: &mut Heap<Channel<T, W>>)
        requires
            usable(*old(heap), self.link()),
        ensures
            detached(*final(heap), *old(heap), self.link(), true),
    {
        detach(self.channel, heap, true)
    }
}

/// Created by [`send_once()`] and used to receive a single value from
/// an associated [`SendOnce`] instance.
#[derive(Debug)]
pub struct ReceiveOnce<T, W> {
    channel: Option<BoxPtr<Channel<T, W>>>,
}

/// How a receiver that takes a single value goes on after a read: the end of
/// the channel is an error, and the receiving side detaches once it has a result.
pub open spec fn received<T, W>(
    result: Poll<Result<T, RecvError>>,
    link: Option<BoxPtr<Channel<T, W>>>,
    after: Heap<Channel<T, W>>,
    before: Heap<Channel<T, W>>,
    ptr: BoxPtr<Channel<T, W>>,
    read: (Poll<(Option<T>, bool)>, Mem<T, W>),
) -> bool {
    match read.0 {
        Poll::Pending => {
            &&& result is Pending
            &&& link == Some(ptr)
            &&& updated(after, before, ptr, read.1)
        },
        Poll::Ready((None, false)) => {
            &&& result is Pending
            &&& link == Some(ptr)
            &&& updated(after, before, ptr, read.1)
        },
        Poll::Ready((value, dropped)) => {
            &&& result == Poll::Ready(
                match value {
                    Some(v) => Ok::<T, RecvError>(v),
                    None => Err(RecvError::Incomplete),
                },
            )
            &&& link is None
            &&& dropped || read.1.drop_result(false).0 ==> after.freed(&before, ptr)
            &&& !dropped && !read.1.drop_result(false).0 ==> updated(
                after,
                before,
                ptr,
                read.1.drop_result(false).1,
            )
        },
    }
}

impl<T, W> ReceiveOnce<T, W> {
    /// The channel to receive from, until a result has been produced.
    pub closed spec fn link(self) -> Option<BoxPtr<Channel<T, W>>> {
        self.channel
    }

    /// The channel is there.
    pub open spec fn wf(self, heap: Heap<Channel<T, W>>) -> bool {
        self.link() matches Some(ptr) ==> usable(heap, ptr)
    }

    /// The wakers called so far, oldest first, are handed out and forgotten.
    pub fn take_woken(&self, heap: &mut Heap<Channel<T, W>>) -> (woken: Vec<W>)
        requires
            self.wf(*old(heap)),
        ensures
            match self.link() {
                Some(ptr) => drained(woken@, *final(heap), *old(heap), ptr),
                None => woken@.len() == 0 && final(heap).same(old(heap)),
            },
    {
        match self.channel {
            Some(channel) => channel.to_mut(heap).take_woken(),
            None => Vec::new(),
        }
    }

    /// Safely cancel the receive operation, consuming the [`ReceiveOnce`].
    pub fn cancel(self, heap: &mut Heap<Channel<T, W>>) -> (result: Option<T>)
        requires
            self.wf(*old(heap)),
        ensures
            self.link() is None ==> result is None && final(heap).same(old(heap)),
            self.link() matches Some(ptr) ==> cancelled(result, *final(heap), *old(heap), ptr),
    {
        match self.channel {
            Some(channel) => cancel_read(channel, heap),
            None => None,
        }
    }

    /// Try to receive the value, consuming the [`ReceiveOnce`] if the value
    /// has been loaded or the [`SendOnce`] has been dropped.
    pub fn try_recv(&mut self, heap: &mut Heap<Channel<T, W>>) -> (result: Option<
        Result<T, RecvError>,
    >)
        requires
            old(self).wf(*old(heap)),
        ensures
            final(self).wf(*final(heap)),
            old(self).link() is None ==> {
                &&& result == Some(Err::<T, RecvError>(RecvError::Terminated))
                &&& final(self).link() is None
                &&& final(heap).same(old(heap))
            },
            old(self).link() matches Some(ptr) ==> received(
                match result {
                    Some(r) => Poll::Ready(r),
                    None => Poll::Pending,
                },
                final(self).link(),
                *final(heap),
                *old(heap),
                ptr,
                old(heap).at(ptr)@.read_result(None, false),
            ),
    {
        match self.poll_result(heap, None) {
            Poll::Ready(r) => Some(r),
            Poll::Pending => None,
        }
    }

    /// One turn of waiting until a value is received or the [`SendOnce`] is
    /// dropped. If there is no result yet, the caller is to wait for the waker
    /// to be called.
    pub fn recv(&mut self, heap: &mut Heap<Channel<T, W>>, waker: W) -> (result: Poll<
        Result<T, RecvError>,
    >)
        requires
            old(self).wf(*old(heap)),
        ensures
            final(self).wf(*final(heap)),
            old(self).link() is None ==> {
                &&& result == Poll::Ready(Err::<T, RecvError>(RecvError::Terminated))
                &&& final(self).link() is None
                &&& final(heap).same(old(heap))
            },
            old(self).link() matches Some(ptr) ==> received(
                result,
                final(self).link(),
                *final(heap),
                *old(heap),
                ptr,
                old(heap).at(ptr)@.read_result(Some(waker), false),
            ),
    {
        match self.channel.take() {
            Some(channel) => {
                match channel.to_mut(heap).wait_read(waker) {
                    Poll::Ready((result, dropped)) => {
                        if dropped {
                            channel.dealloc(heap);
                        } else {
                            detach(channel, heap, false);
                        }
                        Poll::Ready(result.ok_or(RecvError::Incomplete))
                    },
                    Poll::Pending => {
                        self.channel = Some(channel);
                        Poll::Pending
                    },
                }
            },
            None => Poll::Ready(Err(RecvError::Terminated)),
        }
    }

    /// One turn of waiting until a value is received, the [`SendOnce`] is
    /// dropped, or the time is up.
    pub fn recv_timeout(&mut self, heap: &mut Heap<Channel<T, W>>, turn: Turn<W>) -> (result: Poll<
        Result<T, RecvError>,
    >)
        requires
            old(self).wf(*old(heap)),
        ensures
            final(self).wf(*final(heap)),
            old(self).link() is None ==> {
                &&& result == Poll::Ready(Err::<T, RecvError>(RecvError::Terminated))
                &&& final(self).link() is None
                &&& final(heap).same(old(heap))
            },
            old(self).link() matches Some(ptr) ==> turn matches Turn::Wait(waker) ==> received(
                result,
                final(self).link(),
                *final(heap),
                *old(heap),
                ptr,
                old(heap).at(ptr)@.read_result(Some(waker), false),
            ),
            old(self).link() matches Some(ptr) ==> turn is Expired ==> {
                let read = old(heap).at(ptr)@.read_result(None, false);
                if read.0 == Poll::<(Option<T>, bool)>::Ready((None, false)) {
                    &&& result == Poll::Ready(Err::<T, RecvError>(RecvError::TimedOut))
                    &&& final(self).link() == Some(ptr)
                    &&& updated(*final(heap), *old(heap), ptr, read.1)
                } else {
                    received(result, final(self).link(), *final(heap), *old(heap), ptr, read)
                }
            },
    {
        match self.channel.take() {
            Some(channel) => {
                match channel.to_mut(heap).wait_read_timeout(turn) {
                    Poll::Ready((result, dropped)) => {
                        if dropped {
                            channel.dealloc(heap);
                            Poll::Ready(result.ok_or(RecvError::Incomplete))
                        } else {
                            match result {
                                Some(result) => {
                                    detach(channel, heap, false);
                                    Poll::Ready(Ok(result))
                                },
                                None => {
                                    self.channel = Some(channel);
                                    Poll::Ready(Err(RecvError::TimedOut))
                                },
                            }
                        }
                    },
                    Poll::Pending => {
                        self.channel = Some(channel);
                        Poll::Pending
                    },
                }
            },
            None => Poll::Ready(Err(RecvError::Terminated)),
        }
    }

    fn poll_result(&mut self, heap: &mut Heap<Channel<T, W>>, waker: Option<W>) -> (result: Poll<
        Result<T, RecvError>,
    >)
        requires
            old(self).wf(*old(heap)),
        ensures
            final(self).wf(*final(heap)),
            old(self).link() is None ==> {
                &&& result == Poll::Ready(Err::<T, RecvError>(RecvError::Terminated))
                &&& final(self).link() is None
                &&& final(heap).same(old(heap))
            },
            old(self).link() matches Some(ptr) ==> received(
                result,
                final(self).link(),
                *final(heap),
                *old(heap),
                ptr,
                old(heap).at(ptr)@.read_result(waker, false),
            ),
    {
        match self.channel.take() {
            Some(channel) => {
                match channel.to_mut(heap).read(waker, false) {
                    Poll::Pending | Poll::Ready((None, false)) => {
                        // sender has not dropped or produced a value
                        self.channel = Some(channel);
                        Poll::Pending
                    },
                    Poll::Ready((result, dropped)) => {
                        if dropped {
                            channel.dealloc(heap);
                        } else {
                            detach(channel, heap, false);
                        }
                        Poll::Ready(result.ok_or(RecvError::Incomplete))
                    },
                }
            },
            None => Poll::Ready(Err(RecvError::Terminated)),
        }
    }

    /// Ask for the result, leaving the waker to be called if it is not there yet.
    pub fn poll(&mut self, heap: &mut Heap<Channel<T, W>>, waker: W) -> (result: Poll<
        Result<T, RecvError>,
    >)
        requires
            old(self).wf(*old(heap)),
        ensures
            final(self).wf(*final(heap)),
            old(self).link() is None ==> {
                &&& result == Poll::Ready(Err::<T, RecvError>(RecvError::Terminated))
                &&& final(self).link() is None
                &&& final(heap).same(old(heap))
            },
            old(self).link() matches Some(ptr) ==> received(
                result,
                final(self).link(),
                *final(heap),
                *old(heap),
                ptr,
                old(heap).at(ptr)@.read_result(Some(waker), false),
            ),
    {
        self.poll_result(heap, Some(waker))
    }

    /// Ask for the result as the only item of a stream: an error ends the stream.
    pub fn poll_next(&mut self, heap: &mut Heap<Channel<T, W>>, waker: W) -> (result: Poll<
        Option<T>,
    >)
        requires
            old(self).wf(*old(heap)),
        ensures
            final(self).wf(*final(heap)),
            old(self).link() is None ==> {
                &&& result == Poll::Ready(None::<T>)
                &&& final(self).link() is None
                &&& final(heap).same(old(heap))
            },
            old(self).link() matches Some(ptr) ==> received(
                match result {
                    Poll::Ready(Some(v)) => Poll::Ready(Ok(v)),
                    Poll::Ready(None) => Poll::Ready(Err(RecvError::Incomplete)),
                    Poll::Pending => Poll::Pending,
                },
                final(self).link(),
                *final(heap),
                *old(heap),
                ptr,
                old(heap).at(ptr)@.read_result(Some(waker), false),
            ),
    {
        match self.poll_result(heap, Some(waker)) {
            Poll::Ready(Ok(value)) => Poll::Ready(Some(value)),
            Poll::Ready(Err(_)) => Poll::Ready(None),
            Poll::Pending => Poll::Pending,
        }
    }

    /// Tell whether there is nothing more to come.
    pub fn is_terminated(&self, heap: &Heap<Channel<T, W>>) -> (yes: bool)
        requires
            self.wf(*heap),
        ensures
            yes == (match self.link() {
                Some(ptr) => heap.at(ptr)@.is_done(),
                None => true,
            }),
    {
        match self.channel {
            Some(channel) => channel.to_ref(heap).is_done(),
            None => true,
        }
    }

    /// Go away without receiving.
    pub fn drop(self, heap: &mut Heap<Channel<T, W>>)
        requires
            self.wf(*old(heap)),
        ensures
            self.link() is None ==> final(heap).same(old(heap)),
            self.link() matches Some(ptr) ==> detached(*final(heap), *old(heap), ptr, false),
    {
        match self.channel {
            Some(channel) => detach(channel, heap, false),
            None => {},
        }
    }
}

/// A read has been cancelled: a value that was there is returned, the receiving
/// side has detached, and the allocation is gone if the sender was.
pub open spec fn cancelled<T, W>(
    result: Option<T>,
    after: Heap<Channel<T, W>>,
    before: Heap<Channel<T, W>>,
    ptr: BoxPtr<Channel<T, W>>,
) -> bool {
    let read = before.at(ptr)@.read_result(None, true);
    match read.0 {
        Poll::Ready((value, dropped)) => {
            &&& result == value
            &&& dropped ==> after.freed(&before, ptr)
            &&& !dropped ==> updated(
                after,
                before,
                ptr,
                // without a value the read has detached the receiving side itself
                if value is Some {
                    read.1.drop_result(false).1
                } else {
                    read.1
                },
            )
            &&& !dropped ==> !after.at(ptr)@.state.active
        },
        Poll::Pending => false,
    }
}

fn cancel_read<T, W>(channel: BoxPtr<Channel<T, W>>, heap: &mut Heap<Channel<T, W>>) -> (result:
    Option<T>)
    requires
        usable(*old(heap), channel),
    ensures
        cancelled(result, *final(heap), *old(heap), channel),
{
    match channel.to_mut(heap).read(None, true) {
        Poll::Ready((result, dropped)) => {
            if dropped {
                channel.dealloc(heap);
            } else if result.is_some() {
                detach(channel, heap, false);
            }
            result
        },
        Poll::Pending => None,
    }
}

/// Created by [`channel()`] and used to dispatch a stream of values to
/// an associated [`Receiver`].
#[derive(Debug)]
pub struct Sender<T, W> {
    channel: Option<BoxPtr<Channel<T, W>>>,
}

impl<T, W> Sender<T, W> {
    /// The channel to send to, until the receiver is found to be gone.
    pub closed spec fn link(self) -> Option<BoxPtr<Channel<T, W>>> {
        self.channel
    }

    /// The channel is there.
    pub open spec fn wf(self, heap: Heap<Channel<T, W>>) -> bool {
        self.link() matches Some(ptr) ==> usable(heap, ptr)
    }

    /// The wakers called so far, oldest first, are handed out and forgotten.
    pub fn take_woken(&self, heap: &mut Heap<Channel<T, W>>) -> (woken: Vec<W>)
        requires
            self.wf(*old(heap)),
        ensures
            match self.link() {
                Some(ptr) => drained(woken@, *final(heap), *old(heap), ptr),
                None => woken@.len() == 0 && final(heap).same(old(heap)),
            },
    {
        match self.channel {
            Some(channel) => channel.to_mut(heap).take_woken(),
            None => Vec::new(),
        }
    }

    /// Check if the receiver has already been dropped.
    pub fn is_canceled(&self, heap: &Heap<Channel<T, W>>) -> (yes: bool)
        requires
            self.wf(*heap),
        ensures
            yes == (match self.link() {
                Some(ptr) => !heap.at(ptr)@.state.active,
                None => true,
            }),
    {
        match self.channel {
            Some(channel) => !channel.to_ref(heap).is_active(),
            None => true,
        }
    }

    /// Send the next result, returning a [`Flush`] which can be used to await
    /// its delivery.
    pub fn send(&mut self, value: T) -> (flush: Flush<T, W>)
        ensures
            *final(self) == *old(self),
            flush.link() == old(self).link(),
            flush.value() == Some(value),
            !flush.finalize(),
    {
        Flush { channel: self.channel, value: Some(value), finalize: false }
    }

    /// Try to send the next message.
    pub fn try_send(&mut self, heap: &mut Heap<Channel<T, W>>, value: T) -> (result: Result<
        (),
        TrySendError<T>,
    >)
        requires
            old(self).wf(*old(heap)),
        ensures
            final(self).wf(*final(heap)),
            old(self).link() is None ==> {
                &&& result == Err::<(), TrySendError<T>>(TrySendError::Disconnected(value))
                &&& final(self).link() is None
                &&& final(heap).same(old(heap))
            },
            old(self).link() matches Some(ptr) ==> {
                let (written, mem) = old(heap).at(ptr)@.write_result(value, None, false);
                match written {
                    Ok(()) => {
                        &&& result is Ok
                        &&& final(self).link() == Some(ptr)
                        &&& updated(*final(heap), *old(heap), ptr, mem)
                    },
                    Err((v, true)) => {
                        &&& result == Err::<(), TrySendError<T>>(TrySendError::Disconnected(v))
                        &&& final(self).link() is None
                        &&& final(heap).freed(old(heap), ptr)
                    },
                    Err((v, false)) => {
                        &&& result == Err::<(), TrySendError<T>>(TrySendError::Full(v))
                        &&& final(self).link() == Some(ptr)
                        &&& updated(*final(heap), *old(heap), ptr, mem)
                    },
                }
            },
    {
        match self.channel.take() {
            Some(channel) => {
                match channel.to_mut(heap).write(value, None, false) {
                    Ok(()) => {
                        self.channel = Some(channel);
                        Ok(())
                    },
                    Err((value, dropped)) => {
                        if dropped {
                            channel.dealloc(heap);
                            Err(TrySendError::Disconnected(value))
                        } else {
                            self.channel = Some(channel);
                            Err(TrySendError::Full(value))
                        }
                    },
                }
            },
            None => Err(TrySendError::Disconnected(value)),
        }
    }

    /// Go away.
    pub fn drop(self, heap: &mut Heap<Channel<T, W>>)
        requires
            self.wf(*old(heap)),
        ensures
            self.link() is None ==> final(heap).same(old(heap)),
            self.link() matches Some(ptr) ==> detached(*final(heap), *old(heap), ptr, true),
    {
        match self.channel {
            Some(channel) => detach(channel, heap, true),
            None => {},
        }
    }
}

/// Created by [`channel()`] and used to receive a stream of values from
/// an associated [`Sender`].
#[derive(Debug)]
pub struct Receiver<T, W> {
    channel: Option<BoxPtr<Channel<T, W>>>,
}

/// How a receiver of many values goes on after a read: the allocation is gone
/// once the sender is.
pub open spec fn streamed<T, W>(
    result: Poll<Option<T>>,
    link: Option<BoxPtr<Channel<T, W>>>,
    after: Heap<Channel<T, W>>,
    before: Heap<Channel<T, W>>,
    ptr: BoxPtr<Channel<T, W>>,
    read: (Poll<(Option<T>, bool)>, Mem<T, W>),
) -> bool {
    match read.0 {
        Poll::Pending => {
            &&& result is Pending
            &&& link == Some(ptr)
            &&& updated(after, before, ptr, read.1)
        },
        Poll::Ready((value, dropped)) => {
            &&& result == Poll::Ready(value)
            &&& dropped ==> link is None && after.freed(&before, ptr)
            &&& !dropped ==> link == Some(ptr) && updated(after, before, ptr, read.1)
        },
    }
}

impl<T, W> Receiver<T, W> {
    /// The channel to receive from, until the sender is found to be gone.
    pub closed spec fn link(self) -> Option<BoxPtr<Channel<T, W>>> {
        self.channel
    }

    /// The channel is there.
    pub open spec fn wf(self, heap: Heap<Channel<T, W>>) -> bool {
        self.link() matches Some(ptr) ==> usable(heap, ptr)
    }

    /// The wakers called so far, oldest first, are handed out and forgotten.
    pub fn take_woken(&self, heap: &mut Heap<Channel<T, W>>) -> (woken: Vec<W>)
        requires
            self.wf(*old(heap)),
        ensures
            match self.link() {
                Some(ptr) => drained(woken@, *final(heap), *old(heap), ptr),
                None => woken@.len() == 0 && final(heap).same(old(heap)),
            },
    {
        match self.channel {
            Some(channel) => channel.to_mut(heap).take_woken(),
            None => Vec::new(),
        }
    }

    /// Safely cancel the receive operation, consuming the [`Receiver`].
    pub fn cancel(self, heap: &mut Heap<Channel<T, W>>) -> (result: Option<T>)
        requires
            self.wf(*old(heap)),
        ensures
            self.link() is None ==> result is None && final(heap).same(old(heap)),
            self.link() matches Some(ptr) ==> cancelled(result, *final(heap), *old(heap), ptr),
    {
        match self.channel {
            Some(channel) => cancel_read(channel, heap),
            None => None,
        }
    }

    /// Try to receive the next value from the stream.
    pub fn try_recv(&mut self, heap: &mut Heap<Channel<T, W>>) -> (result: Poll<Option<T>>)
        requires
            old(self).wf(*old(heap)),
        ensures
            final(self).wf(*final(heap)),
            old(self).link() is None ==> {
                &&& result == Poll::Ready(None::<T>)
                &&& final(self).link() is None
                &&& final(heap).same(old(heap))
            },
            old(self).link() matches Some(ptr) ==> streamed(
                result,
                final(self).link(),
                *final(heap),
                *old(heap),
                ptr,
                old(heap).at(ptr)@.read_result(None, false),
            ),
    {
        match self.channel.take() {
            Some(channel) => {
                let result = channel.to_mut(heap).read(None, false);
                self.settle(heap, channel, result)
            },
            None => Poll::Ready(None),
        }
    }

    fn settle(
        &mut self,
        heap: &mut Heap<Channel<T, W>>,
        channel: BoxPtr<Channel<T, W>>,
        result: Poll<(Option<T>, bool)>,
    ) -> (item: Poll<Option<T>>)
        requires
            usable(*old(heap), channel),
            old(self).link() is None,
        ensures
            match result {
                Poll::Pending => item is Pending && final(self).link() == Some(channel)
                    && *final(heap) == *old(heap),
                Poll::Ready((value, dropped)) => {
                    &&& item == Poll::Ready(value)
                    &&& dropped ==> final(self).link() is None && final(heap).freed(
                        old(heap),
                        channel,
                    )
                    &&& !dropped ==> final(self).link() == Some(channel) && *final(heap) == *old(heap)
                },
            },
    {
        match result {
            Poll::Ready((value, dropped)) => {
                if dropped {
                    channel.dealloc(heap);
                } else {
                    self.channel = Some(channel);
                }
                Poll::Ready(value)
            },
            Poll::Pending => {
                self.channel = Some(channel);
                Poll::Pending
            },
        }
    }

    /// One turn of waiting for the next result from the [`Sender`]. The result
    /// is none if the sender has been dropped. If there is no result yet, the
    /// caller is to wait for the waker to be called.
    pub fn wait_next(&mut self, heap: &mut Heap<Channel<T, W>>, waker: W) -> (result: Poll<
        Option<T>,
    >)
        requires
            old(self).wf(*old(heap)),
        ensures
            final(self).wf(*final(heap)),
            old(self).link() is None ==> {
                &&& result == Poll::Ready(None::<T>)
                &&& final(self).link() is None
                &&& final(heap).same(old(heap))
            },
            old(self).link() matches Some(ptr) ==> streamed(
                result,
                final(self).link(),
                *final(heap),
                *old(heap),
                ptr,
                old(heap).at(ptr)@.read_result(Some(waker), false),
            ),
    {
        match self.channel.take() {
            Some(channel) => {
                let result = channel.to_mut(heap).wait_read(waker);
                self.settle(heap, channel, result)
            },
            None => Poll::Ready(None),
        }
    }

    /// One turn of waiting for the next result from the [`Sender`] until the
    /// time is up.
    pub fn wait_next_timeout(&mut self, heap: &mut Heap<Channel<T, W>>, turn: Turn<W>) -> (result:
        Poll<Result<T, RecvError>>)
        requires
            old(self).wf(*old(heap)),
        ensures
            final(self).wf(*final(heap)),
            old(self).link() is None ==> {
                &&& result == Poll::Ready(Err::<T, RecvError>(RecvError::Terminated))
                &&& final(self).link() is None
                &&& final(heap).same(old(heap))
            },
            old(self).link() matches Some(ptr) ==> {
                let read = match turn {
                    Turn::Wait(waker) => old(heap).at(ptr)@.read_result(Some(waker), false),
                    Turn::Expired => old(heap).at(ptr)@.read_result(None, false),
                };
                &&& streamed(
                    match read.0 {
                        Poll::Ready((value, _)) => Poll::Ready(value),
                        Poll::Pending => Poll::Pending,
                    },
                    final(self).link(),
                    *final(heap),
                    *old(heap),
                    ptr,
                    read,
                )
                &&& match read.0 {
                    Poll::Pending => result is Pending,
                    Poll::Ready((Some(v), _)) => result == Poll::Ready(Ok::<T, RecvError>(v)),
                    Poll::Ready((None, true)) => result == Poll::Ready(
                        Err::<T, RecvError>(RecvError::Incomplete),
                    ),
                    Poll::Ready((None, false)) => result == Poll::Ready(
                        Err::<T, RecvError>(RecvError::TimedOut),
                    ),
                }
            },
    {
        match self.channel.take() {
            Some(channel) => {
                let read = channel.to_mut(heap).wait_read_timeout(turn);
                let dropped = matches!(read, Poll::Ready((_, true)));
                match self.settle(heap, channel, read) {
                    Poll::Ready(Some(value)) => Poll::Ready(Ok(value)),
                    Poll::Ready(None) => Poll::Ready(
                        Err(
                            if dropped {
                                RecvError::Incomplete
                            } else {
                                RecvError::TimedOut
                            },
                        ),
                    ),
                    Poll::Pending => Poll::Pending,
                }
            },
            None => Poll::Ready(Err(RecvError::Terminated)),
        }
    }

    /// Ask for the next item, leaving the waker to be called if it is not there yet.
    pub fn poll_next(&mut self, heap: &mut Heap<Channel<T, W>>, waker: W) -> (result: Poll<
        Option<T>,
    >)
        requires
            old(self).wf(*old(heap)),
        ensures
            final(self).wf(*final(heap)),
            old(self).link() is None ==> {
                &&& result == Poll::Ready(None::<T>)
                &&& final(self).link() is None
                &&& final(heap).same(old(heap))
            },
            old(self).link() matches Some(ptr) ==> streamed(
                result,
                final(self).link(),
                *final(heap),
                *old(heap),
                ptr,
                old(heap).at(ptr)@.read_result(Some(waker), false),
            ),
    {
        match self.channel.take() {
            Some(channel) => {
                let result = channel.to_mut(heap).read(Some(waker), false);
                self.settle(heap, channel, result)
            },
            None => Poll::Ready(None),
        }
    }

    /// Tell whether there is nothing more to come.
    pub fn is_terminated(&self, heap: &Heap<Channel<T, W>>) -> (yes: bool)
        requires
            self.wf(*heap),
        ensures
            yes == (match self.link() {
                Some(ptr) => heap.at(ptr)@.is_done(),
                None => true,
            }),
    {
        match self.channel {
            Some(channel) => channel.to_ref(heap).is_done(),
            None => true,
        }
    }

    /// Go away.
    pub fn drop(self, heap: &mut Heap<Channel<T, W>>)
        requires
            self.wf(*old(heap)),
        ensures
            self.link() is None ==> final(heap).same(old(heap)),
            self.link() matches Some(ptr) ==> detached(*final(heap), *old(heap), ptr, false),
    {
        match self.channel {
            Some(channel) => detach(channel, heap, false),
            None => {},
        }
    }
}

} // verus!
