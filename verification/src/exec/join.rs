//! The results of what the threads of a pool run.

use vstd::prelude::*;

use crate::channel::handles::{send_once, ReceiveOnce, SendOnce};
use crate::channel::memory::{Channel, Mem};
use crate::error::RecvError;
use crate::poll::Poll;
use crate::util::{BoxPtr, Heap};

verus! {

/// The outcome of what was received. What has panicked is without a value,
/// and its receiver is told the same as if nothing had been sent.
pub open spec fn outcome_of<T, P>(result: Result<Result<T, P>, RecvError>) -> Result<T, RecvError> {
    match result {
        Ok(Ok(value)) => Ok(value),
        Ok(Err(_)) => Err(RecvError::Incomplete),
        Err(err) => Err(err),
    }
}

/// What was received, as a result.
pub fn task_result<T, P>(result: Result<Result<T, P>, RecvError>) -> (outcome: Result<
    T,
    RecvError,
>)
    ensures
        outcome == outcome_of(result),
{
    match result {
        Ok(Ok(value)) => Ok(value),
        Ok(Err(_)) => Err(RecvError::Incomplete),
        Err(err) => Err(err),
    }
}

/// Something that runs on a pool, and sends its result.
#[derive(Debug)]
pub struct Runnable<T, P, W> {
    sender: SendOnce<Result<T, P>, W>,
}

/// The result of something that runs on a pool.
#[derive(Debug)]
pub struct JoinTask<T, P, W> {
    result: ReceiveOnce<Result<T, P>, W>,
}

impl<T, P, W> Runnable<T, P, W> {
    /// Where the result goes.
    pub closed spec fn sender(self) -> SendOnce<Result<T, P>, W> {
        self.sender
    }

    /// It has run, and has returned or panicked as given. The result is sent
    /// without waiting for it to be received. True if it has panicked.
    pub fn finish(self, heap: &mut Heap<Channel<Result<T, P>, W>>, caught: Result<T, P>) -> (panicked:
        bool)
        requires
            crate::channel::handles::usable(*old(heap), self.sender().link()),
        ensures
            panicked == (caught is Err),
            ({
                let ptr = self.sender().link();
                let (written, mem) = old(heap).at(ptr)@.write_result(caught, None, true);
                if written is Ok {
                    crate::channel::handles::updated(*final(heap), *old(heap), ptr, mem)
                } else {
                    final(heap).freed(old(heap), ptr)
                }
            }),
    {
        let panicked: bool = caught.is_err();
        let _ = self.sender.try_send(heap, caught);
        panicked
    }
}

impl<T, P, W> JoinTask<T, P, W> {
    /// Where the result comes from.
    pub closed spec fn receiver(self) -> ReceiveOnce<Result<T, P>, W> {
        self.result
    }

    /// The outcome is that of a result that was received by the given read.
    pub open spec fn joined(
        outcome: Poll<Result<T, RecvError>>,
        link: Option<BoxPtr<Channel<Result<T, P>, W>>>,
        after: Heap<Channel<Result<T, P>, W>>,
        before: Heap<Channel<Result<T, P>, W>>,
        ptr: BoxPtr<Channel<Result<T, P>, W>>,
        read: (Poll<(Option<Result<T, P>>, bool)>, Mem<Result<T, P>, W>),
    ) -> bool {
        exists|got: Poll<Result<Result<T, P>, RecvError>>|
            {
                &&& #[trigger] crate::channel::handles::received(
                    got,
                    link,
                    after,
                    before,
                    ptr,
                    read,
                )
                &&& outcome == (match got {
                    Poll::Ready(result) => Poll::Ready(outcome_of(result)),
                    Poll::Pending => Poll::Pending,
                })
            }
    }

    /// Something to run, and its result.
    pub fn new_pair(heap: &mut Heap<Channel<Result<T, P>, W>>) -> (pair: (
        Runnable<T, P, W>,
        JoinTask<T, P, W>,
    ))
        requires
            old(heap).issued() < usize::MAX,
        ensures
            ({
                let ptr = pair.0.sender().link();
                &&& pair.1.receiver().link() == Some(ptr)
                &&& !old(heap).has(ptr)
                &&& crate::channel::handles::usable(*final(heap), ptr)
                &&& final(heap).at(ptr)@ == crate::channel::handles::fresh::<Result<T, P>, W>()
                &&& final(heap)@.remove(ptr.addr()) == old(heap)@
                &&& final(heap).issued() == old(heap).issued() + 1
            }),
    {
        let (sender, result) = send_once(heap);
        (Runnable { sender }, JoinTask { result })
    }

    /// One turn of waiting for the result.
    pub fn join(&mut self, heap: &mut Heap<Channel<Result<T, P>, W>>, waker: W) -> (outcome: Poll<
        Result<T, RecvError>,
    >)
        requires
            old(self).receiver().wf(*old(heap)),
        ensures
            final(self).receiver().wf(*final(heap)),
            match old(self).receiver().link() {
                None => {
                    &&& outcome == Poll::Ready(
                        Err::<T, RecvError>(RecvError::Terminated),
                    )
                    &&& final(self).receiver().link() is None
                    &&& final(heap).same(old(heap))
                },
                Some(ptr) => Self::joined(
                    outcome,
                    final(self).receiver().link(),
                    *final(heap),
                    *old(heap),
                    ptr,
                    old(heap).at(ptr)@.read_result(Some(waker), false),
                ),
            },
    {
        let got = self.result.recv(heap, waker);
        match got {
            Poll::Ready(result) => Poll::Ready(task_result(result)),
            Poll::Pending => Poll::Pending,
        }
    }

    /// Ask for the result, leaving the waker to be called if it is not there yet.
    pub fn poll(&mut self, heap: &mut Heap<Channel<Result<T, P>, W>>, waker: W) -> (outcome: Poll<
        Result<T, RecvError>,
    >)
        requires
            old(self).receiver().wf(*old(heap)),
        ensures
            final(self).receiver().wf(*final(heap)),
            match old(self).receiver().link() {
                None => {
                    &&& outcome == Poll::Ready(
                        Err::<T, RecvError>(RecvError::Terminated),
                    )
                    &&& final(self).receiver().link() is None
                    &&& final(heap).same(old(heap))
                },
                Some(ptr) => Self::joined(
                    outcome,
                    final(self).receiver().link(),
                    *final(heap),
                    *old(heap),
                    ptr,
                    old(heap).at(ptr)@.read_result(Some(waker), false),
                ),
            },
    {
        let got = self.result.poll(heap, waker);
        match got {
            Poll::Ready(result) => Poll::Ready(task_result(result)),
            Poll::Pending => Poll::Pending,
        }
    }
}

/// Whoever joins something that runs waits until it has returned or panicked, and
/// gets what it has returned. If it has panicked, or has gone without running, there
/// is no result.
pub proof fn law_join<T, P, W>(
    join: &mut JoinTask<T, P, W>,
    heap: &mut Heap<Channel<Result<T, P>, W>>,
    ptr: BoxPtr<Channel<Result<T, P>, W>>,
    waker: W,
    outcome: Poll<Result<T, RecvError>>,
)
    requires
        join.receiver().link() == Some(ptr),
        heap.has(ptr),
        heap.at(ptr).at_rest(),
        call_ensures(JoinTask::<T, P, W>::join, (join, heap, waker), outcome),
    ensures
        ({
            let before = old(heap).at(ptr)@;
            let after = final(heap).at(ptr)@;
            &&& before.state.loaded ==> {
                &&& before.value matches Some(Ok(value)) ==> outcome == Poll::Ready(Ok::<T, RecvError>(value))
                &&& before.value matches Some(Err(_)) ==> outcome == Poll::Ready(
                    Err::<T, RecvError>(RecvError::Incomplete),
                )
                &&& final(join).receiver().link() is None
            }
            &&& !before.state.loaded && before.state.active ==> {
                &&& outcome is Pending
                &&& final(join).receiver().link() == Some(ptr)
                &&& final(heap).has(ptr)
                &&& after.state.active
                &&& !after.state.loaded
                &&& after.waker == Some(waker)
                &&& final(heap)@.remove(ptr.addr()) == old(heap)@.remove(ptr.addr())
            }
            &&& !before.state.loaded && !before.state.active ==> {
                &&& outcome == Poll::Ready(Err::<T, RecvError>(RecvError::Incomplete))
                &&& final(join).receiver().link() is None
                &&& final(heap)@ == old(heap)@.remove(ptr.addr())
            }
            &&& !before.state.active ==> final(heap)@ == old(heap)@.remove(ptr.addr())
        }),
{
}

/// Whoever joins something that runs waits until it has returned or panicked, and
/// gets what it has returned. If it has panicked, or has gone without running, there
/// is no result.
pub proof fn law_poll<T, P, W>(
    join: &mut JoinTask<T, P, W>,
    heap: &mut Heap<Channel<Result<T, P>, W>>,
    ptr: BoxPtr<Channel<Result<T, P>, W>>,
    waker: W,
    outcome: Poll<Result<T, RecvError>>,
)
    requires
        join.receiver().link() == Some(ptr),
        heap.has(ptr),
        heap.at(ptr).at_rest(),
        call_ensures(JoinTask::<T, P, W>::poll, (join, heap, waker), outcome),
    ensures
        ({
            let before = old(heap).at(ptr)@;
            let after = final(heap).at(ptr)@;
            &&& before.state.loaded ==> {
                &&& before.value matches Some(Ok(value)) ==> outcome == Poll::Ready(Ok::<T, RecvError>(value))
                &&& before.value matches Some(Err(_)) ==> outcome == Poll::Ready(
                    Err::<T, RecvError>(RecvError::Incomplete),
                )
                &&& final(join).receiver().link() is None
            }
            &&& !before.state.loaded && before.state.active ==> {
                &&& outcome is Pending
                &&& final(join).receiver().link() == Some(ptr)
                &&& final(heap).has(ptr)
                &&& after.state.active
                &&& !after.state.loaded
                &&& after.waker == Some(waker)
                &&& final(heap)@.remove(ptr.addr()) == old(heap)@.remove(ptr.addr())
            }
            &&& !before.state.loaded && !before.state.active ==> {
                &&& outcome == Poll::Ready(Err::<T, RecvError>(RecvError::Incomplete))
                &&& final(join).receiver().link() is None
                &&& final(heap)@ == old(heap)@.remove(ptr.addr())
            }
            &&& !before.state.active ==> final(heap)@ == old(heap)@.remove(ptr.addr())
        }),
{
}

/// What has run sends what it has returned, or what it has panicked with, to whoever
/// joins it, and calls that one if it waits.
pub proof fn law_finish<T, P, W>(
    run: Runnable<T, P, W>,
    heap: &mut Heap<Channel<Result<T, P>, W>>,
    ptr: BoxPtr<Channel<Result<T, P>, W>>,
    caught: Result<T, P>,
    panicked: bool,
)
    requires
        run.sender().link() == ptr,
        heap.has(ptr),
        heap.at(ptr).at_rest(),
        !heap.at(ptr)@.state.loaded,
        call_ensures(Runnable::<T, P, W>::finish, (run, heap, caught), panicked),
    ensures
        ({
            let before = old(heap).at(ptr)@;
            let after = final(heap).at(ptr)@;
            &&& panicked == (caught is Err)
            &&& before.state.active ==> {
                &&& final(heap).has(ptr)
                &&& after.state.loaded
                &&& !after.state.active
                &&& after.value == Some(caught)
                &&& after.woken == (match before.waker {
                    Some(w) => before.woken.push(w),
                    None => before.woken,
                })
                &&& final(heap)@.remove(ptr.addr()) == old(heap)@.remove(ptr.addr())
            }
            &&& !before.state.active ==> final(heap)@ == old(heap)@.remove(ptr.addr())
        }),
{
}

/// What was received is the result, unless it tells of a panic: then there is none.
pub proof fn law_task_result<T, P>(
    result: Result<Result<T, P>, RecvError>,
    outcome: Result<T, RecvError>,
)
    requires
        call_ensures(task_result::<T, P>, (result,), outcome),
    ensures
        result matches Ok(Ok(value)) ==> outcome == Ok::<T, RecvError>(value),
        result matches Ok(Err(_)) ==> outcome == Err::<T, RecvError>(RecvError::Incomplete),
        result matches Err(err) ==> outcome == Err::<T, RecvError>(err),
{
}

/// A result that has been given is not given again.
pub proof fn law_joined_once<T, P, W>(
    join: &mut JoinTask<T, P, W>,
    heap: &mut Heap<Channel<Result<T, P>, W>>,
    waker: W,
    outcome: Poll<Result<T, RecvError>>,
)
    requires
        join.receiver().link() is None,
        call_ensures(JoinTask::<T, P, W>::join, (join, heap, waker), outcome) || call_ensures(
            JoinTask::<T, P, W>::poll,
            (join, heap, waker),
            outcome,
        ),
    ensures
        outcome == Poll::Ready(Err::<T, RecvError>(RecvError::Terminated)),
        final(join).receiver().link() is None,
        final(heap)@ == old(heap)@,
{
}

/// What runs is joined by the one that was made with it: it waits while that runs, is
/// called at the end, and then gets what has been returned, or is told that there is
/// no result if that has panicked.
pub proof fn law_run_and_join<T, P, W>(
    made: &mut Heap<Channel<Result<T, P>, W>>,
    asked: &mut Heap<Channel<Result<T, P>, W>>,
    done: &mut Heap<Channel<Result<T, P>, W>>,
    joined: &mut Heap<Channel<Result<T, P>, W>>,
    pair: (Runnable<T, P, W>, JoinTask<T, P, W>),
    first: &mut JoinTask<T, P, W>,
    second: &mut JoinTask<T, P, W>,
    caught: Result<T, P>,
    panicked: bool,
    wakers: (W, W),
    outcomes: (Poll<Result<T, RecvError>>, Poll<Result<T, RecvError>>),
)
    requires
        call_ensures(JoinTask::<T, P, W>::new_pair, (made,), pair),
        *final(made) == *asked,
        *first == pair.1,
        call_ensures(JoinTask::<T, P, W>::join, (first, asked, wakers.0), outcomes.0),
        *final(asked) == *done,
        call_ensures(Runnable::<T, P, W>::finish, (pair.0, done, caught), panicked),
        *final(done) == *joined,
        *final(first) == *second,
        call_ensures(JoinTask::<T, P, W>::join, (second, joined, wakers.1), outcomes.1),
    ensures
        outcomes.0 is Pending,
        panicked == (caught is Err),
        final(done).at(pair.0.sender().link())@.woken == seq![wakers.0],
        caught matches Ok(value) ==> outcomes.1 == Poll::Ready(Ok::<T, RecvError>(value)),
        caught is Err ==> outcomes.1 == Poll::Ready(Err::<T, RecvError>(RecvError::Incomplete)),
        !final(joined).has(pair.0.sender().link()),
{
    assert(final(done).at(pair.0.sender().link())@.woken =~= seq![wakers.0]);
}

} // verus!
