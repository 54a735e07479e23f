//! Wrap a function and a channel in a single heap allocation, allowing
//! for async polling of the result.

use vstd::prelude::*;

use crate::channel::memory::{Channel, Mem};
use crate::channel::state::State;
use crate::error::RecvError;
use crate::poll::{Poll, Turn};
use crate::util::{BoxPtr, Heap};

verus! {

/// The result of a task.
pub type TaskResult<T> = Result<T, RecvError>;

/// A function, and the channel that its result goes through.
#[derive(Debug)]
pub struct TaskInner<T, F, W> {
    channel: Channel<T, W>,
    body: Option<F>,
}

impl<T, F, W> TaskInner<T, F, W> {
    /// The memory of the channel.
    pub closed spec fn channel(&self) -> Mem<T, W> {
        self.channel@
    }

    /// The function, if it has not been called yet.
    pub closed spec fn body(&self) -> Option<F> {
        self.body
    }

    /// The channel is at rest. A result in it is the last thing that the task sends.
    pub closed spec fn at_rest(&self) -> bool {
        &&& self.channel.at_rest()
        &&& self.channel@.state.loaded ==> !self.channel@.state.active
    }

    /// Allocate a task for a function.
    pub fn new_fn(heap: &mut Heap<TaskInner<T, F, W>>, f: F) -> (task: BoxPtr<TaskInner<T, F, W>>)
        requires
            old(heap).issued() < usize::MAX,
        ensures
            !old(heap).has(task),
            final(heap).has(task),
            final(heap)@.remove(task.addr()) == old(heap)@,
            final(heap).issued() == old(heap).issued() + 1,
            final(heap).at(task).at_rest(),
            final(heap).at(task).body() == Some(f),
            final(heap).at(task).channel() == (Mem::<T, W> {
                state: State::flags(true, false, false, false, false),
                value: None,
                waker: None,
                woken: Seq::empty(),
            }),
    {
        let task = BoxPtr::allocate(heap, TaskInner { channel: Channel::new(), body: Some(f) });
        assert(heap@.remove(task.addr()) =~= old(heap)@);
        task
    }

    /// The wakers called so far, oldest first, are handed out and forgotten.
    pub fn take_woken(&mut self) -> (woken: Vec<W>)
        ensures
            woken@ == old(self).channel().woken,
            final(self).channel() == (Mem { woken: Seq::empty(), ..old(self).channel() }),
            final(self).body() == old(self).body(),
            final(self).at_rest() == old(self).at_rest(),
    {
        self.channel.take_woken()
    }
}

/// The task in the allocation has come to be as given, and nothing else has changed.
pub open spec fn updated<T, F, W>(
    after: Heap<TaskInner<T, F, W>>,
    before: Heap<TaskInner<T, F, W>>,
    ptr: BoxPtr<TaskInner<T, F, W>>,
    body: Option<F>,
    mem: Mem<T, W>,
) -> bool {
    &&& after.same_but(&before, ptr)
    &&& after.at(ptr).at_rest()
    &&& after.at(ptr).body() == body
    &&& after.at(ptr).channel() == mem
}

/// One side has detached; the allocation is gone if the other side had done so before.
pub open spec fn detached<T, F, W>(
    after: Heap<TaskInner<T, F, W>>,
    before: Heap<TaskInner<T, F, W>>,
    ptr: BoxPtr<TaskInner<T, F, W>>,
    body: Option<F>,
    is_task: bool,
) -> bool {
    let (last, mem) = before.at(ptr).channel().drop_result(is_task);
    if last {
        after.freed(&before, ptr)
    } else {
        updated(after, before, ptr, body, mem)
    }
}

/// The task has produced `value`: it is loaded, or dropped with the
/// allocation if nobody is left to receive it.
pub open spec fn produced<T, F, W>(
    after: Heap<TaskInner<T, F, W>>,
    before: Heap<TaskInner<T, F, W>>,
    ptr: BoxPtr<TaskInner<T, F, W>>,
    value: T,
) -> bool {
    let (written, mem) = before.at(ptr).channel().write_result(value, None, true);
    if written is Ok {
        updated(after, before, ptr, None, mem)
    } else {
        after.freed(&before, ptr)
    }
}

/// A handle for a heap-allocated task.
#[derive(Debug)]
pub struct TaskFn<T, F, W> {
    task: BoxPtr<TaskInner<T, F, W>>,
}

/// A task whose function is being called.
#[derive(Debug)]
pub struct TaskGuard<T, F, W> {
    task: BoxPtr<TaskInner<T, F, W>>,
}

impl<T, F, W> TaskFn<T, F, W> {
    /// The allocation of the task.
    pub closed spec fn link(self) -> BoxPtr<TaskInner<T, F, W>> {
        self.task
    }

    /// The task is there, and its function has not been called.
    pub open spec fn wf(self, heap: Heap<TaskInner<T, F, W>>) -> bool {
        &&& heap.has(self.link())
        &&& heap.at(self.link()).at_rest()
        &&& heap.at(self.link()).body() is Some
        &&& !heap.at(self.link()).channel().state.loaded
    }

    /// Take the function out, in order to call it.
    pub fn start(self, heap: &mut Heap<TaskInner<T, F, W>>) -> (started: (F, TaskGuard<T, F, W>))
        requires
            self.wf(*old(heap)),
        ensures
            Some(started.0) == old(heap).at(self.link()).body(),
            started.1.link() == self.link(),
            started.1.wf(*final(heap)),
            updated(
                *final(heap),
                *old(heap),
                self.link(),
                None,
                old(heap).at(self.link()).channel(),
            ),
    {
        let body = self.task.to_mut(heap).body.take();
        (body.unwrap(), TaskGuard { task: self.task })
    }

    /// Execute the task.
    pub fn run(self, heap: &mut Heap<TaskInner<T, F, W>>) where F: FnOnce() -> T
        requires
            self.wf(*old(heap)),
            old(heap).at(self.link()).body() matches Some(f) && f.requires(()),
        ensures
            old(heap).at(self.link()).body() matches Some(f) && exists|value: T| #[trigger]
                f.ensures((), value) && produced(*final(heap), *old(heap), self.link(), value),
    {
        let (f, guard) = self.start(heap);
        let ghost between = *heap;
        let value = f();
        guard.finish(heap, value);
        proof {
            assert(produced(*heap, between, self.link(), value));
            assert(heap@.remove(self.link().addr()) =~= old(heap)@.remove(self.link().addr()));
            assert(between@.remove(self.link().addr()) =~= old(heap)@.remove(self.link().addr()));
            assert(produced(*heap, *old(heap), self.link(), value));
        }
    }

    /// The task goes away without being executed.
    pub fn drop(self, heap: &mut Heap<TaskInner<T, F, W>>)
        requires
            self.wf(*old(heap)),
        ensures
            detached(*final(heap), *old(heap), self.link(), None, true),
    {
        let inner = self.task.to_mut(heap);
        inner.body = None;
        if inner.channel.drop_one_side(true) {
            self.task.dealloc(heap);
        }
    }
}

impl<T, F, W> TaskGuard<T, F, W> {
    /// The allocation of the task.
    pub closed spec fn link(self) -> BoxPtr<TaskInner<T, F, W>> {
        self.task
    }

    /// The task is there, and has no result yet.
    pub open spec fn wf(self, heap: Heap<TaskInner<T, F, W>>) -> bool {
        &&& heap.has(self.link())
        &&& heap.at(self.link()).at_rest()
        &&& heap.at(self.link()).body() is None
        &&& !heap.at(self.link()).channel().state.loaded
    }

    /// The function has returned.
    pub fn finish(self, heap: &mut Heap<TaskInner<T, F, W>>, value: T)
        requires
            self.wf(*old(heap)),
        ensures
            produced(*final(heap), *old(heap), self.link(), value),
    {
        if self.task.to_mut(heap).channel.write(value, None, true).is_err() {
            self.task.dealloc(heap);
        }
    }

    /// The function has panicked. The receiver gets no result.
    pub fn drop(self, heap: &mut Heap<TaskInner<T, F, W>>)
        requires
            self.wf(*old(heap)),
        ensures
            detached(*final(heap), *old(heap), self.link(), None, true),
    {
        if self.task.to_mut(heap).channel.drop_one_side(true) {
            self.task.dealloc(heap);
        }
    }
}

/// The result of a task was asked for: it is there, it will never be, or the
/// handle is left to ask again.
pub open spec fn joined<T, F, W>(
    result: Poll<Result<T, RecvError>>,
    link: Option<BoxPtr<TaskInner<T, F, W>>>,
    after: Heap<TaskInner<T, F, W>>,
    before: Heap<TaskInner<T, F, W>>,
    ptr: BoxPtr<TaskInner<T, F, W>>,
    waker: Option<W>,
) -> bool {
    let (read, mem) = before.at(ptr).channel().read_result(waker, false);
    match read {
        Poll::Ready((Some(value), _)) => {
            &&& result == Poll::Ready(Ok::<T, RecvError>(value))
            &&& link is None
            &&& after.freed(&before, ptr)
        },
        Poll::Ready((None, true)) => {
            &&& result == Poll::Ready(Err::<T, RecvError>(RecvError::Incomplete))
            &&& link is None
            &&& after.freed(&before, ptr)
        },
        _ => {
            &&& result is Pending
            &&& link == Some(ptr)
            &&& updated(after, before, ptr, before.at(ptr).body(), mem)
        },
    }
}

/// The result of a spawned [`TaskFn`] which can be polled or joined.
#[derive(Debug)]
pub struct JoinTask<T, F, W> {
    task: Option<BoxPtr<TaskInner<T, F, W>>>,
}

impl<T, F, W> JoinTask<T, F, W> {
    /// The allocation of the task.
    pub closed spec fn link(self) -> Option<BoxPtr<TaskInner<T, F, W>>> {
        self.task
    }

    /// The task is there, unless its result has been returned.
    pub open spec fn wf(self, heap: Heap<TaskInner<T, F, W>>) -> bool {
        self.link() matches Some(ptr) ==> heap.has(ptr) && heap.at(ptr).at_rest()
    }

    /// The wakers called so far, oldest first, are handed out and forgotten.
    pub fn take_woken(&self, heap: &mut Heap<TaskInner<T, F, W>>) -> (woken: Vec<W>)
        requires
            self.wf(*old(heap)),
        ensures
            match self.link() {
                Some(ptr) => {
                    &&& woken@ == old(heap).at(ptr).channel().woken
                    &&& updated(
                        *final(heap),
                        *old(heap),
                        ptr,
                        old(heap).at(ptr).body(),
                        Mem { woken: Seq::empty(), ..old(heap).at(ptr).channel() },
                    )
                },
                None => woken@.len() == 0 && final(heap).same(old(heap)),
            },
    {
        match self.task {
            Some(task) => task.to_mut(heap).take_woken(),
            None => Vec::new(),
        }
    }

    fn ask(&mut self, heap: &mut Heap<TaskInner<T, F, W>>, waker: Option<W>) -> (result: Poll<
        Result<T, RecvError>,
    >)
        requires
            old(self).wf(*old(heap)),
        ensures
            final(self).wf(*final(heap)),
            old(self).link() is None ==> {
                &&& result == Poll::Ready(Err::<T, RecvError>(RecvError::Terminated))
                &&& final(self).link() is None
                &&& final(heap).same(old(heap))
            },
            old(self).link() matches Some(ptr) ==> joined(
                result,
                final(self).link(),
                *final(heap),
                *old(heap),
                ptr,
                waker,
            ),
    {
        match self.task.take() {
            Some(task) => {
                match task.to_mut(heap).channel.read(waker, false) {
                    Poll::Pending | Poll::Ready((None, false)) => {
                        self.task = Some(task);
                        Poll::Pending
                    },
                    Poll::Ready((result, _)) => {
                        task.dealloc(heap);
                        Poll::Ready(result.ok_or(RecvError::Incomplete))
                    },
                }
            },
            None => Poll::Ready(Err(RecvError::Terminated)),
        }
    }

    /// One turn of blocking the current thread on the result of the task.
    pub fn join(&mut self, heap: &mut Heap<TaskInner<T, F, W>>, waker: W) -> (result: Poll<
        Result<T, RecvError>,
    >)
        requires
            old(self).wf(*old(heap)),
        ensures
            final(self).wf(*final(heap)),
            old(self).link() is None ==> {
                &&& result == Poll::Ready(Err::<T, RecvError>(RecvError::Terminated))
                &&& final(self).link() is None
                &&& final(heap).same(old(heap))
            },
            old(self).link() matches Some(ptr) ==> joined(
                result,
                final(self).link(),
                *final(heap),
                *old(heap),
                ptr,
                Some(waker),
            ),
    {
        self.ask(heap, Some(waker))
    }

    /// One turn of blocking the current thread on the result of the task, until the time is up.
    pub fn join_timeout(&mut self, heap: &mut Heap<TaskInner<T, F, W>>, turn: Turn<W>) -> (result:
        Poll<Result<T, RecvError>>)
        requires
            old(self).wf(*old(heap)),
        ensures
            final(self).wf(*final(heap)),
            old(self).link() is None ==> {
                &&& result == Poll::Ready(Err::<T, RecvError>(RecvError::Terminated))
                &&& final(self).link() is None
                &&& final(heap).same(old(heap))
            },
            old(self).link() matches Some(ptr) ==> match turn {
                Turn::Wait(waker) => joined(
                    result,
                    final(self).link(),
                    *final(heap),
                    *old(heap),
                    ptr,
                    Some(waker),
                ),
                Turn::Expired => joined(
                    if result == Poll::Ready(Err::<T, RecvError>(RecvError::TimedOut)) {
                        Poll::Pending
                    } else {
                        result
                    },
                    final(self).link(),
                    *final(heap),
                    *old(heap),
                    ptr,
                    None,
                ) && result is Ready,
            },
    {
        match turn {
            Turn::Wait(waker) => self.ask(heap, Some(waker)),
            Turn::Expired => {
                match self.ask(heap, None) {
                    Poll::Pending => Poll::Ready(Err(RecvError::TimedOut)),
                    result => result,
                }
            },
        }
    }

    /// Try to fetch the result of the task.
    pub fn try_join(&mut self, heap: &mut Heap<TaskInner<T, F, W>>) -> (result: Poll<
        Result<T, RecvError>,
    >)
        requires
            old(self).wf(*old(heap)),
        ensures
            final(self).wf(*final(heap)),
            old(self).link() is None ==> {
                &&& result == Poll::Ready(Err::<T, RecvError>(RecvError::Terminated))
                &&& final(self).link() is None
                &&& final(heap).same(old(heap))
            },
            old(self).link() matches Some(ptr) ==> joined(
                result,
                final(self).link(),
                *final(heap),
                *old(heap),
                ptr,
                None,
            ),
    {
        self.ask(heap, None)
    }

    /// Ask for the result, leaving the waker to be called if it is not there yet.
    pub fn poll(&mut self, heap: &mut Heap<TaskInner<T, F, W>>, waker: W) -> (result: Poll<
        Result<T, RecvError>,
    >)
        requires
            old(self).wf(*old(heap)),
        ensures
            final(self).wf(*final(heap)),
            old(self).link() is None ==> {
                &&& result == Poll::Ready(Err::<T, RecvError>(RecvError::Terminated))
                &&& final(self).link() is None
                &&& final(heap).same(old(heap))
            },
            old(self).link() matches Some(ptr) ==> joined(
                result,
                final(self).link(),
                *final(heap),
                *old(heap),
                ptr,
                Some(waker),
            ),
    {
        self.ask(heap, Some(waker))
    }

    /// Go away without the result.
    pub fn drop(self, heap: &mut Heap<TaskInner<T, F, W>>)
        requires
            self.wf(*old(heap)),
        ensures
            match self.link() {
                None => final(heap).same(old(heap)),
                Some(ptr) => detached(
                    *final(heap),
                    *old(heap),
                    ptr,
                    old(heap).at(ptr).body(),
                    false,
                ),
            },
    {
        match self.task {
            Some(task) => {
                if task.to_mut(heap).channel.drop_one_side(false) {
                    task.dealloc(heap);
                }
            },
            None => {},
        }
    }
}

/// Create a new pair of a [`TaskFn`] and [`JoinTask`] from a function.
pub fn task_fn<T, F, W>(heap: &mut Heap<TaskInner<T, F, W>>, f: F) -> (pair: (
    TaskFn<T, F, W>,
    JoinTask<T, F, W>,
))
    requires
        old(heap).issued() < usize::MAX,
    ensures
        pair.1.link() == Some(pair.0.link()),
        pair.0.wf(*final(heap)),
        pair.1.wf(*final(heap)),
        !old(heap).has(pair.0.link()),
        final(heap)@.remove(pair.0.link().addr()) == old(heap)@,
        final(heap).issued() == old(heap).issued() + 1,
        final(heap).at(pair.0.link()).body() == Some(f),
        final(heap).at(pair.0.link()).channel() == (Mem::<T, W> {
            state: State::flags(true, false, false, false, false),
            value: None,
            waker: None,
            woken: Seq::empty(),
        }),
{
    let task = TaskInner::new_fn(heap, f);
    (TaskFn { task }, JoinTask { task: Some(task) })
}

/// Whoever joins a task gets what the task produced, whether it waited for
/// that or not; one that waited is woken. The allocation goes with that.
pub proof fn law_join_after_run<T, F, W>(
    heap: Heap<TaskInner<T, F, W>>,
    ran: Heap<TaskInner<T, F, W>>,
    after: Heap<TaskInner<T, F, W>>,
    ptr: BoxPtr<TaskInner<T, F, W>>,
    value: T,
    waker: Option<W>,
    result: Poll<Result<T, RecvError>>,
    link: Option<BoxPtr<TaskInner<T, F, W>>>,
)
    requires
        heap.has(ptr),
        heap.at(ptr).channel().state.active,
        !heap.at(ptr).channel().state.loaded,
        produced(ran, heap, ptr, value),
        joined(result, link, after, ran, ptr, waker),
    ensures
        result == Poll::Ready(Ok::<T, RecvError>(value)),
        link is None,
        after.freed(&ran, ptr),
        heap.at(ptr).channel().waker matches Some(w) ==> ran.at(ptr).channel().woken == heap.at(
            ptr,
        ).channel().woken.push(w),
{
}

/// Whoever joins a task that was dropped, or that panicked, is told that
/// there will be no result.
pub proof fn law_join_after_drop<T, F, W>(
    heap: Heap<TaskInner<T, F, W>>,
    dropped: Heap<TaskInner<T, F, W>>,
    after: Heap<TaskInner<T, F, W>>,
    ptr: BoxPtr<TaskInner<T, F, W>>,
    waker: Option<W>,
    result: Poll<Result<T, RecvError>>,
    link: Option<BoxPtr<TaskInner<T, F, W>>>,
)
    requires
        heap.has(ptr),
        heap.at(ptr).channel().state.active,
        !heap.at(ptr).channel().state.loaded,
        detached(dropped, heap, ptr, None, true),
        joined(result, link, after, dropped, ptr, waker),
    ensures
        result == Poll::Ready(Err::<T, RecvError>(RecvError::Incomplete)),
        link is None,
        after.freed(&dropped, ptr),
{
}

/// The result of a task that nobody joins any more is dropped with the allocation.
pub proof fn law_run_after_join_drop<T, F, W>(
    heap: Heap<TaskInner<T, F, W>>,
    left: Heap<TaskInner<T, F, W>>,
    after: Heap<TaskInner<T, F, W>>,
    ptr: BoxPtr<TaskInner<T, F, W>>,
    value: T,
)
    requires
        heap.has(ptr),
        heap.at(ptr).channel().state.active,
        !heap.at(ptr).channel().state.loaded,
        detached(left, heap, ptr, heap.at(ptr).body(), false),
        produced(after, left, ptr, value),
    ensures
        left.has(ptr),
        after.freed(&left, ptr),
{
}

/// Whoever asks for the result of a task waits for it as long as the task is there,
/// whether its function has been called or not. The result is given once it has
/// been produced; if the task has gone without one, that is told.
pub proof fn law_join<T, F, W>(
    join: &mut JoinTask<T, F, W>,
    heap: &mut Heap<TaskInner<T, F, W>>,
    ptr: BoxPtr<TaskInner<T, F, W>>,
    waker: W,
    result: Poll<Result<T, RecvError>>,
)
    requires
        join.link() == Some(ptr),
        heap.has(ptr),
        heap.at(ptr).at_rest(),
        call_ensures(JoinTask::<T, F, W>::join, (join, heap, waker), result),
    ensures
        ({
            let before = old(heap).at(ptr);
            let after = final(heap).at(ptr);
            &&& before.channel().state.loaded ==> {
                &&& before.channel().value matches Some(value) && result == Poll::Ready(Ok::<T, RecvError>(value))
                &&& final(join).link() is None
                &&& final(heap)@ == old(heap)@.remove(ptr.addr())
            }
            &&& before.channel().state.active ==> {
                &&& result is Pending
                &&& final(join).link() == Some(ptr)
                &&& final(heap)@.remove(ptr.addr()) == old(heap)@.remove(ptr.addr())
                &&& final(heap).has(ptr)
                &&& after.body() == before.body()
                &&& after.channel().state.active
                &&& !after.channel().state.loaded
                &&& after.channel().waker == Some(waker)
                &&& after.channel().woken == before.channel().woken
            }
            &&& !before.channel().state.active && !before.channel().state.loaded ==> {
                &&& result == Poll::Ready(Err::<T, RecvError>(RecvError::Incomplete))
                &&& final(join).link() is None
                &&& final(heap)@ == old(heap)@.remove(ptr.addr())
            }
        }),
{
}

/// Whoever asks for the result of a task waits for it as long as the task is there,
/// whether its function has been called or not. The result is given once it has
/// been produced; if the task has gone without one, that is told.
pub proof fn law_poll<T, F, W>(
    join: &mut JoinTask<T, F, W>,
    heap: &mut Heap<TaskInner<T, F, W>>,
    ptr: BoxPtr<TaskInner<T, F, W>>,
    waker: W,
    result: Poll<Result<T, RecvError>>,
)
    requires
        join.link() == Some(ptr),
        heap.has(ptr),
        heap.at(ptr).at_rest(),
        call_ensures(JoinTask::<T, F, W>::poll, (join, heap, waker), result),
    ensures
        ({
            let before = old(heap).at(ptr);
            let after = final(heap).at(ptr);
            &&& before.channel().state.loaded ==> {
                &&& before.channel().value matches Some(value) && result == Poll::Ready(Ok::<T, RecvError>(value))
                &&& final(join).link() is None
                &&& final(heap)@ == old(heap)@.remove(ptr.addr())
            }
            &&& before.channel().state.active ==> {
                &&& result is Pending
                &&& final(join).link() == Some(ptr)
                &&& final(heap)@.remove(ptr.addr()) == old(heap)@.remove(ptr.addr())
                &&& final(heap).has(ptr)
                &&& after.body() == before.body()
                &&& after.channel().state.active
                &&& !after.channel().state.loaded
                &&& after.channel().waker == Some(waker)
                &&& after.channel().woken == before.channel().woken
            }
            &&& !before.channel().state.active && !before.channel().state.loaded ==> {
                &&& result == Poll::Ready(Err::<T, RecvError>(RecvError::Incomplete))
                &&& final(join).link() is None
                &&& final(heap)@ == old(heap)@.remove(ptr.addr())
            }
        }),
{
}

/// Whoever asks for the result of a task waits for it as long as the task is there,
/// whether its function has been called or not. The result is given once it has
/// been produced; if the task has gone without one, that is told.
pub proof fn law_try_join<T, F, W>(
    join: &mut JoinTask<T, F, W>,
    heap: &mut Heap<TaskInner<T, F, W>>,
    ptr: BoxPtr<TaskInner<T, F, W>>,
    result: Poll<Result<T, RecvError>>,
)
    requires
        join.link() == Some(ptr),
        heap.has(ptr),
        heap.at(ptr).at_rest(),
        call_ensures(JoinTask::<T, F, W>::try_join, (join, heap), result),
    ensures
        ({
            let before = old(heap).at(ptr);
            let after = final(heap).at(ptr);
            &&& before.channel().state.loaded ==> {
                &&& before.channel().value matches Some(value) && result == Poll::Ready(Ok::<T, RecvError>(value))
                &&& final(join).link() is None
                &&& final(heap)@ == old(heap)@.remove(ptr.addr())
            }
            &&& before.channel().state.active ==> {
                &&& result is Pending
                &&& final(join).link() == Some(ptr)
                &&& final(heap)@.remove(ptr.addr()) == old(heap)@.remove(ptr.addr())
                &&& final(heap).has(ptr)
                &&& after.body() == before.body()
                &&& after.channel().state.active
                &&& !after.channel().state.loaded
                &&& after.channel().waker == None::<W>
                &&& after.channel().woken == before.channel().woken
            }
            &&& !before.channel().state.active && !before.channel().state.loaded ==> {
                &&& result == Poll::Ready(Err::<T, RecvError>(RecvError::Incomplete))
                &&& final(join).link() is None
                &&& final(heap)@ == old(heap)@.remove(ptr.addr())
            }
        }),
{
}

/// Whoever asks for the result of a task waits for it until the time is up, as long
/// as the task is there, and can ask again after that. The result is given once it
/// has been produced; if the task has gone without one, that is told.
pub proof fn law_join_timeout<T, F, W>(
    join: &mut JoinTask<T, F, W>,
    heap: &mut Heap<TaskInner<T, F, W>>,
    ptr: BoxPtr<TaskInner<T, F, W>>,
    turn: Turn<W>,
    result: Poll<Result<T, RecvError>>,
)
    requires
        join.link() == Some(ptr),
        heap.has(ptr),
        heap.at(ptr).at_rest(),
        call_ensures(JoinTask::<T, F, W>::join_timeout, (join, heap, turn), result),
    ensures
        ({
            let before = old(heap).at(ptr);
            let after = final(heap).at(ptr);
            &&& before.channel().state.loaded ==> {
                &&& before.channel().value matches Some(value) && result == Poll::Ready(Ok::<T, RecvError>(value))
                &&& final(join).link() is None
                &&& final(heap)@ == old(heap)@.remove(ptr.addr())
            }
            &&& before.channel().state.active ==> {
                &&& result == (match turn {
                    Turn::Wait(_) => Poll::Pending,
                    Turn::Expired => Poll::Ready(Err::<T, RecvError>(RecvError::TimedOut)),
                })
                &&& final(join).link() == Some(ptr)
                &&& final(heap)@.remove(ptr.addr()) == old(heap)@.remove(ptr.addr())
                &&& final(heap).has(ptr)
                &&& after.body() == before.body()
                &&& after.channel().state.active
                &&& !after.channel().state.loaded
                &&& after.channel().waker == (match turn {
                    Turn::Wait(waker) => Some(waker),
                    Turn::Expired => None,
                })
                &&& after.channel().woken == before.channel().woken
            }
            &&& !before.channel().state.active && !before.channel().state.loaded ==> {
                &&& result == Poll::Ready(Err::<T, RecvError>(RecvError::Incomplete))
                &&& final(join).link() is None
                &&& final(heap)@ == old(heap)@.remove(ptr.addr())
            }
        }),
{
}

/// What the function has returned is there to be joined, and whoever waits for it
/// is called. It goes with the task if nobody is left to join it.
pub proof fn law_finish<T, F, W>(
    task: TaskGuard<T, F, W>,
    heap: &mut Heap<TaskInner<T, F, W>>,
    ptr: BoxPtr<TaskInner<T, F, W>>,
    value: T,
)
    requires
        task.link() == ptr,
        task.wf(*heap),
        call_ensures(TaskGuard::<T, F, W>::finish, (task, heap, value), ()),
    ensures
        ({
            let before = old(heap).at(ptr);
            let after = final(heap).at(ptr);
            &&& before.channel().state.active ==> {
                &&& final(heap)@.remove(ptr.addr()) == old(heap)@.remove(ptr.addr())
                &&& final(heap).has(ptr)
                &&& after.body() is None
                &&& after.channel().state.loaded
                &&& !after.channel().state.active
                &&& after.channel().value == Some(value)
                &&& after.channel().waker is None
                &&& after.channel().woken == (match before.channel().waker {
                    Some(w) => before.channel().woken.push(w),
                    None => before.channel().woken,
                })
            }
            &&& !before.channel().state.active ==> final(heap)@ == old(heap)@.remove(ptr.addr())
        }),
{
}

/// A task that goes without a result calls whoever waits for it. Nothing is left
/// if nobody is there to join it.
pub proof fn law_drop_task<T, F, W>(
    task: TaskFn<T, F, W>,
    heap: &mut Heap<TaskInner<T, F, W>>,
    ptr: BoxPtr<TaskInner<T, F, W>>,
)
    requires
        task.link() == ptr,
        task.wf(*heap),
        call_ensures(TaskFn::<T, F, W>::drop, (task, heap), ()),
    ensures
        ({
            let before = old(heap).at(ptr);
            let after = final(heap).at(ptr);
            &&& before.channel().state.active ==> {
                &&& final(heap)@.remove(ptr.addr()) == old(heap)@.remove(ptr.addr())
                &&& final(heap).has(ptr)
                &&& after.body() is None
                &&& !after.channel().state.loaded
                &&& !after.channel().state.active
                &&& after.channel().waker is None
                &&& after.channel().woken == (match before.channel().waker {
                    Some(w) => before.channel().woken.push(w),
                    None => before.channel().woken,
                })
            }
            &&& !before.channel().state.active ==> final(heap)@ == old(heap)@.remove(ptr.addr())
        }),
{
}

/// A task that goes without a result calls whoever waits for it. Nothing is left
/// if nobody is there to join it.
pub proof fn law_drop_guard<T, F, W>(
    task: TaskGuard<T, F, W>,
    heap: &mut Heap<TaskInner<T, F, W>>,
    ptr: BoxPtr<TaskInner<T, F, W>>,
)
    requires
        task.link() == ptr,
        task.wf(*heap),
        call_ensures(TaskGuard::<T, F, W>::drop, (task, heap), ()),
    ensures
        ({
            let before = old(heap).at(ptr);
            let after = final(heap).at(ptr);
            &&& before.channel().state.active ==> {
                &&& final(heap)@.remove(ptr.addr()) == old(heap)@.remove(ptr.addr())
                &&& final(heap).has(ptr)
                &&& after.body() is None
                &&& !after.channel().state.loaded
                &&& !after.channel().state.active
                &&& after.channel().waker is None
                &&& after.channel().woken == (match before.channel().waker {
                    Some(w) => before.channel().woken.push(w),
                    None => before.channel().woken,
                })
            }
            &&& !before.channel().state.active ==> final(heap)@ == old(heap)@.remove(ptr.addr())
        }),
{
}

/// A task whose function has been taken out to be called is otherwise as it was.
pub proof fn law_start<T, F, W>(
    task: TaskFn<T, F, W>,
    heap: &mut Heap<TaskInner<T, F, W>>,
    ptr: BoxPtr<TaskInner<T, F, W>>,
    started: (F, TaskGuard<T, F, W>),
)
    requires
        task.link() == ptr,
        task.wf(*heap),
        call_ensures(TaskFn::<T, F, W>::start, (task, heap), started),
    ensures
        ({
            let before = old(heap).at(ptr);
            let after = final(heap).at(ptr);
            &&& before.body() == Some(started.0)
            &&& started.1.link() == ptr
            &&& final(heap)@.remove(ptr.addr()) == old(heap)@.remove(ptr.addr())
            &&& final(heap).has(ptr)
            &&& after.body() is None
            &&& after.channel() == before.channel()
        }),
{
}

/// What is joined is what the function has returned.
pub proof fn law_run<T, F: FnOnce() -> T, W>(
    task: TaskFn<T, F, W>,
    heap: &mut Heap<TaskInner<T, F, W>>,
    ptr: BoxPtr<TaskInner<T, F, W>>,
)
    requires
        task.link() == ptr,
        task.wf(*heap),
        call_ensures(TaskFn::<T, F, W>::run, (task, heap), ()),
    ensures
        ({
            let before = old(heap).at(ptr);
            let after = final(heap).at(ptr);
            &&& before.body() matches Some(f) && exists|value: T| #[trigger]
                f.ensures((), value) && (before.channel().state.active ==> {
                    &&& final(heap)@.remove(ptr.addr()) == old(heap)@.remove(ptr.addr())
                    &&& final(heap).has(ptr)
                    &&& after.channel().state.loaded
                    &&& after.channel().value == Some(value)
                    &&& after.channel().woken == (match before.channel().waker {
                    Some(w) => before.channel().woken.push(w),
                    None => before.channel().woken,
                })
                })
            &&& !before.channel().state.active ==> final(heap)@ == old(heap)@.remove(ptr.addr())
        }),
{
    let f = old(heap).at(ptr).body()->0;
    let value = choose|value: T| #[trigger]
        f.ensures((), value) && produced(*final(heap), *old(heap), ptr, value);
    assert(f.ensures((), value));
}

/// Whoever does not join the task any more leaves it to itself: its function is
/// still called, and what it returns is dropped. Nothing is left if the task is gone.
pub proof fn law_drop_join<T, F, W>(
    join: JoinTask<T, F, W>,
    heap: &mut Heap<TaskInner<T, F, W>>,
    ptr: BoxPtr<TaskInner<T, F, W>>,
)
    requires
        join.link() == Some(ptr),
        heap.has(ptr),
        heap.at(ptr).at_rest(),
        call_ensures(JoinTask::<T, F, W>::drop, (join, heap), ()),
    ensures
        ({
            let before = old(heap).at(ptr);
            let after = final(heap).at(ptr);
            &&& before.channel().state.active ==> {
                &&& final(heap)@.remove(ptr.addr()) == old(heap)@.remove(ptr.addr())
                &&& final(heap).has(ptr)
                &&& after.body() == before.body()
                &&& !after.channel().state.active
                &&& !after.channel().state.loaded
                &&& after.channel().woken == before.channel().woken
            }
            &&& !before.channel().state.active ==> final(heap)@ == old(heap)@.remove(ptr.addr())
        }),
{
}

/// The wakers that were called are handed out, each once, in the order in which they
/// were called, and the task is otherwise as it was.
pub proof fn law_take_woken<T, F, W>(
    join: &JoinTask<T, F, W>,
    heap: &mut Heap<TaskInner<T, F, W>>,
    ptr: BoxPtr<TaskInner<T, F, W>>,
    woken: Vec<W>,
)
    requires
        join.link() == Some(ptr),
        call_ensures(JoinTask::<T, F, W>::take_woken, (join, heap), woken),
    ensures
        ({
            let before = old(heap).at(ptr);
            let after = final(heap).at(ptr);
            &&& woken@ == before.channel().woken
            &&& after.channel().woken.len() == 0
            &&& after.channel().state == before.channel().state
            &&& after.channel().value == before.channel().value
            &&& after.channel().waker == before.channel().waker
            &&& after.body() == before.body()
            &&& final(heap).has(ptr)
            &&& final(heap)@.remove(ptr.addr()) == old(heap)@.remove(ptr.addr())
        }),
{
}

/// A result that has been given is not given again.
pub proof fn law_join_terminated<T, F, W>(
    join: &mut JoinTask<T, F, W>,
    heap: &mut Heap<TaskInner<T, F, W>>,
    waker: W,
    turn: Turn<W>,
    result: Poll<Result<T, RecvError>>,
)
    requires
        join.link() is None,
        call_ensures(JoinTask::<T, F, W>::join, (join, heap, waker), result) || call_ensures(
            JoinTask::<T, F, W>::poll,
            (join, heap, waker),
            result,
        ) || call_ensures(JoinTask::<T, F, W>::try_join, (join, heap), result) || call_ensures(
            JoinTask::<T, F, W>::join_timeout,
            (join, heap, turn),
            result,
        ),
    ensures
        result == Poll::Ready(Err::<T, RecvError>(RecvError::Terminated)),
        final(join).link() is None,
        final(heap)@ == old(heap)@,
{
}

/// A new task is one that was not there before. It has its function still to call, no
/// result, and one that can join it.
pub proof fn law_task_fn<T, F, W>(
    heap: &mut Heap<TaskInner<T, F, W>>,
    f: F,
    pair: (TaskFn<T, F, W>, JoinTask<T, F, W>),
)
    requires
        call_ensures(task_fn::<T, F, W>, (heap, f), pair),
    ensures
        ({
            let ptr = pair.0.link();
            &&& pair.1.link() == Some(ptr)
            &&& !old(heap).has(ptr)
            &&& final(heap).has(ptr)
            &&& final(heap)@.remove(ptr.addr()) == old(heap)@
            &&& final(heap).at(ptr).body() == Some(f)
            &&& final(heap).at(ptr).channel().state.active
            &&& !final(heap).at(ptr).channel().state.loaded
            &&& final(heap).at(ptr).channel().waker is None
            &&& final(heap).at(ptr).channel().woken.len() == 0
        }),
{
}

/// Whoever joins a task while its function runs waits, is called when the function
/// has returned, and then gets what it has returned.
pub proof fn law_join_while_running<T, F, W>(
    made: &mut Heap<TaskInner<T, F, W>>,
    begun: &mut Heap<TaskInner<T, F, W>>,
    asked: &mut Heap<TaskInner<T, F, W>>,
    done: &mut Heap<TaskInner<T, F, W>>,
    joined: &mut Heap<TaskInner<T, F, W>>,
    f: F,
    pair: (TaskFn<T, F, W>, JoinTask<T, F, W>),
    started: (F, TaskGuard<T, F, W>),
    joins: (&mut JoinTask<T, F, W>, &mut JoinTask<T, F, W>),
    value: T,
    wakers: (W, W),
    results: (Poll<Result<T, RecvError>>, Poll<Result<T, RecvError>>),
)
    requires
        call_ensures(task_fn::<T, F, W>, (made, f), pair),
        *final(made) == *begun,
        call_ensures(TaskFn::<T, F, W>::start, (pair.0, begun), started),
        *final(begun) == *asked,
        *joins.0 == pair.1,
        call_ensures(JoinTask::<T, F, W>::join, (joins.0, asked, wakers.0), results.0),
        *final(asked) == *done,
        call_ensures(TaskGuard::<T, F, W>::finish, (started.1, done, value), ()),
        *final(done) == *joined,
        *final(joins.0) == *joins.1,
        call_ensures(JoinTask::<T, F, W>::join, (joins.1, joined, wakers.1), results.1),
    ensures
        started.0 == f,
        results.0 is Pending,
        final(done).at(pair.0.link()).channel().woken == seq![wakers.0],
        results.1 == Poll::Ready(Ok::<T, RecvError>(value)),
        !final(joined).has(pair.0.link()),
{
    assert(final(done).at(pair.0.link()).channel().woken =~= seq![wakers.0]);
}

} // verus!
