//! A pool that stops at the first panic, and hands it to whoever uses the pool next.

use vstd::prelude::*;

use crate::channel::handles::{send_once, ReceiveOnce, SendOnce};
use crate::channel::memory::Channel;
use crate::exec::config::ThreadPoolConfig;
use crate::exec::state::{PoolView, ThreadPoolState, Work};
use crate::poll::Poll;
use crate::util::Heap;

verus! {

/// A pool of threads. `R` is what the threads run, `P` is what a thread panics with.
#[derive(Debug)]
pub struct ThreadPool<R, P> {
    state: ThreadPoolState<R>,
    panic: Option<P>,
}

/// What a thread that closes the pool is to do next.
#[derive(Debug, PartialEq, Eq)]
pub enum Closing<P> {
    /// Panic.
    Panic(P),
    /// Return, for all threads have ended.
    Done,
    /// Wait for a thread to end.
    Wait,
}

impl<R, P> View for ThreadPool<R, P> {
    type V = PoolView<R>;

    closed spec fn view(&self) -> PoolView<R> {
        self.state@
    }
}

impl<R, P> ThreadPool<R, P> {
    /// What a thread has panicked with, until it is handed out.
    pub closed spec fn panic(&self) -> Option<P> {
        self.panic
    }

    /// A pool, and the names of the threads that it starts with.
    pub fn new(config: ThreadPoolConfig) -> (pool: (Self, Vec<String>))
        ensures
            pool.0@.wf(),
            pool.0.panic() is None,
            pool.0@ == (PoolView::<R> {
                first: 1,
                counter: config@.min_count as nat,
                queue: Seq::empty(),
                idle: config@.min_count as nat,
                threads: config@.min_count as nat,
                idle_timeout: config@.idle_timeout,
                min: config@.min_count as nat,
                max: config@.max_count,
                name: match config@.thread_name {
                    Some(name) => name,
                    None => "threadpool"@,
                },
                shutdown: false,
            }),
            pool.1@.len() == config@.min_count,
            forall|i: int|
                0 <= i < pool.1@.len() ==> #[trigger] pool.1@[i]@ == crate::exec::name::name_of(
                    pool.0@.name,
                    (1 + i) as nat,
                ),
    {
        let mut state = ThreadPoolState::new(config, 1);
        let names = state.pre_start();
        (ThreadPool { state, panic: None }, names)
    }

    /// Tell whether another thread can be numbered.
    pub fn has_number(&self) -> (yes: bool)
        ensures
            yes == (self@.counter < usize::MAX),
    {
        self.state.has_number()
    }

    /// Queue something to be run. A thread of the given name is to be started
    /// if there is one, otherwise a thread that waits is to be woken. If a
    /// thread has panicked, nothing is queued, and the caller is to panic.
    pub fn run(&mut self, task: R) -> (result: Result<Option<String>, P>)
        requires
            old(self)@.wf(),
            old(self)@.counter < usize::MAX,
        ensures
            final(self)@.wf(),
            final(self).panic() is None,
            match old(self).panic() {
                Some(panic) => {
                    &&& result == Err::<Option<String>, P>(panic)
                    &&& final(self)@ == old(self)@
                },
                None => {
                    &&& result matches Ok(spawn) && crate::exec::state::text(spawn) == old(
                        self,
                    )@.pushed(task).spawn()
                    &&& final(self)@ == old(self)@.pushed(task).settled()
                    &&& final(self)@.threads > 0
                },
            },
    {
        match self.panic.take() {
            Some(panic) => Err(panic),
            None => Ok(self.state.run_boxed(task)),
        }
    }

    /// Queue something that sends its result, and receive the result. What is
    /// to be run is made of the sender by `f`. If a thread has panicked,
    /// nothing is queued, and the caller is to panic.
    pub fn unblock<T, W, F: FnOnce(SendOnce<T, W>) -> R>(
        &mut self,
        heap: &mut Heap<Channel<T, W>>,
        f: F,
    ) -> (result: Result<(ReceiveOnce<T, W>, Option<String>), P>)
        requires
            old(self)@.wf(),
            old(self)@.counter < usize::MAX,
            old(heap).issued() < usize::MAX,
            forall|sender: SendOnce<T, W>| #[trigger] f.requires((sender,)),
        ensures
            final(self)@.wf(),
            final(self).panic() is None,
            match old(self).panic() {
                Some(panic) => {
                    &&& result == Err::<(ReceiveOnce<T, W>, Option<String>), P>(panic)
                    &&& final(self)@ == old(self)@
                    &&& final(heap).same(old(heap))
                },
                None => {
                    &&& result matches Ok((receiver, spawn))
                    &&& receiver.link() matches Some(ptr)
                    &&& !old(heap).has(ptr)
                    &&& crate::channel::handles::usable(*final(heap), ptr)
                    &&& final(heap).at(ptr)@ == crate::channel::handles::fresh::<T, W>()
                    &&& final(heap)@.remove(ptr.addr()) == old(heap)@
                    &&& final(heap).issued() == old(heap).issued() + 1
                    &&& exists|sender: SendOnce<T, W>, task: R|
                        {
                            &&& sender.link() == ptr
                            &&& #[trigger] f.ensures((sender,), task)
                            &&& final(self)@ == old(self)@.pushed(task).settled()
                            &&& crate::exec::state::text(spawn) == old(self)@.pushed(task).spawn()
                        }
                },
            },
    {
        match self.panic.take() {
            Some(panic) => Err(panic),
            None => {
                let (sender, receiver) = send_once(heap);
                let spawn = self.state.run_boxed(f(sender));
                Ok((receiver, spawn))
            },
        }
    }

    /// Tell whether everything that has been queued has been run.
    pub fn drain(&self) -> (result: Poll<()>)
        ensures
            (result is Ready) == self@.drained(),
    {
        if self.state.is_drained() {
            Poll::Ready(())
        } else {
            Poll::Pending
        }
    }

    /// What an idle thread is to do next.
    pub fn next_work(&mut self) -> (work: Work<R>)
        requires
            old(self)@.wf(),
            old(self)@.idle > 0,
            old(self)@.counter < usize::MAX,
        ensures
            final(self)@.wf(),
            final(self).panic() == old(self).panic(),
            match work {
                Work::Exit => {
                    &&& old(self)@.shutdown
                    &&& final(self)@ == old(self)@.without_thread()
                },
                Work::Run { task, spawn } => {
                    &&& !old(self)@.shutdown
                    &&& old(self)@.queue.len() > 0
                    &&& task == old(self)@.queue[0]
                    &&& final(self)@ == old(self)@.taken().settled()
                    &&& crate::exec::state::text(spawn) == old(self)@.taken().spawn()
                },
                Work::Wait { timeout } => {
                    &&& !old(self)@.shutdown
                    &&& old(self)@.queue.len() == 0
                    &&& timeout == old(self)@.idle_timeout
                    &&& final(self)@ == old(self)@
                },
            },
    {
        self.state.next_work()
    }

    /// A thread has run something. A thread that has panicked ends. The first
    /// panic is kept, and ends the pool.
    pub fn finished(&mut self, outcome: Result<(), P>)
        requires
            old(self)@.wf(),
            old(self)@.idle < old(self)@.threads,
        ensures
            final(self)@.wf(),
            match outcome {
                Ok(()) => {
                    &&& final(self).panic() == old(self).panic()
                    &&& final(self)@ == old(self)@.rested()
                },
                Err(panic) => if old(self).panic() is None {
                    &&& final(self).panic() == Some(panic)
                    &&& final(self)@ == (PoolView {
                        shutdown: true,
                        ..old(self)@.rested().without_thread()
                    })
                } else {
                    &&& final(self).panic() == old(self).panic()
                    &&& final(self)@ == old(self)@.rested().without_thread()
                },
            },
    {
        match outcome {
            Ok(()) => self.state.finished(false),
            Err(panic) => {
                if self.panic.is_none() {
                    self.panic = Some(panic);
                    self.state.shut_down();
                }
                self.state.finished(true);
            },
        }
    }

    /// An idle thread has waited. True if it ends.
    pub fn waited(&mut self, timed_out: bool) -> (ends: bool)
        requires
            old(self)@.wf(),
            old(self)@.idle > 0,
        ensures
            final(self)@.wf(),
            final(self).panic() == old(self).panic(),
            ends == (timed_out && old(self)@.threads > old(self)@.min),
            final(self)@ == (if ends {
                old(self)@.without_thread()
            } else {
                old(self)@
            }),
    {
        self.state.waited(timed_out)
    }

    /// Close the pool: the threads are told to end, and what is queued is not
    /// run. To be called again whenever a thread has ended, until it is done.
    pub fn shutdown(&mut self) -> (closing: Closing<P>)
        requires
            old(self)@.wf(),
        ensures
            final(self)@.wf(),
            final(self).panic() is None,
            final(self)@ == (PoolView { shutdown: true, ..old(self)@ }),
            match old(self).panic() {
                Some(panic) => closing == Closing::Panic(panic),
                None => closing == (if old(self)@.threads == 0 {
                    Closing::<P>::Done
                } else {
                    Closing::Wait
                }),
            },
    {
        self.state.shut_down();
        match self.panic.take() {
            Some(panic) => Closing::Panic(panic),
            None => {
                if self.state.thread_count() == 0 {
                    Closing::Done
                } else {
                    Closing::Wait
                }
            },
        }
    }
}

impl ThreadPoolConfig {
    /// A pool of this configuration, and the names of the threads that it starts with.
    pub fn build<R, P>(self) -> (pool: (ThreadPool<R, P>, Vec<String>))
        ensures
            pool.0@.wf(),
            pool.0.panic() is None,
            pool.0@ == (PoolView::<R> {
                first: 1,
                counter: self@.min_count as nat,
                queue: Seq::empty(),
                idle: self@.min_count as nat,
                threads: self@.min_count as nat,
                idle_timeout: self@.idle_timeout,
                min: self@.min_count as nat,
                max: self@.max_count,
                name: match self@.thread_name {
                    Some(name) => name,
                    None => "threadpool"@,
                },
                shutdown: false,
            }),
            pool.1@.len() == self@.min_count,
            forall|i: int|
                0 <= i < pool.1@.len() ==> #[trigger] pool.1@[i]@ == crate::exec::name::name_of(
                    pool.0@.name,
                    (1 + i) as nat,
                ),
    {
        ThreadPool::new(self)
    }
}

} // verus!
