//! A pool that goes on when a thread panics.

use vstd::prelude::*;

use crate::channel::memory::Channel;
use crate::exec::config::ThreadPoolConfig;
use crate::exec::join::{JoinTask, Runnable};
use crate::exec::state::{PoolView, ThreadPoolState, Work};
use crate::poll::Turn;
use crate::types::Duration;
use crate::util::Heap;

verus! {

/// A pool of threads. `R` is what the threads run; whether it has panicked is
/// told by what it returns.
#[derive(Debug)]
pub struct ThreadPool<R> {
    state: ThreadPoolState<R>,
    panic_count: usize,
}

/// What a thread that drops the pool is to do next.
#[derive(Copy, Clone, Debug, PartialEq, Eq, Structural)]
pub enum Dropping {
    /// Return, for all threads have ended.
    Done,
    /// Wait for a thread to end.
    Wait,
    /// Panic, for some threads have not ended in time. How many is given.
    TimedOut(usize),
}

impl<R> View for ThreadPool<R> {
    type V = PoolView<R>;

    closed spec fn view(&self) -> PoolView<R> {
        self.state@
    }
}

impl<R> ThreadPool<R> {
    /// How many threads have panicked.
    pub closed spec fn panics(&self) -> nat {
        self.panic_count as nat
    }

    /// Every thread that there is, and every thread that has panicked, has been started.
    pub open spec fn wf(&self) -> bool {
        self@.wf() && self.panics() + self@.threads <= self@.counter
    }

    /// A pool, and the names of the threads that it starts with.
    pub fn new(config: ThreadPoolConfig) -> (pool: (Self, Vec<String>))
        ensures
            pool.0.wf(),
            pool.0.panics() == 0,
            pool.0@ == (PoolView::<R> {
                first: 0,
                counter: config@.min_count as nat,
                queue: Seq::empty(),
                idle: config@.min_count as nat,
                threads: config@.min_count as nat,
                idle_timeout: config@.idle_timeout,
                min: config@.min_count as nat,
                max: config@.max_count,
                name: match config@.thread_name {
                    Some(name) => name,
                    None => "threadpool"@,
                },
                shutdown: false,
            }),
            pool.1@.len() == config@.min_count,
            forall|i: int|
                0 <= i < pool.1@.len() ==> #[trigger] pool.1@[i]@ == crate::exec::name::name_of(
                    pool.0@.name,
                    i as nat,
                ),
    {
        let mut state = ThreadPoolState::new(config, 0);
        let names = state.pre_start();
        (ThreadPool { state, panic_count: 0 }, names)
    }

    /// Tell whether another thread can be numbered.
    pub fn has_number(&self) -> (yes: bool)
        ensures
            yes == (self@.counter < usize::MAX),
    {
        self.state.has_number()
    }

    /// Queue something to be run. A thread of the given name is to be started
    /// if there is one, otherwise a thread that waits is to be woken.
    pub fn run_boxed(&mut self, task: R) -> (spawn: Option<String>)
        requires
            old(self).wf(),
            old(self)@.counter < usize::MAX,
        ensures
            final(self).wf(),
            final(self).panics() == old(self).panics(),
            final(self)@ == old(self)@.pushed(task).settled(),
            crate::exec::state::text(spawn) == old(self)@.pushed(task).spawn(),
            final(self)@.threads > 0,
    {
        self.state.run_boxed(task)
    }

    /// Queue something that sends its result, and join it. What is to be run
    /// is made by `f` of what it is to finish with.
    pub fn run<T, P, W, F: FnOnce(Runnable<T, P, W>) -> R>(
        &mut self,
        heap: &mut Heap<Channel<Result<T, P>, W>>,
        f: F,
    ) -> (result: (JoinTask<T, P, W>, Option<String>))
        requires
            old(self).wf(),
            old(self)@.counter < usize::MAX,
            old(heap).issued() < usize::MAX,
            forall|run: Runnable<T, P, W>| #[trigger] f.requires((run,)),
        ensures
            final(self).wf(),
            final(self).panics() == old(self).panics(),
            final(self)@.threads > 0,
            result.0.receiver().link() matches Some(ptr) && {
                &&& !old(heap).has(ptr)
                &&& crate::channel::handles::usable(*final(heap), ptr)
                &&& final(heap).at(ptr)@ == crate::channel::handles::fresh::<Result<T, P>, W>()
                &&& final(heap)@.remove(ptr.addr()) == old(heap)@
                &&& final(heap).issued() == old(heap).issued() + 1
                &&& exists|run: Runnable<T, P, W>, task: R|
                    {
                        &&& run.sender().link() == ptr
                        &&& #[trigger] f.ensures((run,), task)
                        &&& final(self)@ == old(self)@.pushed(task).settled()
                        &&& crate::exec::state::text(result.1) == old(self)@.pushed(task).spawn()
                    }
            },
    {
        let (run, join) = JoinTask::new_pair(heap);
        let spawn = self.run_boxed(f(run));
        (join, spawn)
    }

    /// What an idle thread is to do next.
    pub fn next_work(&mut self) -> (work: Work<R>)
        requires
            old(self).wf(),
            old(self)@.idle > 0,
            old(self)@.counter < usize::MAX,
        ensures
            final(self).wf(),
            final(self).panics() == old(self).panics(),
            match work {
                Work::Exit => {
                    &&& old(self)@.shutdown
                    &&& final(self)@ == old(self)@.without_thread()
                },
                Work::Run { task, spawn } => {
                    &&& !old(self)@.shutdown
                    &&& old(self)@.queue.len() > 0
                    &&& task == old(self)@.queue[0]
                    &&& final(self)@ == old(self)@.taken().settled()
                    &&& crate::exec::state::text(spawn) == old(self)@.taken().spawn()
                },
                Work::Wait { timeout } => {
                    &&& !old(self)@.shutdown
                    &&& old(self)@.queue.len() == 0
                    &&& timeout == old(self)@.idle_timeout
                    &&& final(self)@ == old(self)@
                },
            },
    {
        self.state.next_work()
    }

    /// A thread has run something. It ends if that has panicked.
    pub fn finished(&mut self, panicked: bool)
        requires
            old(self).wf(),
            old(self)@.idle < old(self)@.threads,
        ensures
            final(self).wf(),
            final(self).panics() == old(self).panics() + (if panicked {
                1int
            } else {
                0
            }),
            final(self)@ == (if panicked {
                old(self)@.rested().without_thread()
            } else {
                old(self)@.rested()
            }),
    {
        proof {
            self.state.lemma_counter();
        }
        self.state.finished(panicked);
        if panicked {
            self.panic_count = self.panic_count + 1;
        }
    }

    /// An idle thread has waited. True if it ends.
    pub fn waited(&mut self, timed_out: bool) -> (ends: bool)
        requires
            old(self).wf(),
            old(self)@.idle > 0,
        ensures
            final(self).wf(),
            final(self).panics() == old(self).panics(),
            ends == (timed_out && old(self)@.threads > old(self)@.min),
            final(self)@ == (if ends {
                old(self)@.without_thread()
            } else {
                old(self)@
            }),
    {
        self.state.waited(timed_out)
    }

    /// How long a thread that drops the pool waits for the others to end.
    pub fn drop_timeout() -> (limit: Duration)
        ensures
            limit@ == 1_000_000_000,
    {
        Duration::from_secs(1)
    }

    /// One turn of dropping the pool: the threads are told to end, and what
    /// is queued is not run.
    pub fn drop<W>(&mut self, turn: Turn<W>) -> (dropping: Dropping)
        requires
            old(self).wf(),
        ensures
            final(self).wf(),
            final(self).panics() == old(self).panics(),
            final(self)@ == (PoolView { shutdown: true, ..old(self)@ }),
            match dropping {
                Dropping::Done => old(self)@.threads == 0,
                Dropping::Wait => old(self)@.threads > 0 && turn is Wait,
                Dropping::TimedOut(count) => old(self)@.threads > 0 && turn is Expired && count
                    == old(self)@.threads,
            },
    {
        self.state.shut_down();
        let count: usize = self.state.thread_count();
        if count == 0 {
            return Dropping::Done;
        }
        match turn {
            Turn::Wait(_) => Dropping::Wait,
            Turn::Expired => Dropping::TimedOut(count),
        }
    }
}

} // verus!
