//! What the threads of a pool share.

use std::collections::VecDeque;

use vstd::prelude::*;

use crate::exec::config::ThreadPoolConfig;
use crate::exec::name::thread_name;
use crate::types::Duration;

verus! {

/// The shared state of a pool. `R` is what the threads run.
#[derive(Debug)]
pub struct ThreadPoolState<R> {
    first: usize,
    counter: usize,
    queue: VecDeque<R>,
    idle_count: usize,
    idle_timeout: Option<Duration>,
    thread_min_count: usize,
    thread_max_count: Option<usize>,
    thread_count: usize,
    thread_name: Option<String>,
    shutdown: bool,
}

/// What is known of the shared state.
#[verifier::ext_equal]
pub struct PoolView<R> {
    /// The number of the first thread, which is zero or one.
    pub first: nat,
    /// How many threads have been started so far.
    pub counter: nat,
    /// What is to be run, the oldest first.
    pub queue: Seq<R>,
    /// How many threads have nothing to run.
    pub idle: nat,
    /// How many threads there are.
    pub threads: nat,
    /// How long a thread waits for something to run.
    pub idle_timeout: Option<Duration>,
    /// How many threads are kept even if they have nothing to run.
    pub min: nat,
    /// How many threads there may be.
    pub max: Option<usize>,
    /// What the names of the threads begin with.
    pub name: Seq<char>,
    /// The threads are to end.
    pub shutdown: bool,
}

impl<R> PoolView<R> {
    /// There are no more idle threads than threads, and every thread has been started.
    pub open spec fn wf(self) -> bool {
        self.idle <= self.threads <= self.counter && self.first <= 1
    }

    /// There is nothing to run, and every thread is idle.
    pub open spec fn drained(self) -> bool {
        self.queue.len() == 0 && self.idle == self.threads
    }

    /// A thread is to be started: none is idle, or they are few for what is
    /// to be run, and another one is allowed. If there is no thread at all,
    /// one is always allowed.
    pub open spec fn wants_thread(self) -> bool {
        &&& self.idle == 0 || self.idle * 5 < self.queue.len()
        &&& self.threads == 0 || (self.max matches Some(max) ==> max > self.threads)
    }

    /// One thread more, which is idle.
    pub open spec fn with_thread(self) -> PoolView<R> {
        PoolView {
            counter: self.counter + 1,
            idle: self.idle + 1,
            threads: self.threads + 1,
            ..self
        }
    }

    /// The name that the next thread is given.
    pub open spec fn next_name(self) -> Seq<char> {
        crate::exec::name::name_of(self.name, self.first + self.counter)
    }

    /// A thread has been started if one was wanted.
    pub open spec fn settled(self) -> PoolView<R> {
        if self.wants_thread() {
            self.with_thread()
        } else {
            self
        }
    }

    /// The name of the thread to be started, if one is wanted.
    pub open spec fn spawn(self) -> Option<Seq<char>> {
        if self.wants_thread() {
            Some(self.next_name())
        } else {
            None
        }
    }

    /// One thing more to run.
    pub open spec fn pushed(self, task: R) -> PoolView<R> {
        PoolView { queue: self.queue.push(task), ..self }
    }

    /// An idle thread has taken the oldest thing to run.
    pub open spec fn taken(self) -> PoolView<R> {
        PoolView { queue: self.queue.skip(1), idle: (self.idle - 1) as nat, ..self }
    }

    /// A thread is idle again.
    pub open spec fn rested(self) -> PoolView<R> {
        PoolView { idle: self.idle + 1, ..self }
    }

    /// An idle thread has ended.
    pub open spec fn without_thread(self) -> PoolView<R> {
        PoolView { idle: (self.idle - 1) as nat, threads: (self.threads - 1) as nat, ..self }
    }
}

/// What an idle thread is to do next.
#[derive(Debug)]
pub enum Work<R> {
    /// End.
    Exit,
    /// Run something, after starting a thread of the given name if there is one.
    Run { task: R, spawn: Option<String> },
    /// Wait for something to run, for as long as given.
    Wait { timeout: Option<Duration> },
}

/// The name, as text.
pub open spec fn text(name: Option<String>) -> Option<Seq<char>> {
    match name {
        Some(name) => Some(name@),
        None => None,
    }
}

impl<R> View for ThreadPoolState<R> {
    type V = PoolView<R>;

    closed spec fn view(&self) -> PoolView<R> {
        PoolView {
            first: self.first as nat,
            counter: self.counter as nat,
            queue: self.queue@,
            idle: self.idle_count as nat,
            threads: self.thread_count as nat,
            idle_timeout: self.idle_timeout,
            min: self.thread_min_count as nat,
            max: self.thread_max_count,
            name: match self.thread_name {
                Some(name) => name@,
                None => "threadpool"@,
            },
            shutdown: self.shutdown,
        }
    }
}

impl<R> ThreadPoolState<R> {
    /// The state of a pool without threads. The numbers of the threads begin with `first`.
    pub fn new(config: ThreadPoolConfig, first: usize) -> (state: Self)
        requires
            first <= 1,
        ensures
            state@.wf(),
            state@ == (PoolView::<R> {
                first: first as nat,
                counter: 0,
                queue: Seq::empty(),
                idle: 0,
                threads: 0,
                idle_timeout: config@.idle_timeout,
                min: config@.min_count as nat,
                max: config@.max_count,
                name: match config@.thread_name {
                    Some(name) => name,
                    None => "threadpool"@,
                },
                shutdown: false,
            }),
    {
        let (idle_timeout, thread_min_count, thread_max_count, thread_name) = config.into_parts();
        ThreadPoolState {
            first,
            counter: 0,
            queue: VecDeque::new(),
            idle_count: 0,
            idle_timeout,
            thread_min_count,
            thread_max_count,
            thread_count: 0,
            thread_name,
            shutdown: false,
        }
    }

    /// Account for another thread, and name it.
    pub fn build_thread(&mut self) -> (name: String)
        requires
            old(self)@.wf(),
            old(self)@.counter < usize::MAX,
        ensures
            final(self)@.wf(),
            final(self)@ == old(self)@.with_thread(),
            name@ == old(self)@.next_name(),
    {
        let number: usize = self.first + self.counter;
        let name = match &self.thread_name {
            Some(base) => thread_name(base.as_str(), number),
            None => thread_name("threadpool", number),
        };
        self.counter = self.counter + 1;
        self.idle_count = self.idle_count + 1;
        self.thread_count = self.thread_count + 1;
        name
    }

    /// Account for the threads that a pool starts with, and name them.
    pub fn pre_start(&mut self) -> (names: Vec<String>)
        requires
            old(self)@.wf(),
            old(self)@.counter + old(self)@.min <= usize::MAX,
        ensures
            final(self)@.wf(),
            final(self)@ == (PoolView {
                counter: old(self)@.counter + old(self)@.min,
                idle: old(self)@.idle + old(self)@.min,
                threads: old(self)@.threads + old(self)@.min,
                ..old(self)@
            }),
            names@.len() == old(self)@.min,
            forall|i: int|
                0 <= i < names@.len() ==> #[trigger] names@[i]@ == crate::exec::name::name_of(
                    old(self)@.name,
                    (old(self)@.first + old(self)@.counter + i) as nat,
                ),
    {
        let mut names: Vec<String> = Vec::new();
        let count: usize = self.thread_min_count;
        while names.len() < count
            invariant
                count == old(self)@.min,
                old(self)@.counter + old(self)@.min <= usize::MAX,
                names@.len() <= count,
                self@.wf(),
                self@ == (PoolView {
                    counter: old(self)@.counter + names@.len(),
                    idle: old(self)@.idle + names@.len(),
                    threads: old(self)@.threads + names@.len(),
                    ..old(self)@
                }),
                forall|i: int|
                    0 <= i < names@.len() ==> #[trigger] names@[i]@ == crate::exec::name::name_of(
                        old(self)@.name,
                        (old(self)@.first + old(self)@.counter + i) as nat,
                    ),
            decreases count - names@.len(),
        {
            let name = self.build_thread();
            names.push(name);
        }
        names
    }

    /// Account for another thread, and name it, if one is wanted.
    pub fn maybe_spawn(&mut self) -> (spawn: Option<String>)
        requires
            old(self)@.wf(),
            old(self)@.counter < usize::MAX,
        ensures
            final(self)@.wf(),
            final(self)@ == old(self)@.settled(),
            text(spawn) == old(self)@.spawn(),
    {
        let idle: usize = self.idle_count;
        let length: usize = self.queue.len();
        if idle == 0 || (length > 0 && idle <= (length - 1) / 5) {
            let allowed: bool = match self.thread_max_count {
                Some(max) => max > self.thread_count,
                None => true,
            };
            if allowed || self.thread_count == 0 {
                return Some(self.build_thread());
            }
        }
        None
    }

    /// Queue something to be run. A thread is to be started if one is wanted,
    /// otherwise one that waits is to be woken.
    pub fn run_boxed(&mut self, task: R) -> (spawn: Option<String>)
        requires
            old(self)@.wf(),
            old(self)@.counter < usize::MAX,
        ensures
            final(self)@.wf(),
            final(self)@ == old(self)@.pushed(task).settled(),
            text(spawn) == old(self)@.pushed(task).spawn(),
            final(self)@.threads > 0,
    {
        self.queue.push_back(task);
        self.maybe_spawn()
    }

    /// What an idle thread is to do next.
    pub fn next_work(&mut self) -> (work: Work<R>)
        requires
            old(self)@.wf(),
            old(self)@.idle > 0,
            old(self)@.counter < usize::MAX,
        ensures
            final(self)@.wf(),
            match work {
                Work::Exit => {
                    &&& old(self)@.shutdown
                    &&& final(self)@ == old(self)@.without_thread()
                },
                Work::Run { task, spawn } => {
                    &&& !old(self)@.shutdown
                    &&& old(self)@.queue.len() > 0
                    &&& task == old(self)@.queue[0]
                    &&& final(self)@ == old(self)@.taken().settled()
                    &&& text(spawn) == old(self)@.taken().spawn()
                },
                Work::Wait { timeout } => {
                    &&& !old(self)@.shutdown
                    &&& old(self)@.queue.len() == 0
                    &&& timeout == old(self)@.idle_timeout
                    &&& final(self)@ == old(self)@
                },
            },
    {
        if self.shutdown {
            self.leave();
            return Work::Exit;
        }
        match self.queue.pop_front() {
            Some(task) => {
                self.idle_count = self.idle_count - 1;
                assert(self@.queue =~= old(self)@.queue.skip(1));
                let spawn = self.maybe_spawn();
                Work::Run { task, spawn }
            },
            None => Work::Wait { timeout: self.idle_timeout },
        }
    }

    /// A thread has run something. It ends if that has failed, and goes on otherwise.
    pub fn finished(&mut self, failed: bool)
        requires
            old(self)@.wf(),
            old(self)@.idle < old(self)@.threads,
        ensures
            final(self)@.wf(),
            final(self)@ == (if failed {
                old(self)@.rested().without_thread()
            } else {
                old(self)@.rested()
            }),
    {
        self.idle_count = self.idle_count + 1;
        if failed {
            self.leave();
        }
    }

    /// An idle thread has waited. It ends if the time is up and there are
    /// more threads than are kept. True if it ends.
    pub fn waited(&mut self, timed_out: bool) -> (ends: bool)
        requires
            old(self)@.wf(),
            old(self)@.idle > 0,
        ensures
            final(self)@.wf(),
            ends == (timed_out && old(self)@.threads > old(self)@.min),
            final(self)@ == (if ends {
                old(self)@.without_thread()
            } else {
                old(self)@
            }),
    {
        if timed_out && self.thread_count > self.thread_min_count {
            self.leave();
            true
        } else {
            false
        }
    }

    /// An idle thread ends.
    fn leave(&mut self)
        requires
            old(self)@.wf(),
            old(self)@.idle > 0,
        ensures
            final(self)@.wf(),
            final(self)@ == old(self)@.without_thread(),
    {
        self.idle_count = self.idle_count - 1;
        self.thread_count = self.thread_count - 1;
    }

    /// Tell the threads to end.
    pub fn shut_down(&mut self)
        requires
            old(self)@.wf(),
        ensures
            final(self)@.wf(),
            final(self)@ == (PoolView { shutdown: true, ..old(self)@ }),
    {
        self.shutdown = true;
    }

    /// Tell whether there is nothing to run, and nothing runs.
    pub fn is_drained(&self) -> (yes: bool)
        ensures
            yes == self@.drained(),
    {
        self.queue.len() == 0 && self.idle_count == self.thread_count
    }

    /// The number of threads that have been started can be represented.
    pub proof fn lemma_counter(&self)
        ensures
            self@.counter <= usize::MAX,
    {
    }

    /// Tell whether another thread can be numbered.
    pub fn has_number(&self) -> (yes: bool)
        ensures
            yes == (self@.counter < usize::MAX),
    {
        self.counter < usize::MAX
    }

    /// The number of threads.
    pub fn thread_count(&self) -> (count: usize)
        ensures
            count == self@.threads,
    {
        self.thread_count
    }
}

} // verus!
