//! What holds of a pool whatever its threads and its users do.

use vstd::prelude::*;

use crate::channel::handles::{ReceiveOnce, SendOnce};
use crate::channel::memory::Channel;
use crate::exec::config::ThreadPoolConfig;
use crate::exec::join::{JoinTask, Runnable};
use crate::exec::pool;
use crate::exec::state::{PoolView, ThreadPoolState, Work};
use crate::exec::threadpool;
use crate::poll::{Poll, Turn};
use crate::util::Heap;

verus! {

/// A pool with its threads.
pub struct System<R> {
    /// The shared state.
    pub view: PoolView<R>,
    /// How many threads run something.
    pub running: nat,
    /// What has been queued so far.
    pub submitted: Seq<R>,
    /// What the threads have taken so far.
    pub started: Seq<R>,
    /// The names that have been given so far.
    pub names: Seq<Seq<char>>,
    /// A thread has ended because what it ran failed, or the pool was closed.
    pub shrunk: bool,
}

/// Something that happens to a pool.
pub enum Move<R> {
    /// Something is queued.
    Submit { task: R },
    /// An idle thread looks for something to do.
    Next,
    /// A thread has run something. If that has failed, the pool may be closed.
    Finish { failed: bool, close: bool },
    /// An idle thread has waited.
    Waited { timed_out: bool },
    /// The pool is closed.
    Close,
}

impl<R> System<R> {
    /// A pool that has just been made.
    pub open spec fn init(self) -> bool {
        &&& self.view.wf()
        &&& self.view.queue == Seq::<R>::empty()
        &&& self.view.idle == self.view.min
        &&& self.view.threads == self.view.min
        &&& self.view.counter == self.view.min
        &&& !self.view.shutdown
        &&& self.running == 0
        &&& self.submitted == Seq::<R>::empty()
        &&& self.started == Seq::<R>::empty()
        &&& self.names == Seq::new(
            self.view.min,
            |i: int| crate::exec::name::name_of(self.view.name, (self.view.first + i) as nat),
        )
        &&& !self.shrunk
    }

    /// The move can be made.
    pub open spec fn enabled(self, m: Move<R>) -> bool {
        match m {
            Move::Next => self.view.idle > 0,
            Move::Finish { failed, close } => self.running > 0 && (close ==> failed),
            Move::Waited { .. } => self.view.idle > 0,
            _ => true,
        }
    }

    /// A thread has been started if one was wanted.
    pub open spec fn settled(self) -> System<R> {
        System {
            view: self.view.settled(),
            names: match self.view.spawn() {
                Some(name) => self.names.push(name),
                None => self.names,
            },
            ..self
        }
    }

    /// The pool after a move.
    pub open spec fn after(self, m: Move<R>) -> System<R> {
        match m {
            Move::Submit { task } => System {
                view: self.view.pushed(task),
                submitted: self.submitted.push(task),
                ..self
            }.settled(),
            Move::Next => if self.view.shutdown {
                System { view: self.view.without_thread(), shrunk: true, ..self }
            } else if self.view.queue.len() > 0 {
                System {
                    view: self.view.taken(),
                    running: self.running + 1,
                    started: self.started.push(self.view.queue[0]),
                    ..self
                }.settled()
            } else {
                self
            },
            Move::Finish { failed, close } => if failed {
                System {
                    view: PoolView {
                        shutdown: self.view.shutdown || close,
                        ..self.view.rested().without_thread()
                    },
                    running: (self.running - 1) as nat,
                    shrunk: true,
                    ..self
                }
            } else {
                System {
                    view: self.view.rested(),
                    running: (self.running - 1) as nat,
                    ..self
                }
            },
            Move::Waited { timed_out } => if timed_out && self.view.threads > self.view.min {
                System { view: self.view.without_thread(), ..self }
            } else {
                self
            },
            Move::Close => System {
                view: PoolView { shutdown: true, ..self.view },
                shrunk: true,
                ..self
            },
        }
    }

    /// How many threads there are at most, if that is limited.
    pub open spec fn limit(self, max: nat) -> nat {
        if max > self.view.min && max > 0 {
            max
        } else if self.view.min > 0 {
            self.view.min
        } else {
            1
        }
    }

    /// What holds at all times.
    pub open spec fn inv(self) -> bool {
        &&& self.view.wf()
        &&& self.view.threads == self.view.idle + self.running
        &&& self.submitted =~= self.started + self.view.queue
        &&& self.view.counter == self.names.len()
        &&& forall|i: int|
            0 <= i < self.names.len() ==> #[trigger] self.names[i] == crate::exec::name::name_of(
                self.view.name,
                (self.view.first + i) as nat,
            )
        &&& self.view.max matches Some(max) ==> self.view.threads <= self.limit(max as nat)
        &&& !self.shrunk ==> self.view.threads >= self.view.min && !self.view.shutdown
    }
}

/// A pool that has just been made is in order.
pub proof fn law_init<R>(s: System<R>)
    requires
        s.init(),
    ensures
        s.inv(),
{
}

proof fn lemma_settled<R>(s: System<R>)
    requires
        s.inv(),
    ensures
        s.settled().inv(),
{
}

/// Whatever happens next, everything stays in order.
pub proof fn law_move<R>(s: System<R>, m: Move<R>)
    requires
        s.inv(),
        s.enabled(m),
    ensures
        s.after(m).inv(),
{
    match m {
        Move::Submit { task } => {
            let next = System {
                view: s.view.pushed(task),
                submitted: s.submitted.push(task),
                ..s
            };
            lemma_settled(next);
        },
        Move::Next => {
            if !s.view.shutdown && s.view.queue.len() > 0 {
                let next = System {
                    view: s.view.taken(),
                    running: s.running + 1,
                    started: s.started.push(s.view.queue[0]),
                    ..s
                };
                assert(next.submitted =~= next.started + next.view.queue);
                lemma_settled(next);
            }
        },
        _ => {},
    }
}

/// A course of events: from a new pool on, each state follows from the one
/// before by a move.
pub open spec fn course<R>(states: Seq<System<R>>, moves: Seq<Move<R>>) -> bool {
    &&& states.len() == moves.len() + 1
    &&& states[0].init()
    &&& forall|i: int|
        #![trigger moves[i]]
        0 <= i < moves.len() ==> states[i].enabled(moves[i]) && states[i + 1] == states[i].after(
            moves[i],
        )
}

/// The invariant holds in every state of every course of events.
pub proof fn law_always<R>(states: Seq<System<R>>, moves: Seq<Move<R>>, i: int)
    requires
        course(states, moves),
        0 <= i < states.len(),
    ensures
        states[i].inv(),
    decreases i,
{
    if i == 0 {
        law_init(states[0]);
    } else {
        law_always(states, moves, i - 1);
        assert(states[i - 1].enabled(moves[i - 1]));
        law_move(states[i - 1], moves[i - 1]);
    }
}

/// What is queued is taken in the order in which it was queued, each thing once.
pub proof fn law_in_order<R>(states: Seq<System<R>>, moves: Seq<Move<R>>, i: int)
    requires
        course(states, moves),
        0 <= i < states.len(),
    ensures
        states[i].started.is_prefix_of(states[i].submitted),
        states[i].submitted == states[i].started + states[i].view.queue,
{
    law_always(states, moves, i);
}

/// When there is nothing to run and every thread is idle, everything that was
/// queued has been taken, and nothing of it runs any more.
pub proof fn law_drained<R>(states: Seq<System<R>>, moves: Seq<Move<R>>, i: int)
    requires
        course(states, moves),
        0 <= i < states.len(),
        states[i].view.drained(),
    ensures
        states[i].started == states[i].submitted,
        states[i].running == 0,
{
    law_always(states, moves, i);
}

/// Every thread is idle or runs something, and never are more threads
/// accounted for as idle than there are.
pub proof fn law_counts<R>(states: Seq<System<R>>, moves: Seq<Move<R>>, i: int)
    requires
        course(states, moves),
        0 <= i < states.len(),
    ensures
        states[i].view.threads == states[i].view.idle + states[i].running,
{
    law_always(states, moves, i);
}

/// There are never more threads than allowed, but for the threads that are
/// kept, and for the one thread that a pool always may have.
pub proof fn law_limited<R>(states: Seq<System<R>>, moves: Seq<Move<R>>, i: int, max: usize)
    requires
        course(states, moves),
        0 <= i < states.len(),
        states[i].view.max == Some(max),
    ensures
        states[i].view.threads <= states[i].limit(max as nat),
{
    law_always(states, moves, i);
}

/// As long as nothing fails and the pool is not closed, the threads that are
/// kept are there.
pub proof fn law_kept<R>(states: Seq<System<R>>, moves: Seq<Move<R>>, i: int)
    requires
        course(states, moves),
        0 <= i < states.len(),
        !states[i].shrunk,
    ensures
        states[i].view.threads >= states[i].view.min,
{
    law_always(states, moves, i);
}

/// No two threads of a pool are given the same name.
pub proof fn law_names<R>(states: Seq<System<R>>, moves: Seq<Move<R>>, i: int, j: int, k: int)
    requires
        course(states, moves),
        0 <= i < states.len(),
        0 <= j < k < states[i].names.len(),
    ensures
        states[i].names[j] != states[i].names[k],
{
    law_always(states, moves, i);
    let s = states[i];
    crate::exec::name::law_names_distinct(s.view.name, (s.view.first + j) as nat, (s.view.first + k) as nat);
}

/// When something has been queued there is a thread to run it.
pub proof fn law_submit<R>(s: System<R>, task: R)
    requires
        s.inv(),
    ensures
        s.after(Move::Submit { task }).view.threads > 0,
        s.after(Move::Submit { task }).view.queue.last() == task,
{
}

/// In a closed pool every thread that looks for something to do ends, and
/// none is started on account of that.
pub proof fn law_close<R>(s: System<R>)
    requires
        s.inv(),
        s.view.shutdown,
        s.enabled(Move::Next),
    ensures
        s.after(Move::Next).view.threads == s.view.threads - 1,
        s.after(Move::Next).view.shutdown,
        s.after(Move::Next).started == s.started,
{
}

/// What is queued comes last. A thread is started if none is idle, or more than
/// five things wait for each idle one, unless there are as many as allowed; with
/// no limit there is always one that can take it.
pub proof fn law_run_boxed<R>(pool: &mut ThreadPoolState<R>, task: R, spawn: Option<String>)
    requires
        pool@.wf(),
        call_ensures(ThreadPoolState::<R>::run_boxed, (pool, task), spawn),
    ensures
        ({
            let before = old(pool)@;
            let after = final(pool)@;
            &&& after.queue == before.queue.push(task)
            &&& before.idle == 0 && (before.threads == 0 || before.max is None || before.threads < before.max->0)
                ==> spawn is Some
            &&& before.queue.len() + 1 > 5 * before.idle && (before.max is None
                || before.threads < before.max->0) ==> spawn is Some
            &&& before.idle > 0 && before.queue.len() + 1 <= 5 * before.idle ==> !(spawn is Some)
            &&& before.threads > 0 && before.max is Some && before.threads >= before.max->0
                ==> !(spawn is Some)
            &&& before.max is None ==> after.idle > 0
            &&& spawn is Some ==> {
                &&& after.threads == before.threads + 1
                &&& after.idle == before.idle + 1
                &&& after.counter == before.counter + 1
            }
            &&& spawn is None ==> {
                &&& after.threads == before.threads
                &&& after.idle == before.idle
                &&& after.counter == before.counter
            }
            &&& spawn matches Some(name) ==> name@ == crate::exec::name::name_of(
                before.name,
                before.first + before.counter,
            )
            &&& after.shutdown == before.shutdown
            &&& after.first == before.first
            &&& after.idle_timeout == before.idle_timeout
            &&& after.min == before.min
            &&& after.max == before.max
            &&& after.name == before.name
        }),
{
}

/// What is queued comes last. A thread is started if none is idle, or more than
/// five things wait for each idle one, unless there are as many as allowed; with
/// no limit there is always one that can take it.
pub proof fn law_pool_run<R, P>(
    pool: &mut pool::ThreadPool<R, P>,
    task: R,
    result: Result<Option<String>, P>,
)
    requires
        pool@.wf(),
        call_ensures(pool::ThreadPool::<R, P>::run, (pool, task), result),
        pool.panic() is None,
    ensures
        ({
            let before = old(pool)@;
            let after = final(pool)@;
            &&& after.queue == before.queue.push(task)
            &&& before.idle == 0 && (before.threads == 0 || before.max is None || before.threads < before.max->0)
                ==> result->Ok_0 is Some
            &&& before.queue.len() + 1 > 5 * before.idle && (before.max is None
                || before.threads < before.max->0) ==> result->Ok_0 is Some
            &&& before.idle > 0 && before.queue.len() + 1 <= 5 * before.idle
                ==> !(result->Ok_0 is Some)
            &&& before.threads > 0 && before.max is Some && before.threads >= before.max->0
                ==> !(result->Ok_0 is Some)
            &&& before.max is None ==> after.idle > 0
            &&& result->Ok_0 is Some ==> {
                &&& after.threads == before.threads + 1
                &&& after.idle == before.idle + 1
                &&& after.counter == before.counter + 1
            }
            &&& result->Ok_0 is None ==> {
                &&& after.threads == before.threads
                &&& after.idle == before.idle
                &&& after.counter == before.counter
            }
            &&& result->Ok_0 matches Some(name) ==> name@ == crate::exec::name::name_of(
                before.name,
                before.first + before.counter,
            )
            &&& after.shutdown == before.shutdown
            &&& after.first == before.first
            &&& after.idle_timeout == before.idle_timeout
            &&& after.min == before.min
            &&& after.max == before.max
            &&& after.name == before.name
            &&& result is Ok
            &&& final(pool).panic() is None
        }),
{
}

/// What is queued comes last. A thread is started if none is idle, or more than
/// five things wait for each idle one, unless there are as many as allowed; with
/// no limit there is always one that can take it.
pub proof fn law_counting_run_boxed<R>(pool: &mut threadpool::ThreadPool<R>, task: R, spawn: Option<String>)
    requires
        pool@.wf(),
        call_ensures(threadpool::ThreadPool::<R>::run_boxed, (pool, task), spawn),
    ensures
        ({
            let before = old(pool)@;
            let after = final(pool)@;
            &&& after.queue == before.queue.push(task)
            &&& before.idle == 0 && (before.threads == 0 || before.max is None || before.threads < before.max->0)
                ==> spawn is Some
            &&& before.queue.len() + 1 > 5 * before.idle && (before.max is None
                || before.threads < before.max->0) ==> spawn is Some
            &&& before.idle > 0 && before.queue.len() + 1 <= 5 * before.idle ==> !(spawn is Some)
            &&& before.threads > 0 && before.max is Some && before.threads >= before.max->0
                ==> !(spawn is Some)
            &&& before.max is None ==> after.idle > 0
            &&& spawn is Some ==> {
                &&& after.threads == before.threads + 1
                &&& after.idle == before.idle + 1
                &&& after.counter == before.counter + 1
            }
            &&& spawn is None ==> {
                &&& after.threads == before.threads
                &&& after.idle == before.idle
                &&& after.counter == before.counter
            }
            &&& spawn matches Some(name) ==> name@ == crate::exec::name::name_of(
                before.name,
                before.first + before.counter,
            )
            &&& after.shutdown == before.shutdown
            &&& after.first == before.first
            &&& after.idle_timeout == before.idle_timeout
            &&& after.min == before.min
            &&& after.max == before.max
            &&& after.name == before.name
            &&& final(pool).panics() == old(pool).panics()
        }),
{
}

/// If a thread has panicked, whoever uses the pool next is told, once, and
/// nothing is queued.
pub proof fn law_pool_run_panic<R, P>(
    pool: &mut pool::ThreadPool<R, P>,
    task: R,
    result: Result<Option<String>, P>,
)
    requires
        call_ensures(pool::ThreadPool::<R, P>::run, (pool, task), result),
        pool.panic() is Some,
    ensures
        ({
            let before = old(pool)@;
            let after = final(pool)@;
            &&& result == Err::<Option<String>, P>(old(pool).panic()->0)
            &&& final(pool).panic() is None
            &&& after == before
        }),
{
}

/// A thread is started if none is idle, or more than five things wait for each
/// idle one, unless there are as many as allowed; a pool without threads may
/// always start one. What is queued stays as it is.
pub proof fn law_maybe_spawn<R>(pool: &mut ThreadPoolState<R>, spawn: Option<String>)
    requires
        pool@.wf(),
        call_ensures(ThreadPoolState::<R>::maybe_spawn, (pool,), spawn),
    ensures
        ({
            let before = old(pool)@;
            let after = final(pool)@;
            &&& before.idle == 0 && (before.threads == 0 || before.max is None || before.threads < before.max->0)
                ==> spawn is Some
            &&& before.queue.len() > 5 * before.idle && (before.max is None
                || before.threads < before.max->0) ==> spawn is Some
            &&& before.idle > 0 && before.queue.len() <= 5 * before.idle ==> !(spawn is Some)
            &&& before.threads > 0 && before.max is Some && before.threads >= before.max->0
                ==> !(spawn is Some)
            &&& before.max is None ==> after.idle > 0
            &&& after.queue == before.queue
            &&& after.threads - before.threads == (if spawn is Some {
                1int
            } else {
                0
            })
            &&& after.idle - before.idle == after.threads - before.threads
            &&& after.counter - before.counter == after.threads - before.threads
            &&& after.shutdown == before.shutdown
            &&& after.first == before.first
            &&& after.idle_timeout == before.idle_timeout
            &&& after.min == before.min
            &&& after.max == before.max
            &&& after.name == before.name
        }),
{
}

/// A thread that looks for something to do ends in a pool that is closed, takes
/// the oldest thing that is queued, or waits. If it takes something, another
/// thread is started as when something is queued; with no limit there is always
/// one left that is idle.
pub proof fn law_next_work<R>(pool: &mut ThreadPoolState<R>, work: Work<R>)
    requires
        pool@.wf(),
        pool@.idle > 0,
        call_ensures(ThreadPoolState::<R>::next_work, (pool,), work),
    ensures
        ({
            let before = old(pool)@;
            let after = final(pool)@;
            &&& (work is Exit) == before.shutdown
            &&& (work is Wait) == (!before.shutdown && before.queue.len() == 0)
            &&& work is Exit ==> {
                &&& after.threads == before.threads - 1
                &&& after.idle == before.idle - 1
                &&& after.queue == before.queue
                &&& after.counter == before.counter
            }
            &&& work matches Work::Wait { timeout } ==> timeout == before.idle_timeout && after
                == before
            &&& work matches Work::Run { task, spawn } ==> {
                &&& before.queue == seq![task] + after.queue
                &&& after.threads - after.idle == before.threads - before.idle + 1
                &&& after.threads - before.threads == (if spawn is Some {
                    1int
                } else {
                    0
                })
                &&& after.counter - before.counter == after.threads - before.threads
                &&& spawn matches Some(name) ==> name@ == crate::exec::name::name_of(
                    before.name,
                    before.first + before.counter,
                )
                &&& before.idle == 1 && (before.max is None || before.threads < before.max->0)
                    ==> spawn is Some
                &&& before.queue.len() - 1 > 5 * (before.idle - 1) && (before.max is None || before.threads
                    < before.max->0) ==> spawn is Some
                &&& before.idle > 1 && before.queue.len() - 1 <= 5 * (before.idle - 1) ==> spawn is None
                &&& before.max is Some && before.threads >= before.max->0 ==> spawn is None
                &&& before.max is None ==> after.idle > 0
            }
            &&& after.shutdown == before.shutdown
            &&& after.first == before.first
            &&& after.idle_timeout == before.idle_timeout
            &&& after.min == before.min
            &&& after.max == before.max
            &&& after.name == before.name
        }),
{
    if pool@.queue.len() > 0 {
        assert(pool@.queue =~= seq![pool@.queue[0]] + pool@.queue.skip(1));
    }
}

/// A thread that looks for something to do ends in a pool that is closed, takes
/// the oldest thing that is queued, or waits. If it takes something, another
/// thread is started as when something is queued; with no limit there is always
/// one left that is idle.
pub proof fn law_pool_next_work<R, P>(pool: &mut pool::ThreadPool<R, P>, work: Work<R>)
    requires
        pool@.wf(),
        pool@.idle > 0,
        call_ensures(pool::ThreadPool::<R, P>::next_work, (pool,), work),
    ensures
        ({
            let before = old(pool)@;
            let after = final(pool)@;
            &&& (work is Exit) == before.shutdown
            &&& (work is Wait) == (!before.shutdown && before.queue.len() == 0)
            &&& work is Exit ==> {
                &&& after.threads == before.threads - 1
                &&& after.idle == before.idle - 1
                &&& after.queue == before.queue
                &&& after.counter == before.counter
            }
            &&& work matches Work::Wait { timeout } ==> timeout == before.idle_timeout && after
                == before
            &&& work matches Work::Run { task, spawn } ==> {
                &&& before.queue == seq![task] + after.queue
                &&& after.threads - after.idle == before.threads - before.idle + 1
                &&& after.threads - before.threads == (if spawn is Some {
                    1int
                } else {
                    0
                })
                &&& after.counter - before.counter == after.threads - before.threads
                &&& spawn matches Some(name) ==> name@ == crate::exec::name::name_of(
                    before.name,
                    before.first + before.counter,
                )
                &&& before.idle == 1 && (before.max is None || before.threads < before.max->0)
                    ==> spawn is Some
                &&& before.queue.len() - 1 > 5 * (before.idle - 1) && (before.max is None || before.threads
                    < before.max->0) ==> spawn is Some
                &&& before.idle > 1 && before.queue.len() - 1 <= 5 * (before.idle - 1) ==> spawn is None
                &&& before.max is Some && before.threads >= before.max->0 ==> spawn is None
                &&& before.max is None ==> after.idle > 0
            }
            &&& after.shutdown == before.shutdown
            &&& after.first == before.first
            &&& after.idle_timeout == before.idle_timeout
            &&& after.min == before.min
            &&& after.max == before.max
            &&& after.name == before.name
            &&& final(pool).panic() == old(pool).panic()
        }),
{
    if pool@.queue.len() > 0 {
        assert(pool@.queue =~= seq![pool@.queue[0]] + pool@.queue.skip(1));
    }
}

/// A thread that looks for something to do ends in a pool that is closed, takes
/// the oldest thing that is queued, or waits. If it takes something, another
/// thread is started as when something is queued; with no limit there is always
/// one left that is idle.
pub proof fn law_counting_next_work<R>(pool: &mut threadpool::ThreadPool<R>, work: Work<R>)
    requires
        pool@.wf(),
        pool@.idle > 0,
        call_ensures(threadpool::ThreadPool::<R>::next_work, (pool,), work),
    ensures
        ({
            let before = old(pool)@;
            let after = final(pool)@;
            &&& (work is Exit) == before.shutdown
            &&& (work is Wait) == (!before.shutdown && before.queue.len() == 0)
            &&& work is Exit ==> {
                &&& after.threads == before.threads - 1
                &&& after.idle == before.idle - 1
                &&& after.queue == before.queue
                &&& after.counter == before.counter
            }
            &&& work matches Work::Wait { timeout } ==> timeout == before.idle_timeout && after
                == before
            &&& work matches Work::Run { task, spawn } ==> {
                &&& before.queue == seq![task] + after.queue
                &&& after.threads - after.idle == before.threads - before.idle + 1
                &&& after.threads - before.threads == (if spawn is Some {
                    1int
                } else {
                    0
                })
                &&& after.counter - before.counter == after.threads - before.threads
                &&& spawn matches Some(name) ==> name@ == crate::exec::name::name_of(
                    before.name,
                    before.first + before.counter,
                )
                &&& before.idle == 1 && (before.max is None || before.threads < before.max->0)
                    ==> spawn is Some
                &&& before.queue.len() - 1 > 5 * (before.idle - 1) && (before.max is None || before.threads
                    < before.max->0) ==> spawn is Some
                &&& before.idle > 1 && before.queue.len() - 1 <= 5 * (before.idle - 1) ==> spawn is None
                &&& before.max is Some && before.threads >= before.max->0 ==> spawn is None
                &&& before.max is None ==> after.idle > 0
            }
            &&& after.shutdown == before.shutdown
            &&& after.first == before.first
            &&& after.idle_timeout == before.idle_timeout
            &&& after.min == before.min
            &&& after.max == before.max
            &&& after.name == before.name
            &&& final(pool).panics() == old(pool).panics()
        }),
{
    if pool@.queue.len() > 0 {
        assert(pool@.queue =~= seq![pool@.queue[0]] + pool@.queue.skip(1));
    }
}

/// A thread that has run something runs it no more: it is idle again, or it has
/// ended if what it ran failed.
pub proof fn law_finished<R>(pool: &mut ThreadPoolState<R>, failed: bool)
    requires
        pool@.wf(),
        pool@.idle < pool@.threads,
        call_ensures(ThreadPoolState::<R>::finished, (pool, failed), ()),
    ensures
        ({
            let before = old(pool)@;
            let after = final(pool)@;
            &&& after.threads - after.idle == before.threads - before.idle - 1
            &&& failed ==> after.threads == before.threads - 1
            &&& !(failed) ==> after.threads == before.threads
            &&& after.queue == before.queue
            &&& after.counter == before.counter
            &&& after.shutdown == before.shutdown
            &&& after.first == before.first
            &&& after.idle_timeout == before.idle_timeout
            &&& after.min == before.min
            &&& after.max == before.max
            &&& after.name == before.name
        }),
{
}

/// A thread that has run something runs it no more: it is idle again, or it has
/// ended if what it ran panicked. The first panic is kept and closes the pool.
pub proof fn law_pool_finished<R, P>(pool: &mut pool::ThreadPool<R, P>, outcome: Result<(), P>)
    requires
        pool@.wf(),
        pool@.idle < pool@.threads,
        call_ensures(pool::ThreadPool::<R, P>::finished, (pool, outcome), ()),
    ensures
        ({
            let before = old(pool)@;
            let after = final(pool)@;
            &&& after.threads - after.idle == before.threads - before.idle - 1
            &&& outcome is Err ==> after.threads == before.threads - 1
            &&& !(outcome is Err) ==> after.threads == before.threads
            &&& after.queue == before.queue
            &&& after.counter == before.counter
            &&& after.shutdown == (before.shutdown || (outcome is Err && old(pool).panic() is None))
            &&& after.first == before.first
            &&& after.idle_timeout == before.idle_timeout
            &&& after.min == before.min
            &&& after.max == before.max
            &&& after.name == before.name
            &&& old(pool).panic() is Some || outcome is Ok
                ==> final(pool).panic() == old(pool).panic()
            &&& outcome matches Err(panic) ==> old(pool).panic() is None
                ==> final(pool).panic() == Some(panic)
        }),
{
}

/// A thread that has run something runs it no more: it is idle again, or it has
/// ended if what it ran failed.
pub proof fn law_counting_finished<R>(pool: &mut threadpool::ThreadPool<R>, panicked: bool)
    requires
        pool@.wf(),
        pool@.idle < pool@.threads,
        call_ensures(threadpool::ThreadPool::<R>::finished, (pool, panicked), ()),
    ensures
        ({
            let before = old(pool)@;
            let after = final(pool)@;
            &&& after.threads - after.idle == before.threads - before.idle - 1
            &&& panicked ==> after.threads == before.threads - 1
            &&& !(panicked) ==> after.threads == before.threads
            &&& after.queue == before.queue
            &&& after.counter == before.counter
            &&& after.shutdown == before.shutdown
            &&& after.first == before.first
            &&& after.idle_timeout == before.idle_timeout
            &&& after.min == before.min
            &&& after.max == before.max
            &&& after.name == before.name
            &&& final(pool).panics() - old(pool).panics() == (if panicked {
                1int
            } else {
                0
            })
        }),
{
}

/// A thread that has waited ends only if the time is up and there are more
/// threads than are kept; nothing that is queued or runs is touched.
pub proof fn law_waited<R>(pool: &mut ThreadPoolState<R>, timed_out: bool, ends: bool)
    requires
        pool@.wf(),
        pool@.idle > 0,
        call_ensures(ThreadPoolState::<R>::waited, (pool, timed_out), ends),
    ensures
        ({
            let before = old(pool)@;
            let after = final(pool)@;
            &&& ends == (timed_out && before.threads > before.min)
            &&& after.threads >= before.min || after.threads == before.threads
            &&& ends ==> after.threads == before.threads - 1
            &&& !ends ==> after.threads == before.threads
            &&& after.threads - after.idle == before.threads - before.idle
            &&& after.queue == before.queue
            &&& after.counter == before.counter
            &&& after.shutdown == before.shutdown
            &&& after.first == before.first
            &&& after.idle_timeout == before.idle_timeout
            &&& after.min == before.min
            &&& after.max == before.max
            &&& after.name == before.name
        }),
{
}

/// A thread that has waited ends only if the time is up and there are more
/// threads than are kept; nothing that is queued or runs is touched.
pub proof fn law_pool_waited<R, P>(pool: &mut pool::ThreadPool<R, P>, timed_out: bool, ends: bool)
    requires
        pool@.wf(),
        pool@.idle > 0,
        call_ensures(pool::ThreadPool::<R, P>::waited, (pool, timed_out), ends),
    ensures
        ({
            let before = old(pool)@;
            let after = final(pool)@;
            &&& ends == (timed_out && before.threads > before.min)
            &&& after.threads >= before.min || after.threads == before.threads
            &&& ends ==> after.threads == before.threads - 1
            &&& !ends ==> after.threads == before.threads
            &&& after.threads - after.idle == before.threads - before.idle
            &&& after.queue == before.queue
            &&& after.counter == before.counter
            &&& after.shutdown == before.shutdown
            &&& after.first == before.first
            &&& after.idle_timeout == before.idle_timeout
            &&& after.min == before.min
            &&& after.max == before.max
            &&& after.name == before.name
            &&& final(pool).panic() == old(pool).panic()
        }),
{
}

/// A thread that has waited ends only if the time is up and there are more
/// threads than are kept; nothing that is queued or runs is touched.
pub proof fn law_counting_waited<R>(pool: &mut threadpool::ThreadPool<R>, timed_out: bool, ends: bool)
    requires
        pool@.wf(),
        pool@.idle > 0,
        call_ensures(threadpool::ThreadPool::<R>::waited, (pool, timed_out), ends),
    ensures
        ({
            let before = old(pool)@;
            let after = final(pool)@;
            &&& ends == (timed_out && before.threads > before.min)
            &&& after.threads >= before.min || after.threads == before.threads
            &&& ends ==> after.threads == before.threads - 1
            &&& !ends ==> after.threads == before.threads
            &&& after.threads - after.idle == before.threads - before.idle
            &&& after.queue == before.queue
            &&& after.counter == before.counter
            &&& after.shutdown == before.shutdown
            &&& after.first == before.first
            &&& after.idle_timeout == before.idle_timeout
            &&& after.min == before.min
            &&& after.max == before.max
            &&& after.name == before.name
            &&& final(pool).panics() == old(pool).panics()
        }),
{
}

/// What is unblocked is queued, made of the sender of a new channel, and its
/// receiver waits for it. With no limit there is a thread that can take it.
pub proof fn law_unblock<R, P, T, W, F: FnOnce(SendOnce<T, W>) -> R>(
    pool: &mut pool::ThreadPool<R, P>,
    heap: &mut Heap<Channel<T, W>>,
    f: F,
    result: Result<(ReceiveOnce<T, W>, Option<String>), P>,
)
    requires
        pool@.wf(),
        pool.panic() is None,
        call_ensures(pool::ThreadPool::<R, P>::unblock::<T, W, F>, (pool, heap, f), result),
    ensures
        ({
            let before = old(pool)@;
            let after = final(pool)@;
            &&& result matches Ok((receiver, spawn)) && receiver.link() matches Some(ptr) && {
                &&& !old(heap).has(ptr)
                &&& final(heap).has(ptr)
                &&& final(heap)@.remove(ptr.addr()) == old(heap)@
                &&& final(heap).at(ptr)@.state.active
                &&& !final(heap).at(ptr)@.state.loaded
                &&& exists|sender: SendOnce<T, W>, task: R|
                    {
                        &&& sender.link() == ptr
                        &&& #[trigger] f.ensures((sender,), task)
                        &&& after.queue == before.queue.push(task)
                    }
            }
            &&& before.max is None ==> after.idle > 0
            &&& after.threads - after.idle == before.threads - before.idle
        }),
{
    let spawn = result->Ok_0.1;
    let ptr = result->Ok_0.0.link()->0;
    let (sender, task) = choose|sender: SendOnce<T, W>, task: R|
        {
            &&& sender.link() == ptr
            &&& #[trigger] f.ensures((sender,), task)
            &&& final(pool)@ == old(pool)@.pushed(task).settled()
            &&& crate::exec::state::text(spawn) == old(pool)@.pushed(task).spawn()
        };
    assert(f.ensures((sender,), task));
}

/// What is run is queued, made of what it is to finish with, and it can be joined
/// through a new channel. With no limit there is a thread that can take it.
pub proof fn law_counting_run<R, T, P, W, F: FnOnce(Runnable<T, P, W>) -> R>(
    pool: &mut threadpool::ThreadPool<R>,
    heap: &mut Heap<Channel<Result<T, P>, W>>,
    f: F,
    result: (JoinTask<T, P, W>, Option<String>),
)
    requires
        pool@.wf(),
        call_ensures(threadpool::ThreadPool::<R>::run::<T, P, W, F>, (pool, heap, f), result),
    ensures
        ({
            let before = old(pool)@;
            let after = final(pool)@;
            &&& result.0.receiver().link() matches Some(ptr) && {
                &&& !old(heap).has(ptr)
                &&& final(heap).has(ptr)
                &&& final(heap)@.remove(ptr.addr()) == old(heap)@
                &&& final(heap).at(ptr)@.state.active
                &&& !final(heap).at(ptr)@.state.loaded
                &&& exists|run: Runnable<T, P, W>, task: R|
                    {
                        &&& run.sender().link() == ptr
                        &&& #[trigger] f.ensures((run,), task)
                        &&& after.queue == before.queue.push(task)
                    }
            }
            &&& before.max is None ==> after.idle > 0
            &&& after.threads - after.idle == before.threads - before.idle
        }),
{
    let spawn = result.1;
    let ptr = result.0.receiver().link()->0;
    let (run, task) = choose|run: Runnable<T, P, W>, task: R|
        {
            &&& run.sender().link() == ptr
            &&& #[trigger] f.ensures((run,), task)
            &&& final(pool)@ == old(pool)@.pushed(task).settled()
            &&& crate::exec::state::text(spawn) == old(pool)@.pushed(task).spawn()
        };
    assert(f.ensures((run,), task));
}

/// A pool is drained only if nothing is queued and nothing runs.
pub proof fn law_drain<R, P>(pool: &pool::ThreadPool<R, P>, result: Poll<()>)
    requires
        pool@.wf(),
        call_ensures(pool::ThreadPool::<R, P>::drain, (pool,), result),
    ensures
        result is Ready <==> pool@.queue.len() == 0 && pool@.threads - pool@.idle == 0,
{
}

/// Two things are taken in the order in which they were queued.
pub proof fn law_first_come<R>(
    pool: &mut ThreadPoolState<R>,
    queued: &mut ThreadPoolState<R>,
    taken: &mut ThreadPoolState<R>,
    again: &mut ThreadPoolState<R>,
    first: R,
    second: R,
    spawns: (Option<String>, Option<String>),
    works: (Work<R>, Work<R>),
)
    requires
        pool@.wf(),
        pool@.queue.len() == 0,
        !pool@.shutdown,
        call_ensures(ThreadPoolState::<R>::run_boxed, (pool, first), spawns.0),
        final(pool)@ == queued@,
        call_ensures(ThreadPoolState::<R>::run_boxed, (queued, second), spawns.1),
        final(queued)@ == taken@,
        taken@.idle > 0,
        call_ensures(ThreadPoolState::<R>::next_work, (taken,), works.0),
        final(taken)@ == again@,
        again@.idle > 0,
        call_ensures(ThreadPoolState::<R>::next_work, (again,), works.1),
    ensures
        works.0 matches Work::Run { task, .. } && task == first,
        works.1 matches Work::Run { task, .. } && task == second,
        final(again)@.queue.len() == 0,
{
    assert(taken@.queue =~= seq![first, second]);
    assert(again@.queue =~= seq![second]);
}

/// In a pool without a limit a thread is idle after whatever was queued or
/// taken, so that what is queued next does not wait for what runs.
pub proof fn law_unlimited<R>(s: System<R>, m: Move<R>)
    requires
        s.inv(),
        s.enabled(m),
        s.view.max is None,
        m is Submit || (m is Next && !s.view.shutdown),
    ensures
        s.after(m).view.idle > 0,
{
}

/// In a pool with a limit, no thread is idle after something was queued or
/// taken only if there are as many threads as allowed.
pub proof fn law_limit_used<R>(s: System<R>, m: Move<R>, max: usize)
    requires
        s.inv(),
        s.enabled(m),
        s.view.max == Some(max),
        m is Submit || (m is Next && !s.view.shutdown),
        s.after(m).view.idle == 0,
    ensures
        s.after(m).view.threads >= max,
{
}

/// A pool begins with the threads that are kept, all of them idle, and with nothing
/// to run.
pub proof fn law_pool_new<R, P>(
    config: ThreadPoolConfig,
    made: (pool::ThreadPool<R, P>, Vec<String>),
)
    requires
        call_ensures(pool::ThreadPool::<R, P>::new, (config,), made),
    ensures
        ({
            let pool = made.0@;
            &&& pool.threads == config@.min_count
            &&& pool.idle == pool.threads
            &&& pool.min == config@.min_count
            &&& pool.max == config@.max_count
            &&& pool.idle_timeout == config@.idle_timeout
            &&& pool.queue.len() == 0
            &&& !pool.shutdown
            &&& made.0.panic() is None
            &&& made.1@.len() == pool.threads
            &&& forall|i: int, j: int|
                0 <= i < j < made.1@.len() ==> #[trigger] made.1@[i]@ != #[trigger] made.1@[j]@
        }),
{
    assert forall|i: int, j: int| 0 <= i < j < made.1@.len() implies #[trigger] made.1@[i]@
        != #[trigger] made.1@[j]@ by {
        crate::exec::name::law_names_distinct(made.0@.name, (1 + i) as nat, (1 + j) as nat);
    }
}

/// A pool begins with the threads that are kept, all of them idle, and with nothing
/// to run.
pub proof fn law_counting_new<R>(
    config: ThreadPoolConfig,
    made: (threadpool::ThreadPool<R>, Vec<String>),
)
    requires
        call_ensures(threadpool::ThreadPool::<R>::new, (config,), made),
    ensures
        ({
            let pool = made.0@;
            &&& pool.threads == config@.min_count
            &&& pool.idle == pool.threads
            &&& pool.min == config@.min_count
            &&& pool.max == config@.max_count
            &&& pool.idle_timeout == config@.idle_timeout
            &&& pool.queue.len() == 0
            &&& !pool.shutdown
            &&& made.0.panics() == 0
            &&& made.1@.len() == pool.threads
            &&& forall|i: int, j: int|
                0 <= i < j < made.1@.len() ==> #[trigger] made.1@[i]@ != #[trigger] made.1@[j]@
        }),
{
    assert forall|i: int, j: int| 0 <= i < j < made.1@.len() implies #[trigger] made.1@[i]@
        != #[trigger] made.1@[j]@ by {
        crate::exec::name::law_names_distinct(made.0@.name, i as nat, j as nat);
    }
}

/// Whoever closes a pool waits for its threads, and is told of a panic first. The
/// threads are told to end, and nothing else has changed.
pub proof fn law_shutdown<R, P>(pool: &mut pool::ThreadPool<R, P>, closing: pool::Closing<P>)
    requires
        call_ensures(pool::ThreadPool::<R, P>::shutdown, (pool,), closing),
    ensures
        ({
            let before = old(pool)@;
            let after = final(pool)@;
            &&& old(pool).panic() matches Some(panic) ==> closing == pool::Closing::Panic(panic)
            &&& closing is Done <==> old(pool).panic() is None && before.threads == 0
            &&& closing is Wait <==> old(pool).panic() is None && before.threads > 0
            &&& final(pool).panic() is None
            &&& after.shutdown
            &&& after.threads == before.threads
            &&& after.idle == before.idle
            &&& after.queue == before.queue
        }),
{
}

/// Whoever drops a pool waits for its threads until the time is up, and is then told
/// how many are left. The threads are told to end, and nothing else has changed.
pub proof fn law_counting_drop<R, W>(
    pool: &mut threadpool::ThreadPool<R>,
    turn: Turn<W>,
    dropping: threadpool::Dropping,
)
    requires
        call_ensures(threadpool::ThreadPool::<R>::drop::<W>, (pool, turn), dropping),
    ensures
        ({
            let before = old(pool)@;
            let after = final(pool)@;
            &&& dropping is Done <==> before.threads == 0
            &&& dropping is Wait <==> before.threads > 0 && turn is Wait
            &&& dropping matches threadpool::Dropping::TimedOut(count) ==> count == before.threads
                && turn is Expired
            &&& after.shutdown
            &&& after.threads == before.threads
            &&& after.idle == before.idle
            &&& after.queue == before.queue
            &&& final(pool).panics() == old(pool).panics()
        }),
{
}

} // verus!
