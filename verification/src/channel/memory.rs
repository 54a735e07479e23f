//! The memory of a channel, and the operations on it run without interruption.

use vstd::prelude::*;

use crate::channel::state::{Op, Seen, State};
use crate::channel::step::{Acts, At, Call, End};
use crate::maybe::checked::Maybe;
use crate::poll::{Poll, Turn};

verus! {

/// What the memory of a channel holds.
#[verifier::ext_equal]
pub struct Mem<T, W> {
    /// The state word.
    pub state: State,
    /// The value in transit.
    pub value: Option<T>,
    /// The waker of the side that waits.
    pub waker: Option<W>,
    /// The wakers that have been called so far.
    pub woken: Seq<W>,
}

/// What one side holds in its hands during an operation.
pub struct Local<T, W> {
    /// A value to be sent, or one that was received.
    pub value: Option<T>,
    /// This side's own waker.
    pub waker: Option<W>,
    /// The other side's waker, taken out of the channel.
    pub taken: Option<W>,
}

impl<T, W> Mem<T, W> {
    /// No operation is under way: the waker cell is not locked, the flags say
    /// what the cells hold, and beside a value that one side has left behind
    /// there is no waker.
    pub open spec fn quiet(self) -> bool {
        &&& !self.state.wlock
        &&& !self.state.rlock
        &&& self.state.loaded == (self.value is Some)
        &&& self.state.wake == (self.waker is Some)
        &&& !self.state.active && self.state.loaded ==> self.waker is None
    }

    /// Neither side has anything more to give or to expect.
    pub open spec fn is_done(self) -> bool {
        !self.state.active && !self.state.loaded
    }

    /// Call a waker, if there is one.
    pub open spec fn call(self, waker: Option<W>) -> Mem<T, W> {
        match waker {
            Some(w) => Mem { woken: self.woken.push(w), ..self },
            None => self,
        }
    }

    /// Every cell that is emptied is full, every cell that is filled is empty.
    pub open spec fn acts_ok(self, acts: Acts, local: Local<T, W>) -> bool {
        &&& (acts.drop_waker || acts.take_waker || acts.reclaim_waker) ==> self.waker is Some
        &&& acts.take_waker ==> local.taken is None
        &&& acts.reclaim_waker ==> local.waker is None
        &&& acts.store_waker ==> local.waker is Some && (self.waker is None || acts.drop_waker
            || acts.take_waker || acts.reclaim_waker)
        &&& acts.store_value ==> local.value is Some && self.value is None
        &&& acts.load_value ==> local.value is None && self.value is Some
        &&& acts.drop_value ==> self.value is Some
        &&& !(acts.drop_waker && acts.take_waker)
        &&& !(acts.drop_waker && acts.reclaim_waker)
        &&& !(acts.take_waker && acts.reclaim_waker)
        &&& !(acts.store_value && acts.load_value)
        &&& !(acts.store_value && acts.drop_value)
        &&& !(acts.load_value && acts.drop_value)
    }

    /// What the cell accesses of a step do to the memory.
    pub open spec fn acts_mem(self, acts: Acts, local: Local<T, W>) -> Mem<T, W> {
        let taken = if acts.take_waker {
            self.waker
        } else {
            local.taken
        };
        let own = if acts.store_waker {
            None
        } else if acts.reclaim_waker {
            self.waker
        } else {
            local.waker
        };
        let waker = if acts.store_waker {
            local.waker
        } else if acts.drop_waker || acts.take_waker || acts.reclaim_waker {
            None
        } else {
            self.waker
        };
        let value = if acts.store_value {
            local.value
        } else if acts.load_value || acts.drop_value {
            None
        } else {
            self.value
        };
        let called = if acts.wake_taken {
            self.call(taken)
        } else {
            self
        };
        let called = if acts.wake_own {
            called.call(own)
        } else {
            called
        };
        Mem { state: self.state, value, waker, woken: called.woken }
    }

    /// What the cell accesses of a step leave in the hands of the side that takes it.
    pub open spec fn acts_local(self, acts: Acts, local: Local<T, W>) -> Local<T, W> {
        Local {
            value: if acts.store_value {
                None
            } else if acts.load_value {
                self.value
            } else {
                local.value
            },
            waker: if acts.store_waker || acts.wake_own {
                None
            } else if acts.reclaim_waker {
                self.waker
            } else {
                local.waker
            },
            taken: if acts.wake_taken {
                None
            } else if acts.take_waker {
                self.waker
            } else {
                local.taken
            },
        }
    }

    /// The memory after the atomic operation of a step.
    pub open spec fn after_op(self, call: Call, at: At, spurious: bool) -> Mem<T, W> {
        Mem { state: at.op_at(call).result(self.state, spurious), ..self }
    }

    /// The cell accesses of a step, and the point after it.
    pub open spec fn step_at(self, call: Call, at: At, spurious: bool) -> (Acts, At) {
        at.step_at(call, at.op_at(call).seen(self.state, spurious))
    }

    /// The outcome of taking at most `fuel` steps, with no step of the other side in between.
    pub open spec fn run(
        self,
        fuel: nat,
        call: Call,
        at: At,
        local: Local<T, W>,
    ) -> (Mem<T, W>, Local<T, W>, At)
        decreases fuel,
    {
        if fuel == 0 || at is End {
            (self, local, at)
        } else {
            let (acts, next) = self.step_at(call, at, false);
            let met = self.after_op(call, at, false);
            met.acts_mem(acts, local).run((fuel - 1) as nat, call, next, met.acts_local(acts, local))
        }
    }

    /// Every step of such a run finds the cells as it needs them.
    pub open spec fn run_ok(
        self,
        fuel: nat,
        call: Call,
        at: At,
        local: Local<T, W>,
    ) -> bool
        decreases fuel,
    {
        if fuel == 0 || at is End {
            at is End
        } else {
            let (acts, next) = self.step_at(call, at, false);
            let met = self.after_op(call, at, false);
            &&& met.acts_ok(acts, local)
            &&& met.acts_mem(acts, local).run_ok((fuel - 1) as nat, call, next, met.acts_local(acts, local))
        }
    }

    /// The result of writing a value to a channel at rest, and the memory afterwards.
    pub open spec fn write_result(
        self,
        value: T,
        waker: Option<W>,
        finalize: bool,
    ) -> (Result<(), (T, bool)>, Mem<T, W>) {
        if !self.state.active {
            (Err((value, true)), self)
        } else if self.state.loaded {
            (Err((value, false)), self)
        } else {
            let loaded = Mem {
                state: State {
                    loaded: true,
                    wake: waker is Some,
                    active: waker is Some || !finalize,
                    ..self.state
                },
                value: Some(value),
                waker,
                woken: self.woken,
            };
            (Ok(()), loaded.call(self.waker))
        }
    }

    /// The result of flushing a channel at rest, and the memory afterwards.
    pub open spec fn flush_result(self, waker: W, finalize: bool) -> (
        Poll<(Option<T>, bool)>,
        Mem<T, W>,
    ) {
        if !self.state.loaded {
            (
                Poll::Ready((None, !self.state.active)),
                Mem { state: State { active: self.state.active && !finalize, ..self.state }, ..self },
            )
        } else if self.state.active {
            (
                Poll::Pending,
                Mem { state: State { wake: true, ..self.state }, waker: Some(waker), ..self },
            )
        } else {
            (
                Poll::Ready((self.value, true)),
                Mem {
                    state: State {
                        active: false,
                        loaded: false,
                        wlock: false,
                        rlock: false,
                        wake: false,
                    },
                    value: None,
                    ..self
                },
            )
        }
    }

    /// The result of reading a channel at rest, and the memory afterwards.
    pub open spec fn read_result(self, waker: Option<W>, or_cancel: bool) -> (
        Poll<(Option<T>, bool)>,
        Mem<T, W>,
    ) {
        if self.state.loaded {
            let emptied = Mem { state: State { loaded: false, ..self.state }, value: None, ..self };
            if self.state.active {
                let released = Mem {
                    state: State { wake: false, ..emptied.state },
                    waker: None,
                    ..emptied
                };
                (Poll::Ready((self.value, false)), released.call(self.waker))
            } else {
                (Poll::Ready((self.value, true)), emptied)
            }
        } else if !self.state.active {
            (Poll::Ready((None, true)), self)
        } else if or_cancel {
            (
                Poll::Ready((None, false)),
                Mem { state: State { active: false, ..self.state }, ..self },
            )
        } else {
            let waiting = Mem { state: State { wake: waker is Some, ..self.state }, waker, ..self };
            if waker is Some {
                (Poll::Pending, waiting)
            } else {
                (Poll::Ready((None, false)), waiting)
            }
        }
    }

    /// The result of detaching one side of a channel at rest, and the memory afterwards.
    pub open spec fn drop_result(self, is_writer: bool) -> (bool, Mem<T, W>) {
        if !self.state.active {
            (
                true,
                Mem {
                    state: State { wlock: true, wake: true, ..self.state },
                    value: None,
                    waker: None,
                    woken: self.woken,
                },
            )
        } else {
            let detached = Mem {
                state: State { active: false, wake: false, ..self.state },
                waker: None,
                ..self
            };
            if self.state.loaded != is_writer {
                (false, detached.call(self.waker))
            } else {
                (false, detached)
            }
        }
    }

}


/// No uninterrupted operation takes more steps than this.
pub const RUN_LIMIT: usize = 3;

/// An uninterrupted write ends, and does what `write_result` says.
#[verifier::spinoff_prover]
pub proof fn lemma_write_run<T, W>(mem: Mem<T, W>, value: T, waker: Option<W>, finalize: bool)
    requires
        mem.quiet(),
    ensures
        ({
            let call = Call::Write { waker: waker is Some, finalize };
            let local = Local { value: Some(value), waker, taken: None };
            let (end_mem, end_local, end) = mem.run(3, call, At::WriteBegin, local);
            let (result, after) = mem.write_result(value, waker, finalize);
            &&& mem.run_ok(3, call, At::WriteBegin, local)
            &&& end_mem == after
            &&& match result {
                Ok(()) => end == At::End(End::Sent),
                Err((v, dropped)) => end == At::End(End::Refused { dropped }) && end_local.value
                    == Some(v),
            }
        }),
{
    reveal_with_fuel(Mem::run, 4);
    reveal_with_fuel(Mem::run_ok, 4);
}

/// An uninterrupted flush ends, and does what `flush_result` says.
#[verifier::spinoff_prover]
pub proof fn lemma_flush_run<T, W>(mem: Mem<T, W>, waker: W, finalize: bool)
    requires
        mem.quiet(),
    ensures
        ({
            let call = Call::Flush { finalize };
            let local = Local { value: None, waker: Some(waker), taken: None };
            let (end_mem, end_local, end) = mem.run(3, call, At::FlushBegin, local);
            let (result, after) = mem.flush_result(waker, finalize);
            &&& mem.run_ok(3, call, At::FlushBegin, local)
            &&& end_mem == after
            &&& match result {
                Poll::Pending => end == At::End(End::Pending),
                Poll::Ready((None, dropped)) => end == At::End(End::Flushed { dropped }),
                Poll::Ready((Some(v), dropped)) => end == At::End(End::Returned) && dropped
                    && end_local.value == Some(v),
            }
        }),
{
    reveal_with_fuel(Mem::run, 4);
    reveal_with_fuel(Mem::run_ok, 4);
}

/// An uninterrupted read ends, and does what `read_result` says.
#[verifier::spinoff_prover]
pub proof fn lemma_read_run<T, W>(mem: Mem<T, W>, waker: Option<W>, or_cancel: bool)
    requires
        mem.quiet(),
    ensures
        ({
            let call = Call::Read { waker: waker is Some, or_cancel };
            let local = Local { value: None, waker, taken: None };
            let (end_mem, end_local, end) = mem.run(3, call, At::ReadBegin, local);
            let (result, after) = mem.read_result(waker, or_cancel);
            &&& mem.run_ok(3, call, At::ReadBegin, local)
            &&& end_mem == after
            &&& match result {
                Poll::Pending => end == At::End(End::Pending),
                Poll::Ready((None, dropped)) => end == At::End(End::Empty { dropped }),
                Poll::Ready((Some(v), dropped)) => end == At::End(End::Got { dropped })
                    && end_local.value == Some(v),
            }
        }),
{
    let call = Call::Read { waker: waker is Some, or_cancel };
    let local = Local { value: None, waker, taken: None };
    let (acts, next) = mem.step_at(call, At::ReadBegin, false);
    let met = mem.after_op(call, At::ReadBegin, false);
    assert(met == mem);
    assert(acts == Acts::idle());
    assert(met.acts_mem(acts, local) == mem);
    assert(met.acts_local(acts, local) == local);
    assert(mem.run(3, call, At::ReadBegin, local) == mem.run(2, call, next, local));
    assert(mem.run_ok(3, call, At::ReadBegin, local) == mem.run_ok(2, call, next, local));
    reveal_with_fuel(Mem::run, 3);
    reveal_with_fuel(Mem::run_ok, 3);
}

/// An uninterrupted drop ends, and does what `drop_result` says.
#[verifier::spinoff_prover]
pub proof fn lemma_drop_run<T, W>(mem: Mem<T, W>, is_writer: bool)
    requires
        mem.quiet(),
    ensures
        ({
            let call = Call::Drop { is_writer };
            let local = Local { value: None, waker: None, taken: None };
            let (end_mem, end_local, end) = mem.run(3, call, At::DropLock, local);
            let (last, after) = mem.drop_result(is_writer);
            &&& mem.run_ok(3, call, At::DropLock, local)
            &&& end_mem == after
            &&& end == At::End(End::Detached { last })
        }),
{
    reveal_with_fuel(Mem::run, 4);
    reveal_with_fuel(Mem::run_ok, 4);
}

/// The state word, the value cell and the waker cell that both sides of a
/// channel share. The wakers that operations call are collected in order.
#[derive(Debug)]
pub struct Channel<T, W> {
    state: State,
    value: Maybe<T>,
    waker: Maybe<W>,
    woken: Vec<W>,
}

impl<T, W> View for Channel<T, W> {
    type V = Mem<T, W>;

    closed spec fn view(&self) -> Mem<T, W> {
        Mem {
            state: self.state,
            value: self.value.stored(),
            waker: self.waker.stored(),
            woken: self.woken@,
        }
    }
}

impl<T, W> Channel<T, W> {
    /// Both cells know whether they are loaded.
    pub closed spec fn wf(&self) -> bool {
        self.value.consistent() && self.waker.consistent()
    }

    /// The channel is at rest, as it is between operations.
    pub open spec fn at_rest(&self) -> bool {
        self.wf() && self@.quiet()
    }

    /// A channel with both sides attached and nothing in it.
    pub fn new() -> (channel: Self)
        ensures
            channel.at_rest(),
            channel@ == (Mem::<T, W> {
                state: State {
                    active: true,
                    loaded: false,
                    wlock: false,
                    rlock: false,
                    wake: false,
                },
                value: None,
                waker: None,
                woken: Seq::<W>::empty(),
            }),
    {
        Channel {
            state: State {
                active: true,
                loaded: false,
                wlock: false,
                rlock: false,
                wake: false,
            },
            value: Maybe::empty(),
            waker: Maybe::empty(),
            woken: Vec::new(),
        }
    }

    /// Neither a value nor another side is there any more.
    pub fn is_done(&self) -> (done: bool)
        ensures
            done == self@.is_done(),
    {
        !self.state.active && !self.state.loaded
    }

    /// Both sides are still attached.
    pub fn is_active(&self) -> (active: bool)
        ensures
            active == self@.state.active,
    {
        self.state.active
    }

    /// The wakers called so far, oldest first, are handed out and forgotten.
    pub fn take_woken(&mut self) -> (woken: Vec<W>)
        ensures
            woken@ == old(self)@.woken,
            final(self)@ == (Mem { woken: Seq::<W>::empty(), ..old(self)@ }),
            final(self).wf() == old(self).wf(),
    {
        let mut woken: Vec<W> = Vec::new();
        core::mem::swap(&mut woken, &mut self.woken);
        woken
    }

    /// Take one step of an operation: one atomic operation on the state word
    /// and the cell accesses that follow it.
    pub fn step(&mut self, call: Call, at: At, local: &mut Local<T, W>, spurious: bool) -> (next: At)
        requires
            old(self).wf(),
            old(self)@.after_op(call, at, spurious).acts_ok(
                old(self)@.step_at(call, at, spurious).0,
                *old(local),
            ),
        ensures
            final(self).wf(),
            next == old(self)@.step_at(call, at, spurious).1,
            final(self)@ == old(self)@.after_op(call, at, spurious).acts_mem(
                old(self)@.step_at(call, at, spurious).0,
                *old(local),
            ),
            *final(local) == old(self)@.after_op(call, at, spurious).acts_local(
                old(self)@.step_at(call, at, spurious).0,
                *old(local),
            ),
    {
        let op: Op = at.op(call);
        let seen: Seen = op.apply(&mut self.state, spurious);
        let (acts, next) = at.next(call, seen);
        self.perform(acts, local);
        next
    }

    fn perform(&mut self, acts: Acts, local: &mut Local<T, W>)
        requires
            old(self).wf(),
            old(self)@.acts_ok(acts, *old(local)),
        ensures
            final(self).wf(),
            final(self)@ == old(self)@.acts_mem(acts, *old(local)),
            *final(local) == old(self)@.acts_local(acts, *old(local)),
    {
        let mut own: Option<W> = local.waker.take();
        if acts.reclaim_waker {
            own = Some(self.waker.load());
        } else if acts.take_waker {
            local.taken = Some(self.waker.load());
        } else if acts.drop_waker {
            self.waker.clear();
        }
        if acts.store_waker {
            self.waker.store(own.unwrap());
            own = None;
        }
        if acts.store_value {
            let value = local.value.take();
            self.value.store(value.unwrap());
        } else if acts.load_value {
            local.value = Some(self.value.load());
        } else if acts.drop_value {
            self.value.clear();
        }
        if acts.wake_taken {
            let taken = local.taken.take();
            if taken.is_some() {
                self.woken.push(taken.unwrap());
            }
        }
        if acts.wake_own {
            if own.is_some() {
                self.woken.push(own.unwrap());
            }
        } else {
            local.waker = own;
        }
    }

    /// Run an operation to its end.
    fn run(&mut self, call: Call, local: &mut Local<T, W>) -> (end: At)
        requires
            old(self).wf(),
            old(self)@.run_ok(3, call, call.start(), *old(local)),
        ensures
            final(self).wf(),
            (final(self)@, *final(local), end) == old(self)@.run(3, call, call.start(), *old(local)),
            end is End,
    {
        let mut at: At = call.begin();
        let mut fuel: usize = RUN_LIMIT;
        while fuel > 0
            invariant
                fuel <= RUN_LIMIT,
                self.wf(),
                self@.run_ok(fuel as nat, call, at, *local),
                self@.run(fuel as nat, call, at, *local) == old(self)@.run(3, call, call.start(), *old(local)),
            decreases fuel,
        {
            if let At::End(_) = at {
                return at;
            }
            at = self.step(call, at, local, false);
            fuel = fuel - 1;
        }
        at
    }

    /// Load a value. Fails if the reader is gone, or if a value is there already.
    /// A reader that waits is woken; the writer's waker, if given, is left to be
    /// called when the value has been read.
    pub fn write(&mut self, value: T, waker: Option<W>, finalize: bool) -> (result: Result<
        (),
        (T, bool),
    >)
        requires
            old(self).at_rest(),
        ensures
            final(self).at_rest(),
            (result, final(self)@) == old(self)@.write_result(value, waker, finalize),
    {
        proof {
            lemma_write_run(self@, value, waker, finalize);
        }
        let call = Call::Write { waker: waker.is_some(), finalize };
        let mut local = Local { value: Some(value), waker, taken: None };
        let end = self.run(call, &mut local);
        match end {
            At::End(End::Refused { dropped }) => Err((local.value.unwrap(), dropped)),
            At::End(End::Recovered) => Err((local.value.unwrap(), true)),
            _ => Ok(()),
        }
    }

    /// Find out whether the loaded value has been read. If the reader is gone
    /// and has left the value, the value is taken back.
    pub fn flush(&mut self, waker: W, finalize: bool) -> (result: Poll<(Option<T>, bool)>)
        requires
            old(self).at_rest(),
        ensures
            final(self).at_rest(),
            (result, final(self)@) == old(self)@.flush_result(waker, finalize),
    {
        proof {
            lemma_flush_run(self@, waker, finalize);
        }
        let call = Call::Flush { finalize };
        let mut local = Local { value: None, waker: Some(waker), taken: None };
        let end = self.run(call, &mut local);
        match end {
            At::End(End::Flushed { dropped }) => Poll::Ready((None, dropped)),
            At::End(End::Returned) => Poll::Ready((Some(local.value.unwrap()), true)),
            _ => Poll::Pending,
        }
    }

    /// Take the loaded value. If there is none, detach on request, or leave the
    /// waker to be called when there is one.
    pub fn read(&mut self, waker: Option<W>, or_cancel: bool) -> (result: Poll<(Option<T>, bool)>)
        requires
            old(self).at_rest(),
        ensures
            final(self).at_rest(),
            (result, final(self)@) == old(self)@.read_result(waker, or_cancel),
    {
        proof {
            lemma_read_run(self@, waker, or_cancel);
        }
        let call = Call::Read { waker: waker.is_some(), or_cancel };
        let mut local = Local { value: None, waker, taken: None };
        let end = self.run(call, &mut local);
        match end {
            At::End(End::Got { dropped }) => Poll::Ready((Some(local.value.unwrap()), dropped)),
            At::End(End::Empty { dropped }) => Poll::Ready((None, dropped)),
            _ => Poll::Pending,
        }
    }

    /// Detach one side. True if the other side has detached before: the channel
    /// is then to be freed.
    pub fn drop_one_side(&mut self, is_writer: bool) -> (last: bool)
        requires
            old(self).at_rest(),
        ensures
            final(self).wf(),
            (last, final(self)@) == old(self)@.drop_result(is_writer),
            !last ==> final(self).at_rest(),
    {
        proof {
            lemma_drop_run::<T, W>(self@, is_writer);
        }
        let call = Call::Drop { is_writer };
        let mut local = Local { value: None, waker: None, taken: None };
        let end = self.run(call, &mut local);
        match end {
            At::End(End::Detached { last }) => last,
            _ => false,
        }
    }

    /// One turn of waiting for a value. The result, if the value or the end of
    /// the channel is there; else the waker is left to be called, and the
    /// caller is to wait for that.
    pub fn wait_read(&mut self, waker: W) -> (result: Poll<(Option<T>, bool)>)
        requires
            old(self).at_rest(),
        ensures
            final(self).at_rest(),
            (result, final(self)@) == old(self)@.read_result(Some(waker), false),
            result matches Poll::Ready((None, dropped)) ==> dropped,
    {
        // poll once without a waker in case the value is ready
        match self.read(None, false) {
            Poll::Ready((None, false)) => self.read(Some(waker), false),
            result => result,
        }
    }

    /// One turn of waiting for a value until a time is up. Once it is, the
    /// read is cancelled: a value is returned if one was stored, and no waker
    /// is left behind.
    pub fn wait_read_timeout(&mut self, turn: Turn<W>) -> (result: Poll<(Option<T>, bool)>)
        requires
            old(self).at_rest(),
        ensures
            final(self).at_rest(),
            (result, final(self)@) == (match turn {
                Turn::Wait(waker) => old(self)@.read_result(Some(waker), false),
                Turn::Expired => old(self)@.read_result(None, false),
            }),
            turn is Expired ==> result is Ready,
            result == Poll::<(Option<T>, bool)>::Ready((None, false)) ==> turn is Expired,
    {
        match turn {
            Turn::Wait(waker) => self.wait_read(waker),
            Turn::Expired => self.read(None, false),
        }
    }
}

} // verus!
