//! The memory of a shared value, and the operations on it run without interruption.

use vstd::prelude::*;

use crate::maybe::checked::Maybe;
use crate::poll::Poll;
use crate::shared::step::{Acts, At, Call, CountOp, CountSeen, End, MAX_REFCOUNT};
use crate::util::{BoxPtr, Heap};

verus! {

/// What the memory beside a shared value holds.
#[verifier::ext_equal]
pub struct Mem<W> {
    /// The counter of the owner and the borrows.
    pub count: usize,
    /// The waker of the owner that waits.
    pub waker: Option<W>,
    /// The wakers that have been called so far.
    pub woken: Seq<W>,
}

impl<W> Mem<W> {
    /// The owner is there and does not wait; `borrows` are out.
    pub open spec fn owned(self, borrows: nat) -> bool {
        self.count == 3 + 2 * borrows && self.waker is None
    }

    /// The owner waits for `borrows` to be returned, of which there is at least one.
    pub open spec fn collecting(self, borrows: nat) -> bool {
        borrows > 0 && self.count == 1 + 2 * borrows && self.waker is Some
    }

    /// The owner waits, and all borrows have been returned.
    pub open spec fn returned(self) -> bool {
        self.count == 2 && self.waker is None
    }

    /// The owner is gone; `borrows` are out, of which there is at least one.
    pub open spec fn orphaned(self, borrows: nat) -> bool {
        borrows > 0 && self.count == 2 * borrows && self.waker is None
    }

    /// The counter is far from overflowing.
    pub open spec fn bounded(self) -> bool {
        &&& self.count <= MAX_REFCOUNT + 4
        &&& self.waker is Some ==> self.count <= MAX_REFCOUNT + 2
    }

    /// How many borrows are out, for an owner that waits or does not wait.
    pub open spec fn borrows(self, pending: bool) -> nat {
        if !pending {
            ((self.count - 3) / 2) as nat
        } else if self.count == 2 {
            0
        } else {
            (self.count / 2) as nat
        }
    }

    /// The memory is as an owner finds it that waits or does not wait.
    pub open spec fn lent(self, pending: bool) -> bool {
        if pending {
            self.collecting(self.borrows(true)) || self.returned()
        } else {
            self.owned(self.borrows(false))
        }
    }

    /// The memory is as a borrow finds it: one borrow at least is out.
    pub open spec fn borrowed(self) -> bool {
        ||| self.borrows(false) > 0 && self.owned(self.borrows(false))
        ||| self.collecting(self.borrows(true))
        ||| self.orphaned((self.count / 2) as nat)
    }

    /// One more borrow is out.
    pub open spec fn with_borrow(self) -> Mem<W> {
        Mem { count: (self.count + 2) as usize, ..self }
    }

    /// The owner sees a new borrow, unless it waits and all borrows have been returned.
    #[verifier::spinoff_prover]
    pub proof fn lemma_with_borrow(self, pending: bool)
        requires
            self.lent(pending),
            self.count <= MAX_REFCOUNT,
            !self.returned(),
        ensures
            self.with_borrow().lent(pending),
            self.with_borrow().borrowed(),
            self.with_borrow().borrows(pending) == self.borrows(pending) + 1,
    {
        let n = self.borrows(pending);
        if pending {
            assert(self.count == 1 + 2 * n);
            assert(self.with_borrow().count == 1 + 2 * (n + 1));
            assert(self.with_borrow().borrows(true) == n + 1);
        } else {
            assert(self.count == 3 + 2 * n);
            assert(self.with_borrow().count == 3 + 2 * (n + 1));
            assert(self.with_borrow().borrows(false) == n + 1);
        }
    }

    /// A borrow can be added to a value that is borrowed, or that has an owner
    /// that does not wait.
    #[verifier::spinoff_prover]
    pub proof fn lemma_with_borrow_borrowed(self)
        requires
            self.borrowed() || self.lent(false),
            self.count <= MAX_REFCOUNT,
        ensures
            self.with_borrow().borrowed(),
    {
        if self.waker is Some {
            let n = self.borrows(true);
            assert(self.count == 1 + 2 * n);
            assert(self.with_borrow().count == 1 + 2 * (n + 1));
            assert(self.with_borrow().borrows(true) == n + 1);
        } else if self.count % 2 == 1 {
            let n = self.borrows(false);
            assert(self.count == 3 + 2 * n);
            assert(self.with_borrow().count == 3 + 2 * (n + 1));
            assert(self.with_borrow().borrows(false) == n + 1);
        } else {
            let n = (self.count / 2) as nat;
            assert(self.count == 2 * n);
            assert(self.with_borrow().count == 2 * (n + 1));
            assert(self.with_borrow().count / 2 == n + 1);
        }
    }

    /// A borrow has been returned. If it was the last one that a waiting
    /// owner was left with, the owner has been woken.
    pub open spec fn without_borrow(self) -> Mem<W> {
        if self.count == 3 {
            Mem { count: 2, waker: None, woken: self.woken.push(self.waker->0) }
        } else {
            Mem { count: (self.count - 2) as usize, ..self }
        }
    }

    /// The outcome of trying to collect: whether all borrows have been
    /// returned, and the memory, in which the owner does not wait if so.
    pub open spec fn try_result(self, pending: bool) -> (bool, Mem<W>) {
        if self.borrows(pending) == 0 {
            (true, Mem { count: 3, ..self })
        } else {
            (false, self)
        }
    }

    /// The outcome of polling: whether all borrows have been returned, and
    /// the memory, in which the owner waits with the waker if not.
    pub open spec fn poll_result(self, pending: bool, waker: W) -> (Poll<()>, Mem<W>) {
        if self.borrows(pending) == 0 {
            (Poll::Ready(()), Mem { count: 3, ..self })
        } else {
            (
                Poll::Pending,
                Mem {
                    count: (1 + 2 * self.borrows(pending)) as usize,
                    waker: Some(waker),
                    woken: self.woken,
                },
            )
        }
    }

    /// The owner has stopped waiting.
    pub open spec fn cancelled(self) -> Mem<W> {
        Mem { count: (3 + 2 * self.borrows(true)) as usize, waker: None, woken: self.woken }
    }

    /// The owner has gone and the borrows are left.
    pub open spec fn without_owner(self, pending: bool) -> Mem<W> {
        Mem { count: (2 * self.borrows(pending)) as usize, waker: None, woken: self.woken }
    }

    /// The accesses to the waker cell find it as they need it.
    pub open spec fn acts_ok(self, acts: Acts, own: Option<W>) -> bool {
        &&& (acts.wake_stored || acts.drop_waker) ==> self.waker is Some
        &&& acts.store_waker ==> own is Some && (self.waker is None || acts.drop_waker
            || acts.wake_stored)
        &&& acts.wake_own ==> own is Some
        &&& !(acts.store_waker && acts.wake_own)
        &&& !(acts.wake_stored && acts.drop_waker)
    }

    /// What the accesses to the waker cell do to the memory.
    pub open spec fn acts_mem(self, acts: Acts, own: Option<W>) -> Mem<W> {
        Mem {
            count: self.count,
            waker: if acts.store_waker {
                own
            } else if acts.wake_stored || acts.drop_waker {
                None
            } else {
                self.waker
            },
            woken: if acts.wake_stored {
                self.woken.push(self.waker->0)
            } else if acts.wake_own {
                self.woken.push(own->0)
            } else {
                self.woken
            },
        }
    }

    /// What they leave of the waker that was passed in.
    pub open spec fn acts_own(self, acts: Acts, own: Option<W>) -> Option<W> {
        if acts.store_waker || acts.wake_own {
            None
        } else {
            own
        }
    }

    /// The memory after the atomic operation of a step.
    pub open spec fn after_op(self, call: Call, at: At, spurious: bool) -> Mem<W> {
        Mem { count: at.op_at(call).result(self.count, spurious), ..self }
    }

    /// The accesses of a step, and the point after it.
    pub open spec fn step_at(self, call: Call, at: At, spurious: bool) -> (Acts, At) {
        at.step_at(call, at.op_at(call).seen(self.count, spurious))
    }

    /// The outcome of taking at most `fuel` steps, with no step of another party in between.
    pub open spec fn run(self, fuel: nat, call: Call, at: At, own: Option<W>) -> (Mem<W>, At)
        decreases fuel,
    {
        if fuel == 0 || at is End {
            (self, at)
        } else {
            let (acts, next) = self.step_at(call, at, false);
            let met = self.after_op(call, at, false);
            met.acts_mem(acts, own).run((fuel - 1) as nat, call, next, met.acts_own(acts, own))
        }
    }

    /// Every step of such a run finds the waker cell as it needs it.
    pub open spec fn run_ok(self, fuel: nat, call: Call, at: At, own: Option<W>) -> bool
        decreases fuel,
    {
        if fuel == 0 || at is End {
            at is End
        } else {
            let (acts, next) = self.step_at(call, at, false);
            let met = self.after_op(call, at, false);
            &&& met.acts_ok(acts, own)
            &&& met.acts_mem(acts, own).run_ok(
                (fuel - 1) as nat,
                call,
                next,
                met.acts_own(acts, own),
            )
        }
    }

    /// The number of borrows, where one is out or the owner does not wait.
    pub open spec fn borrow_count(self) -> int {
        if self.waker is Some || self.count % 2 == 0 {
            self.count as int / 2
        } else {
            self.count as int / 2 - 1
        }
    }

    /// That number is what the counter stands for.
    #[verifier::spinoff_prover]
    proof fn lemma_borrow_count(self)
        ensures
            forall|n: nat| #[trigger] self.owned(n) ==> self.borrow_count() == n,
            forall|n: nat| #[trigger] self.collecting(n) ==> self.borrow_count() == n,
            forall|n: nat| #[trigger] self.orphaned(n) ==> self.borrow_count() == n,
    {
        assert forall|n: nat| #[trigger] self.owned(n) implies self.borrow_count() == n by {
            assert(self.count == 3 + 2 * n);
        }
        assert forall|n: nat| #[trigger] self.collecting(n) implies self.borrow_count() == n by {
            assert(self.count == 1 + 2 * n);
        }
        assert forall|n: nat| #[trigger] self.orphaned(n) implies self.borrow_count() == n by {
            assert(self.count == 2 * n);
        }
    }
}

impl<W> Mem<W> {
    #[verifier::spinoff_prover]
    proof fn lemma_cancel_run(self, reset: bool)
        requires
            self.lent(true),
            self.bounded(),
        ensures
            ({
                let call = Call::CancelPoll { reset };
                let last = self.returned();
                &&& self.run_ok(4, call, At::CancelBegin, None)
                &&& self.run(4, call, At::CancelBegin, None) == (
                    if last && !reset {
                        self
                    } else {
                        self.cancelled()
                    },
                    At::End(End::Cancelled { last }),
                )
            }),
    {
        let call = Call::CancelPoll { reset };
        let own: Option<W> = None;
        if self.returned() {
            reveal_with_fuel(Mem::run, 3);
            reveal_with_fuel(Mem::run_ok, 3);
        } else {
            let hold = At::CancelHold { count: self.count };
            assert(self.count.wrapping_add(2) == self.count + 2);
            assert(self.run(4, call, At::CancelBegin, own) == self.run(3, call, hold, own));
            assert(self.run_ok(4, call, At::CancelBegin, own) == self.run_ok(3, call, hold, own));
            reveal_with_fuel(Mem::run, 2);
            reveal_with_fuel(Mem::run_ok, 2);
        }
    }

    #[verifier::spinoff_prover]
    proof fn lemma_resume_run(self, waker: W)
        requires
            self.lent(true),
            self.bounded(),
        ensures
            ({
                let call = Call::ResumePoll;
                let (result, mem) = self.poll_result(true, waker);
                &&& self.run_ok(4, call, At::ResumeBegin, Some(waker))
                &&& self.run(4, call, At::ResumeBegin, Some(waker)) == (
                    mem,
                    At::End(
                        if result is Ready {
                            End::Ready
                        } else {
                            End::Pending
                        },
                    ),
                )
            }),
    {
        let call = Call::ResumePoll;
        let own: Option<W> = Some(waker);
        if self.returned() {
            reveal_with_fuel(Mem::run, 3);
            reveal_with_fuel(Mem::run_ok, 3);
        } else {
            let hold = At::ResumeHold { count: self.count };
            let held = Mem { count: (self.count + 2) as usize, waker: own, woken: self.woken };
            assert(self.count.wrapping_add(2) == self.count + 2);
            assert(held.count.wrapping_sub(2) == self.count);
            assert(self.run(4, call, At::ResumeBegin, own) == self.run(3, call, hold, own));
            assert(self.run_ok(4, call, At::ResumeBegin, own) == self.run_ok(3, call, hold, own));
            assert(self.run(3, call, hold, own) == held.run(2, call, At::ResumeRelease, None));
            assert(self.run_ok(3, call, hold, own) == held.run_ok(
                2,
                call,
                At::ResumeRelease,
                None,
            ));
            reveal_with_fuel(Mem::run, 2);
            reveal_with_fuel(Mem::run_ok, 2);
        }
    }

    #[verifier::spinoff_prover]
    proof fn lemma_drop_run(self, pending: bool)
        requires
            self.lent(pending),
            self.bounded(),
        ensures
            ({
                let call = Call::DropLender { pending };
                let (mem, at) = self.run(4, call, call.start(), None);
                &&& self.run_ok(4, call, call.start(), None)
                &&& at == At::End(
                    if self.borrows(pending) == 0 {
                        End::Free
                    } else {
                        End::Kept
                    },
                )
                &&& self.borrows(pending) > 0 ==> mem == self.without_owner(pending)
            }),
    {
        let call = Call::DropLender { pending };
        if !pending {
            reveal_with_fuel(Mem::run, 2);
            reveal_with_fuel(Mem::run_ok, 2);
            assert(self.count.wrapping_sub(3) == self.count - 3);
        } else if self.returned() {
            reveal_with_fuel(Mem::run, 2);
            reveal_with_fuel(Mem::run_ok, 2);
        } else {
            let own: Option<W> = None;
            let hold = At::CancelHold { count: self.count };
            let held = Mem { count: (self.count + 2) as usize, waker: None, woken: self.woken };
            assert(self.count.wrapping_add(2) == self.count + 2);
            assert(held.count.wrapping_sub(3) == self.count - 1);
            assert(self.run(4, call, At::CancelBegin, own) == self.run(3, call, hold, own));
            assert(self.run_ok(4, call, At::CancelBegin, own) == self.run_ok(3, call, hold, own));
            assert(self.run(3, call, hold, own) == held.run(2, call, At::DropRelease, own));
            assert(self.run_ok(3, call, hold, own) == held.run_ok(2, call, At::DropRelease, own));
            reveal_with_fuel(Mem::run, 2);
            reveal_with_fuel(Mem::run_ok, 2);
        }
    }
}

/// No uninterrupted operation takes more steps than this.
pub const RUN_LIMIT: usize = 4;

/// A value, and what is needed to share it. The wakers that operations call
/// are collected in order.
#[derive(Debug)]
pub struct SharedInner<T, W> {
    count: usize,
    waker: Maybe<W>,
    woken: Vec<W>,
    value: T,
}

impl<T, W> View for SharedInner<T, W> {
    type V = Mem<W>;

    closed spec fn view(&self) -> Mem<W> {
        Mem { count: self.count, waker: self.waker.stored(), woken: self.woken@ }
    }
}

impl<T, W> SharedInner<T, W> {
    /// The waker cell knows whether it is loaded.
    pub closed spec fn wf(&self) -> bool {
        self.waker.consistent()
    }

    /// The value is in order between two operations.
    pub open spec fn at_rest(&self) -> bool {
        self.wf() && self@.bounded()
    }

    /// The shared value.
    pub closed spec fn value(&self) -> T {
        self.value
    }

    /// A value with an owner and no borrows.
    pub fn new(value: T) -> (inner: Self)
        ensures
            inner.at_rest(),
            inner.value() == value,
            inner@.owned(0),
            inner@.woken == Seq::<W>::empty(),
    {
        SharedInner { count: 3, waker: Maybe::empty(), woken: Vec::new(), value }
    }

    /// Allocate a value with an owner and no borrows.
    pub fn boxed(heap: &mut Heap<SharedInner<T, W>>, value: T) -> (inner: BoxPtr<SharedInner<T, W>>)
        requires
            old(heap).issued() < usize::MAX,
        ensures
            !old(heap).has(inner),
            final(heap).has(inner),
            final(heap)@.remove(inner.addr()) == old(heap)@,
            final(heap).issued() == old(heap).issued() + 1,
            final(heap).at(inner).at_rest(),
            final(heap).at(inner).value() == value,
            final(heap).at(inner)@.owned(0),
            final(heap).at(inner)@.woken == Seq::<W>::empty(),
    {
        let inner = BoxPtr::allocate(heap, SharedInner::new(value));
        assert(heap@.remove(inner.addr()) =~= old(heap)@);
        inner
    }

    /// Unwrap the value.
    pub fn into_inner(self) -> (value: T)
        ensures
            value == self.value(),
    {
        self.value
    }

    /// The shared value.
    pub fn as_ref(&self) -> (value: &T)
        ensures
            *value == self.value(),
    {
        &self.value
    }

    /// The shared value, for the owner that has it to itself.
    pub fn as_mut(&mut self) -> (value: &mut T)
        ensures
            *value == old(self).value(),
            final(self).value() == *final(value),
            final(self)@ == old(self)@,
            final(self).at_rest() == old(self).at_rest(),
    {
        &mut self.value
    }

    /// The number of borrows, also while the owner waits for them, and once it
    /// is gone. An owner that waits and has all borrows back is not to ask:
    /// its counter is that of a last borrow.
    pub fn borrow_count(&self) -> (count: usize)
        requires
            self.at_rest(),
            self@.borrowed() || self@.lent(false),
        ensures
            count == self@.borrow_count(),
            forall|n: nat| #[trigger] self@.owned(n) ==> count == n,
            forall|n: nat| #[trigger] self@.collecting(n) ==> count == n,
            forall|n: nat| #[trigger] self@.orphaned(n) ==> count == n,
    {
        proof {
            self@.lemma_borrow_count();
        }
        if self.waker.is_loaded() || self.count % 2 == 0 {
            self.count / 2
        } else {
            self.count / 2 - 1
        }
    }

    /// Tell whether another borrow can be added.
    pub fn has_room(&self) -> (yes: bool)
        ensures
            yes == (self@.count <= MAX_REFCOUNT),
    {
        self.count <= MAX_REFCOUNT
    }

    /// Tell whether the owner waits no more for any borrow.
    pub fn is_returned(&self) -> (yes: bool)
        ensures
            yes == (self@.count == 2),
    {
        self.count == 2
    }

    /// The wakers called so far, oldest first, are handed out and forgotten.
    pub fn take_woken(&mut self) -> (woken: Vec<W>)
        ensures
            woken@ == old(self)@.woken,
            final(self)@ == (Mem { woken: Seq::<W>::empty(), ..old(self)@ }),
            final(self).at_rest() == old(self).at_rest(),
            final(self).value() == old(self).value(),
    {
        let mut woken: Vec<W> = Vec::new();
        core::mem::swap(&mut woken, &mut self.woken);
        woken
    }

    /// Take one step of an operation: one atomic operation on the counter and
    /// the accesses to the waker cell that follow it.
    pub fn step(&mut self, call: Call, at: At, own: &mut Option<W>, spurious: bool) -> (next: At)
        requires
            old(self).wf(),
            old(self)@.after_op(call, at, spurious).acts_ok(
                old(self)@.step_at(call, at, spurious).0,
                *old(own),
            ),
        ensures
            final(self).wf(),
            final(self).value() == old(self).value(),
            next == old(self)@.step_at(call, at, spurious).1,
            final(self)@ == old(self)@.after_op(call, at, spurious).acts_mem(
                old(self)@.step_at(call, at, spurious).0,
                *old(own),
            ),
            *final(own) == old(self)@.after_op(call, at, spurious).acts_own(
                old(self)@.step_at(call, at, spurious).0,
                *old(own),
            ),
    {
        let op: CountOp = at.op(call);
        let seen: CountSeen = op.apply(&mut self.count, spurious);
        let (acts, next) = at.next(call, seen);
        if acts.wake_stored {
            let waker = self.waker.load();
            self.woken.push(waker);
        } else if acts.drop_waker {
            self.waker.clear();
        }
        if acts.store_waker {
            let waker = own.take();
            self.waker.store(waker.unwrap());
        }
        if acts.wake_own {
            let waker = own.take();
            if !acts.wake_stored {
                self.woken.push(waker.unwrap());
            }
        }
        next
    }

    /// Run an operation to its end.
    fn run(&mut self, call: Call, waker: Option<W>) -> (end: At)
        requires
            old(self).wf(),
            old(self)@.run_ok(4, call, call.start(), waker),
        ensures
            final(self).wf(),
            final(self).value() == old(self).value(),
            (final(self)@, end) == old(self)@.run(4, call, call.start(), waker),
            end is End,
    {
        let mut own: Option<W> = waker;
        let mut at: At = call.begin();
        let mut fuel: usize = RUN_LIMIT;
        while fuel > 0
            invariant
                fuel <= RUN_LIMIT,
                self.wf(),
                self.value() == old(self).value(),
                self@.run_ok(fuel as nat, call, at, own),
                self@.run(fuel as nat, call, at, own) == old(self)@.run(
                    4,
                    call,
                    call.start(),
                    waker,
                ),
            decreases fuel,
        {
            if let At::End(_) = at {
                return at;
            }
            at = self.step(call, at, &mut own, false);
            fuel = fuel - 1;
        }
        at
    }

    /// Add a borrow.
    pub fn inc_count_ref(&mut self)
        requires
            old(self).at_rest(),
            old(self)@.count <= MAX_REFCOUNT,
        ensures
            final(self).at_rest(),
            final(self).value() == old(self).value(),
            final(self)@ == old(self)@.with_borrow(),
    {
        proof {
            reveal_with_fuel(Mem::run, 3);
            reveal_with_fuel(Mem::run_ok, 3);
        }
        let _ = self.run(Call::IncCountRef, None);
    }

    /// Return a borrow. True if nothing refers to the value any more: it is
    /// then to be freed. An owner that waits for the last borrow is woken.
    pub fn dec_count_ref(&mut self) -> (last: bool)
        requires
            old(self).at_rest(),
            old(self)@.borrowed(),
        ensures
            final(self).at_rest(),
            final(self).value() == old(self).value(),
            last == old(self)@.orphaned(1),
            final(self)@ == old(self)@.without_borrow(),
    {
        proof {
            reveal_with_fuel(Mem::run, 4);
            reveal_with_fuel(Mem::run_ok, 4);
        }
        let end = self.run(Call::DecCountRef, None);
        matches!(end, At::End(End::Free))
    }

    /// Find out whether all borrows have been returned. If so, the owner waits no longer.
    pub fn try_collect(&mut self, pending: bool) -> (collected: bool)
        requires
            old(self).at_rest(),
            old(self)@.lent(pending),
        ensures
            final(self).at_rest(),
            final(self).value() == old(self).value(),
            (collected, final(self)@) == old(self)@.try_result(pending),
    {
        proof {
            reveal_with_fuel(Mem::run, 4);
            reveal_with_fuel(Mem::run_ok, 4);
        }
        let end = self.run(Call::TryCollect { pending }, None);
        matches!(end, At::End(End::Ready))
    }

    /// Start to wait for the borrows to be returned.
    pub fn start_poll(&mut self, waker: W) -> (result: Poll<()>)
        requires
            old(self).at_rest(),
            old(self)@.lent(false),
        ensures
            final(self).at_rest(),
            final(self).value() == old(self).value(),
            (result, final(self)@) == old(self)@.poll_result(false, waker),
    {
        proof {
            reveal_with_fuel(Mem::run, 5);
            reveal_with_fuel(Mem::run_ok, 5);
        }
        let end = self.run(Call::StartPoll, Some(waker));
        match end {
            At::End(End::Ready) => Poll::Ready(()),
            _ => Poll::Pending,
        }
    }

    /// Go on waiting for the borrows to be returned, with another waker.
    pub fn resume_poll(&mut self, waker: W) -> (result: Poll<()>)
        requires
            old(self).at_rest(),
            old(self)@.lent(true),
        ensures
            final(self).at_rest(),
            final(self).value() == old(self).value(),
            (result, final(self)@) == old(self)@.poll_result(true, waker),
    {
        proof {
            self@.lemma_resume_run(waker);
        }
        let end = self.run(Call::ResumePoll, Some(waker));
        match end {
            At::End(End::Ready) => Poll::Ready(()),
            _ => Poll::Pending,
        }
    }

    /// Stop waiting. True if all borrows had been returned. The owner counts
    /// in full again if it is to stay, and in any case if borrows are left.
    pub fn cancel_poll(&mut self, reset: bool) -> (last: bool)
        requires
            old(self).at_rest(),
            old(self)@.lent(true),
        ensures
            final(self).at_rest(),
            final(self).value() == old(self).value(),
            last == old(self)@.returned(),
            final(self)@ == (if last && !reset {
                old(self)@
            } else {
                old(self)@.cancelled()
            }),
    {
        proof {
            self@.lemma_cancel_run(reset);
        }
        let end = self.run(Call::CancelPoll { reset }, None);
        matches!(end, At::End(End::Cancelled { last: true }))
    }

    /// The owner goes away. True if nothing refers to the value any more: it
    /// is then to be freed.
    pub fn drop_lender(&mut self, pending: bool) -> (last: bool)
        requires
            old(self).at_rest(),
            old(self)@.lent(pending),
        ensures
            final(self).value() == old(self).value(),
            last == (old(self)@.borrows(pending) == 0),
            !last ==> final(self).at_rest(),
            !last ==> final(self)@ == old(self)@.without_owner(pending),
    {
        proof {
            self@.lemma_drop_run(pending);
        }
        let end = self.run(Call::DropLender { pending }, None);
        matches!(end, At::End(End::Free))
    }
}

} // verus!
