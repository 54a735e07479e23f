//! Provide an equivalent of `Lender` that is pinned to the stack
//! and can be used to track task completion.

use core::marker::PhantomData;

use vstd::prelude::*;

use crate::poll::Poll;
use crate::shared::memory::{Mem, SharedInner};
use crate::shared::step::MAX_REFCOUNT;

verus! {

/// The memory of a scope: the value that is tracked in it.
pub struct ScopeInner<T, W> {
    inner: SharedInner<T, W>,
    id: Ghost<int>,
}

impl<T, W> View for ScopeInner<T, W> {
    type V = Mem<W>;

    closed spec fn view(&self) -> Mem<W> {
        self.inner@
    }
}

impl<T, W> ScopeInner<T, W> {
    /// Which scope it is. Nothing tells that two scopes made apart are the same.
    pub closed spec fn id(&self) -> int {
        self.id@
    }

    /// The tracked value.
    pub closed spec fn value(&self) -> T {
        self.inner.value()
    }

    /// The value is in order between two operations.
    pub closed spec fn at_rest(&self) -> bool {
        self.inner.at_rest()
    }

    /// Tell whether another tracker can be added.
    pub fn has_room(&self) -> (yes: bool)
        ensures
            yes == (self@.count <= MAX_REFCOUNT),
    {
        self.inner.has_room()
    }

    /// The wakers called so far, oldest first, are handed out and forgotten.
    pub fn take_woken(&mut self) -> (woken: Vec<W>)
        ensures
            woken@ == old(self)@.woken,
            final(self)@ == (Mem { woken: Seq::<W>::empty(), ..old(self)@ }),
            final(self).at_rest() == old(self).at_rest(),
            final(self).value() == old(self).value(),
            final(self).id() == old(self).id(),
    {
        self.inner.take_woken()
    }
}

/// A tracking value which notifies its source when dropped. It holds no
/// address: its operations are handed the scope in which it tracks.
pub struct Scoped<T, W> {
    marker: PhantomData<(T, W)>,
    id: Ghost<int>,
}

impl<T, W> Scoped<T, W> {
    /// Which scope the tracker belongs to.
    pub closed spec fn id(&self) -> int {
        self.id@
    }

    /// Track a value.
    fn new(inner: &mut ScopeInner<T, W>) -> (scoped: Self)
        requires
            old(inner).at_rest(),
            old(inner)@.count <= MAX_REFCOUNT,
        ensures
            scoped.id() == old(inner).id(),
            final(inner).at_rest(),
            final(inner).value() == old(inner).value(),
            final(inner).id() == old(inner).id(),
            final(inner)@ == old(inner)@.with_borrow(),
    {
        inner.inner.inc_count_ref();
        Scoped { marker: PhantomData, id: inner.id }
    }

    /// Get the current number of borrows, including this one.
    pub fn borrow_count(&self, inner: &ScopeInner<T, W>) -> (count: usize)
        requires
            self.id() == inner.id(),
            inner.at_rest(),
            inner@.borrowed(),
        ensures
            count == inner@.borrow_count(),
            forall|n: nat| #[trigger] inner@.owned(n) ==> count == n,
            forall|n: nat| #[trigger] inner@.collecting(n) ==> count == n,
            forall|n: nat| #[trigger] inner@.orphaned(n) ==> count == n,
    {
        inner.inner.borrow_count()
    }

    /// The tracked value.
    pub fn as_ref<'a>(&self, inner: &'a ScopeInner<T, W>) -> (value: &'a T)
        requires
            self.id() == inner.id(),
        ensures
            *value == inner.value(),
    {
        inner.inner.as_ref()
    }

    /// Add another tracker.
    pub fn clone(&self, inner: &mut ScopeInner<T, W>) -> (scoped: Self)
        requires
            self.id() == old(inner).id(),
            old(inner).at_rest(),
            old(inner)@.borrowed(),
            old(inner)@.count <= MAX_REFCOUNT,
        ensures
            scoped.id() == self.id(),
            final(inner).at_rest(),
            final(inner)@.borrowed(),
            final(inner).value() == old(inner).value(),
            final(inner).id() == old(inner).id(),
            final(inner)@ == old(inner)@.with_borrow(),
    {
        proof {
            inner@.lemma_with_borrow_borrowed();
        }
        Scoped::new(inner)
    }

    /// Track the value no more. An owner that waits for the last tracker is woken.
    pub fn drop(self, inner: &mut ScopeInner<T, W>)
        requires
            self.id() == old(inner).id(),
            old(inner).at_rest(),
            old(inner)@.borrowed(),
        ensures
            final(inner).at_rest(),
            final(inner).value() == old(inner).value(),
            final(inner).id() == old(inner).id(),
            final(inner)@ == old(inner)@.without_borrow(),
    {
        let _ = inner.inner.dec_count_ref();
    }
}

/// Waits for the trackers of a scope to be dropped.
#[derive(Debug)]
struct CollectOnDrop {
    first: bool,
}

impl CollectOnDrop {
    /// One turn of waiting. The first one starts to wait, the others resume.
    fn turn<T, W>(&mut self, inner: &mut SharedInner<T, W>, waker: W) -> (result: Poll<()>)
        requires
            old(inner).at_rest(),
            old(inner)@.lent(!old(self).first),
        ensures
            final(inner).at_rest(),
            final(inner).value() == old(inner).value(),
            (result, final(inner)@) == old(inner)@.poll_result(!old(self).first, waker),
            final(inner)@.lent(result is Pending),
            final(self).first == (old(self).first && result is Ready),
    {
        if self.first {
            if inner.try_collect(false) {
                return Poll::Ready(());
            }
            let result = inner.start_poll(waker);
            if result.is_pending() {
                self.first = false;
            }
            result
        } else {
            inner.resume_poll(waker)
        }
    }
}

/// Pin a value to the stack while it is being shared.
pub struct PinShared<T, W> {
    inner: ScopeInner<T, W>,
    collect: CollectOnDrop,
}

impl<T, W> View for PinShared<T, W> {
    type V = Mem<W>;

    closed spec fn view(&self) -> Mem<W> {
        self.inner@
    }
}

impl<T, W> PinShared<T, W> {
    /// The shared value.
    pub closed spec fn value(&self) -> T {
        self.inner.value()
    }

    /// Which scope it is.
    pub closed spec fn id(&self) -> int {
        self.inner.id()
    }

    /// The scope is left and trackers remain.
    pub closed spec fn pending(&self) -> bool {
        !self.collect.first
    }

    /// The value is in order between two operations.
    pub closed spec fn wf(&self) -> bool {
        self.inner.at_rest() && self.inner@.lent(!self.collect.first)
    }

    /// Construct a new `PinShared`.
    pub fn new(data: T) -> (shared: Self)
        ensures
            shared.wf(),
            !shared.pending(),
            shared.value() == data,
            shared@.owned(0),
            shared@.woken == Seq::<W>::empty(),
    {
        PinShared {
            inner: ScopeInner {
                inner: SharedInner::new(data),
                id: Ghost(vstd::pervasive::arbitrary()),
            },
            collect: CollectOnDrop { first: true },
        }
    }

    /// What the function that is evaluated in a scope is handed: a tracker of
    /// the value, and no other is there.
    pub open spec fn enters(
        scoped: Scoped<T, W>,
        inner: ScopeInner<T, W>,
        value: T,
        woken: Seq<W>,
    ) -> bool {
        &&& scoped.id() == inner.id()
        &&& inner.at_rest()
        &&& inner@.owned(1)
        &&& inner.value() == value
        &&& inner@.woken == woken
    }

    /// What the function may leave behind: any number of trackers.
    pub open spec fn leaves(inner: ScopeInner<T, W>, id: int, value: T) -> bool {
        &&& inner.id() == id
        &&& inner.at_rest()
        &&& inner@.lent(false)
        &&& inner.value() == value
    }

    /// Evaluate a function in the context of the shared value. If trackers of
    /// the value remain afterwards, the scope is to be left by [`PinShared::finish`],
    /// which tells when the last of them has been dropped.
    pub fn with<R, F: FnOnce(Scoped<T, W>, &mut ScopeInner<T, W>) -> R>(
        &mut self,
        f: F,
        waker: W,
    ) -> (result: R)
        requires
            old(self).wf(),
            !old(self).pending(),
            old(self)@.owned(0),
            forall|scoped: Scoped<T, W>, m: &mut ScopeInner<T, W>|
                m.id() == old(self).id() && Self::enters(
                    scoped,
                    *m,
                    old(self).value(),
                    old(self)@.woken,
                ) ==> #[trigger] f.requires((scoped, m)),
            forall|scoped: Scoped<T, W>, m: &mut ScopeInner<T, W>, r: R|
                m.id() == old(self).id() && Self::enters(
                    scoped,
                    *m,
                    old(self).value(),
                    old(self)@.woken,
                ) && #[trigger] f.ensures((scoped, m), r) ==> Self::leaves(
                    *final(m),
                    m.id(),
                    old(self).value(),
                ),
        ensures
            final(self).wf(),
            final(self).value() == old(self).value(),
            final(self).id() == old(self).id(),
            exists|scoped: Scoped<T, W>, m: &mut ScopeInner<T, W>|
                {
                    &&& m.id() == old(self).id()
                    &&& Self::enters(scoped, *m, old(self).value(), old(self)@.woken)
                    &&& #[trigger] f.ensures((scoped, m), result)
                    &&& final(self)@ == final(m)@.poll_result(false, waker).1
                    &&& final(self).pending() == !final(m)@.owned(0)
                },
    {
        let scoped = Scoped::new(&mut self.inner);
        let value = f(scoped, &mut self.inner);
        let ghost left = self.inner;
        assert(Self::leaves(left, old(self).id(), old(self).value()));
        let _ = self.collect.turn(&mut self.inner.inner, waker);
        assert(self@ == left@.poll_result(false, waker).1);
        value
    }

    /// Tell whether the scope is to be finished.
    pub fn is_pending(&self) -> (pending: bool)
        ensures
            pending == self.pending(),
    {
        !self.collect.first
    }

    /// One turn of waiting for the remaining trackers to be dropped.
    pub fn finish(&mut self, waker: W) -> (result: Poll<()>)
        requires
            old(self).wf(),
            old(self).pending(),
        ensures
            final(self).wf(),
            final(self).value() == old(self).value(),
            final(self).id() == old(self).id(),
            (result, final(self)@) == old(self)@.poll_result(true, waker),
            final(self).pending() == (result is Pending),
            result is Ready ==> final(self)@.owned(0),
    {
        let result = self.collect.turn(&mut self.inner.inner, waker);
        if result.is_ready() {
            self.collect = CollectOnDrop { first: true };
        }
        result
    }

    /// The memory in which the remaining trackers are to be dropped.
    pub fn scope(&mut self) -> (inner: &mut ScopeInner<T, W>)
        requires
            old(self).wf(),
        ensures
            inner.at_rest(),
            inner@ == old(self)@,
            inner.value() == old(self).value(),
            inner.id() == old(self).id(),
            final(self)@ == final(inner)@,
            final(self).id() == final(inner).id(),
            final(self).value() == final(inner).value(),
            final(self).pending() == old(self).pending(),
            final(inner).at_rest() && final(inner)@.lent(old(self).pending()) ==> final(self).wf(),
    {
        &mut self.inner
    }

    /// Unwrap the contained value.
    pub fn into_inner(self) -> (value: T)
        requires
            self.wf(),
            !self.pending(),
        ensures
            value == self.value(),
    {
        self.inner.inner.into_inner()
    }
}

/// Run a function, and then wait until all trackers produced by the function
/// have been dropped: if some remain, the scope is handed out to be finished.
/// This can be used to track the completion across threads.
pub fn with_scope<R, W, F: FnOnce(Scoped<(), W>, &mut ScopeInner<(), W>) -> R>(
    f: F,
    waker: W,
    rest: &mut Option<PinShared<(), W>>,
) -> (result: R)
    requires
        forall|scoped: Scoped<(), W>, m: &mut ScopeInner<(), W>|
            PinShared::<(), W>::enters(scoped, *m, (), Seq::empty()) ==> #[trigger] f.requires((scoped, m)),
        forall|scoped: Scoped<(), W>, m: &mut ScopeInner<(), W>, r: R|
            PinShared::<(), W>::enters(scoped, *m, (), Seq::empty()) && #[trigger] f.ensures(
                (scoped, m),
                r,
            ) ==> PinShared::<(), W>::leaves(*final(m), m.id(), ()),
    ensures
        exists|scoped: Scoped<(), W>, m: &mut ScopeInner<(), W>|
            {
                &&& PinShared::<(), W>::enters(scoped, *m, (), Seq::empty())
                &&& #[trigger] f.ensures((scoped, m), result)
                &&& match *final(rest) {
                    None => final(m)@.owned(0),
                    Some(scope) => {
                        &&& scope.wf()
                        &&& scope.id() == m.id()
                        &&& scope.pending()
                        &&& scope@ == final(m)@.poll_result(false, waker).1
                        &&& !final(m)@.owned(0)
                    },
                }
            },
{
    let mut scope = PinShared::new(());
    let result = scope.with(f, waker);
    *rest = if scope.is_pending() {
        Some(scope)
    } else {
        None
    };
    result
}

/// There is one tracker more, and nothing else has changed.
pub proof fn law_scoped_clone<T, W>(
    scoped: &Scoped<T, W>,
    inner: &mut ScopeInner<T, W>,
    other: Scoped<T, W>,
)
    requires
        inner@.count <= MAX_REFCOUNT,
        call_ensures(Scoped::<T, W>::clone, (scoped, inner), other),
    ensures
        other.id() == scoped.id(),
        final(inner)@.count == old(inner)@.count + 2,
        final(inner)@.waker == old(inner)@.waker,
        final(inner)@.woken == old(inner)@.woken,
        final(inner).value() == old(inner).value(),
        final(inner).id() == old(inner).id(),
{
}

/// A tracker that is dropped counts no more. The last one calls the scope that waits
/// for it, and no other does.
pub proof fn law_scoped_drop<T, W>(scoped: Scoped<T, W>, inner: &mut ScopeInner<T, W>)
    requires
        inner@.count > 2,
        inner@.count == 3 ==> inner@.waker is Some,
        call_ensures(Scoped::<T, W>::drop, (scoped, inner), ()),
    ensures
        old(inner)@.count > 3 ==> {
            &&& final(inner)@.count == old(inner)@.count - 2
            &&& final(inner)@.waker == old(inner)@.waker
            &&& final(inner)@.woken == old(inner)@.woken
        },
        old(inner)@.count == 3 ==> {
            &&& final(inner)@.count == 2
            &&& final(inner)@.waker is None
            &&& final(inner)@.woken == old(inner)@.woken.push(old(inner)@.waker->0)
        },
        final(inner).value() == old(inner).value(),
        final(inner).id() == old(inner).id(),
{
}

/// The function is evaluated once, with the one tracker that there is. The scope is
/// left at once if it leaves no tracker behind, and waits for them otherwise.
pub proof fn law_with<T, W, R, F: FnOnce(Scoped<T, W>, &mut ScopeInner<T, W>) -> R>(
    shared: &mut PinShared<T, W>,
    f: F,
    waker: W,
    result: R,
)
    requires
        call_ensures(PinShared::<T, W>::with::<R, F>, (shared, f, waker), result),
    ensures
        exists|scoped: Scoped<T, W>, m: &mut ScopeInner<T, W>|
            {
                &&& #[trigger] f.ensures((scoped, m), result)
                &&& scoped.id() == m.id()
                &&& m@.count == 5
                &&& m@.waker is None
                &&& m.value() == old(shared).value()
                &&& final(m)@.count == 3 && final(m)@.waker is None ==> {
                    &&& !final(shared).pending()
                    &&& final(shared)@.count == 3
                }
                &&& final(m)@.count > 3 && final(m)@.count % 2 == 1 && final(m)@.waker is None ==> {
                    &&& final(shared).pending()
                    &&& final(shared)@.count == final(m)@.count - 2
                    &&& final(shared)@.waker == Some(waker)
                }
            },
        final(shared).value() == old(shared).value(),
        final(shared).id() == old(shared).id(),
{
    let (scoped, m) = choose|scoped: Scoped<T, W>, m: &mut ScopeInner<T, W>|
        {
            &&& m.id() == old(shared).id()
            &&& PinShared::<T, W>::enters(scoped, *m, old(shared).value(), old(shared)@.woken)
            &&& #[trigger] f.ensures((scoped, m), result)
            &&& final(shared)@ == final(m)@.poll_result(false, waker).1
            &&& final(shared).pending() == !final(m)@.owned(0)
        };
    assert(f.ensures((scoped, m), result));
}

/// A scope that waits is left once no tracker is there, and waits on with the waker
/// that it came with last otherwise.
pub proof fn law_finish<T, W>(shared: &mut PinShared<T, W>, waker: W, n: nat, result: Poll<()>)
    requires
        n > 0 ==> shared@.count == 1 + 2 * n,
        n == 0 ==> shared@.count == 2 && shared@.waker is None,
        call_ensures(PinShared::<T, W>::finish, (shared, waker), result),
    ensures
        (result is Ready) == (n == 0),
        final(shared).pending() == (n > 0),
        n == 0 ==> final(shared)@.count == 3 && final(shared)@.waker is None,
        n > 0 ==> final(shared)@.count == 1 + 2 * n && final(shared)@.waker == Some(waker),
        final(shared)@.woken == old(shared)@.woken,
        final(shared).value() == old(shared).value(),
        final(shared).id() == old(shared).id(),
{
}

/// What a function in a scope gives is handed on, and the scope is handed out with
/// it as long as a tracker is left.
pub proof fn law_with_scope<R, W, F: FnOnce(Scoped<(), W>, &mut ScopeInner<(), W>) -> R>(
    f: F,
    waker: W,
    rest: &mut Option<PinShared<(), W>>,
    result: R,
)
    requires
        call_ensures(with_scope::<R, W, F>, (f, waker, rest), result),
    ensures
        exists|scoped: Scoped<(), W>, m: &mut ScopeInner<(), W>|
            {
                &&& #[trigger] f.ensures((scoped, m), result)
                &&& scoped.id() == m.id()
                &&& m@.count == 5
                &&& *final(rest) is None ==> final(m)@.count == 3
                &&& final(m)@.count == 3 && final(m)@.waker is None ==> *final(rest) is None
                &&& *final(rest) matches Some(scope) ==> scope.pending() && scope.id() == m.id()
            },
{
    let (scoped, m) = choose|scoped: Scoped<(), W>, m: &mut ScopeInner<(), W>|
        {
            &&& PinShared::<(), W>::enters(scoped, *m, (), Seq::empty())
            &&& #[trigger] f.ensures((scoped, m), result)
            &&& match *final(rest) {
                None => final(m)@.owned(0),
                Some(scope) => {
                    &&& scope.wf()
                    &&& scope.id() == m.id()
                    &&& scope.pending()
                    &&& scope@ == final(m)@.poll_result(false, waker).1
                    &&& !final(m)@.owned(0)
                },
            }
        };
    assert(f.ensures((scoped, m), result));
}

/// A value that is pinned has no trackers, and comes out again as it went in.
pub proof fn law_pin_and_unwrap<T, W>(value: T, shared: PinShared<T, W>, back: T)
    requires
        call_ensures(PinShared::<T, W>::new, (value,), shared),
        call_ensures(PinShared::<T, W>::into_inner, (shared,), back),
    ensures
        shared@.count == 3,
        shared@.waker is None,
        shared@.woken.len() == 0,
        !shared.pending(),
        back == value,
{
}

/// The wakers that were called are handed out, each once, in the order in which they
/// were called, and the scope is otherwise as it was.
pub proof fn law_take_woken<T, W>(inner: &mut ScopeInner<T, W>, woken: Vec<W>)
    requires
        call_ensures(ScopeInner::<T, W>::take_woken, (inner,), woken),
    ensures
        woken@ == old(inner)@.woken,
        final(inner)@.woken.len() == 0,
        final(inner)@.count == old(inner)@.count,
        final(inner)@.waker == old(inner)@.waker,
        final(inner).value() == old(inner).value(),
        final(inner).id() == old(inner).id(),
{
}

/// A tracker is told how many there are, whether the scope waits for them or not, and
/// gives the value that is tracked.
pub proof fn law_scoped_looks<T, W>(
    scoped: &Scoped<T, W>,
    inner: &ScopeInner<T, W>,
    n: nat,
    count: usize,
    value: &T,
)
    requires
        n > 0,
        ({
            ||| inner@.waker is None && inner@.count == 3 + 2 * n
            ||| inner@.waker is Some && inner@.count == 1 + 2 * n
        }),
        call_ensures(Scoped::<T, W>::borrow_count, (scoped, inner), count),
        call_ensures(Scoped::<T, W>::as_ref, (scoped, inner), value),
    ensures
        count == n,
        *value == inner.value(),
{
}

} // verus!
