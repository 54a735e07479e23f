//! Scopes: what is run on a pool within a scope ends before the scope does.

use vstd::prelude::*;

use crate::channel::memory::Channel;
use crate::exec::join::{JoinTask, Runnable};
use crate::exec::pool;
use crate::exec::threadpool;
use crate::poll::Poll;
use crate::scoped::{ScopeInner, Scoped};
use crate::shared::step::MAX_REFCOUNT;
use crate::util::Heap;

verus! {

/// A scope that counts what runs in it.
pub struct ThreadScope {
    counter: usize,
    id: Ghost<int>,
}

/// Something that runs in a scope.
pub struct TrackScope {
    id: Ghost<int>,
}

impl ThreadScope {
    /// How much runs in the scope.
    pub closed spec fn running(&self) -> nat {
        self.counter as nat
    }

    /// Which scope it is. Nothing tells that two scopes made apart are the same.
    pub closed spec fn id(&self) -> int {
        self.id@
    }

    /// A scope in which nothing runs.
    pub fn new() -> (scope: Self)
        ensures
            scope.running() == 0,
    {
        ThreadScope { counter: 0, id: Ghost(vstd::pervasive::arbitrary()) }
    }

    /// Run something on the pool, within the scope. If the pool has panicked
    /// before, nothing is run, and the caller is to panic.
    pub fn run<R, P>(&mut self, pool: &mut pool::ThreadPool<R, P>, task: R) -> (result: Result<
        (TrackScope, Option<String>),
        P,
    >)
        requires
            old(self).running() < usize::MAX,
            old(pool)@.wf(),
            old(pool)@.counter < usize::MAX,
        ensures
            final(pool)@.wf(),
            final(pool).panic() is None,
            final(self).id() == old(self).id(),
            match old(pool).panic() {
                Some(panic) => {
                    &&& result == Err::<(TrackScope, Option<String>), P>(panic)
                    &&& final(self).running() == old(self).running()
                    &&& final(pool)@ == old(pool)@
                },
                None => {
                    &&& result matches Ok((track, spawn)) && track.scope_id() == old(self).id()
                        && crate::exec::state::text(spawn) == old(pool)@.pushed(task).spawn()
                    &&& final(self).running() == old(self).running() + 1
                    &&& final(pool)@ == old(pool)@.pushed(task).settled()
                },
            },
    {
        match pool.run(task) {
            Ok(spawn) => {
                self.counter = self.counter + 1;
                Ok((TrackScope { id: self.id }, spawn))
            },
            Err(panic) => Err(panic),
        }
    }

    /// Whether the scope can end: nothing runs in it any more.
    pub fn wait(&self) -> (result: Poll<()>)
        ensures
            (result is Ready) == (self.running() == 0),
    {
        if self.counter == 0 {
            Poll::Ready(())
        } else {
            Poll::Pending
        }
    }
}

impl TrackScope {
    /// Which scope it runs in.
    pub closed spec fn scope_id(&self) -> int {
        self.id@
    }

    /// It does not run any more.
    pub fn drop(self, scope: &mut ThreadScope)
        requires
            self.scope_id() == old(scope).id(),
            old(scope).running() > 0,
        ensures
            final(scope).id() == old(scope).id(),
            final(scope).running() == old(scope).running() - 1,
    {
        scope.counter = scope.counter - 1;
    }
}

/// A scope that hands itself on to what runs in it.
pub struct Scope<W> {
    inner: Scoped<(), W>,
}

impl<W> Scope<W> {
    /// What tells that the scope is in use.
    pub closed spec fn tracker(self) -> Scoped<(), W> {
        self.inner
    }

    /// A scope from a tracker.
    pub fn new(inner: Scoped<(), W>) -> (scope: Self)
        ensures
            scope.tracker() == inner,
    {
        Scope { inner }
    }

    /// Run something on the pool, within the scope, and join it. What is to be
    /// run is made by `f` of a scope of its own, and of what it is to finish with.
    pub fn run<T, P, V, R, F: FnOnce(Scope<W>, Runnable<T, P, V>) -> R>(
        &self,
        shared: &mut ScopeInner<(), W>,
        heap: &mut Heap<Channel<Result<T, P>, V>>,
        pool: &mut threadpool::ThreadPool<R>,
        f: F,
    ) -> (result: (JoinTask<T, P, V>, Option<String>))
        requires
            self.tracker().id() == old(shared).id(),
            old(shared).at_rest(),
            old(shared)@.borrowed(),
            old(shared)@.count <= MAX_REFCOUNT,
            old(pool).wf(),
            old(pool)@.counter < usize::MAX,
            old(heap).issued() < usize::MAX,
            forall|scope: Scope<W>, run: Runnable<T, P, V>|
                scope.tracker().id() == old(shared).id() ==> #[trigger] f.requires((scope, run)),
        ensures
            final(shared).at_rest(),
            final(shared)@.borrowed(),
            final(shared).id() == old(shared).id(),
            final(shared).value() == old(shared).value(),
            final(shared)@ == old(shared)@.with_borrow(),
            final(pool).wf(),
            final(pool).panics() == old(pool).panics(),
            result.0.receiver().link() matches Some(ptr) && {
                &&& !old(heap).has(ptr)
                &&& crate::channel::handles::usable(*final(heap), ptr)
                &&& final(heap).at(ptr)@ == crate::channel::handles::fresh::<Result<T, P>, V>()
                &&& final(heap)@.remove(ptr.addr()) == old(heap)@
                &&& final(heap).issued() == old(heap).issued() + 1
                &&& exists|scope: Scope<W>, run: Runnable<T, P, V>, task: R|
                    {
                        &&& scope.tracker().id() == old(shared).id()
                        &&& run.sender().link() == ptr
                        &&& #[trigger] f.ensures((scope, run), task)
                        &&& final(pool)@ == old(pool)@.pushed(task).settled()
                        &&& crate::exec::state::text(result.1) == old(pool)@.pushed(task).spawn()
                    }
            },
    {
        let scope = Scope { inner: self.inner.clone(shared) };
        let (run, join) = JoinTask::new_pair(heap);
        let spawn = pool.run_boxed(f(scope, run));
        (join, spawn)
    }

    /// The scope is left by what runs in it.
    pub fn drop(self, shared: &mut ScopeInner<(), W>)
        requires
            self.tracker().id() == old(shared).id(),
            old(shared).at_rest(),
            old(shared)@.borrowed(),
        ensures
            final(shared).at_rest(),
            final(shared).id() == old(shared).id(),
            final(shared).value() == old(shared).value(),
            final(shared)@ == old(shared)@.without_borrow(),
    {
        self.inner.drop(shared);
    }
}

/// What is run in a scope is queued and counts until it has ended.
pub proof fn law_thread_scope_run<R, P>(
    scope: &mut ThreadScope,
    pool: &mut pool::ThreadPool<R, P>,
    task: R,
    result: Result<(TrackScope, Option<String>), P>,
)
    requires
        pool@.wf(),
        call_ensures(ThreadScope::run::<R, P>, (scope, pool, task), result),
    ensures
        old(pool).panic() matches Some(panic) ==> {
            &&& result == Err::<(TrackScope, Option<String>), P>(panic)
            &&& final(scope).running() == old(scope).running()
            &&& final(pool)@ == old(pool)@
        },
        old(pool).panic() is None ==> {
            &&& result matches Ok((track, _)) && track.scope_id() == old(scope).id()
            &&& final(scope).running() == old(scope).running() + 1
            &&& final(pool)@.queue == old(pool)@.queue.push(task)
            &&& final(pool)@.threads - final(pool)@.idle == old(pool)@.threads - old(pool)@.idle
            &&& old(pool)@.max is None ==> final(pool)@.idle > 0
        },
        final(scope).id() == old(scope).id(),
{
}

/// A scope ends when as much has ended in it as was run in it, and not before.
pub proof fn law_thread_scope_waits<R, P>(
    scope: &mut ThreadScope,
    pool: &mut pool::ThreadPool<R, P>,
    task: R,
    result: Result<(TrackScope, Option<String>), P>,
    busy: &ThreadScope,
    left: &mut ThreadScope,
    idle: &ThreadScope,
    waits: (Poll<()>, Poll<()>),
)
    requires
        scope.running() == 0,
        pool.panic() is None,
        call_ensures(ThreadScope::run::<R, P>, (scope, pool, task), result),
        *final(scope) == *busy,
        call_ensures(ThreadScope::wait, (busy,), waits.0),
        *left == *busy,
        call_ensures(TrackScope::drop, (result->Ok_0.0, left), ()),
        *final(left) == *idle,
        call_ensures(ThreadScope::wait, (idle,), waits.1),
    ensures
        waits.0 is Pending,
        waits.1 is Ready,
{
}

/// What is run in a scope is queued, with a scope of its own that is in use until it
/// is dropped, and it can be joined through a new channel. With no limit there is a
/// thread that can take it.
pub proof fn law_scope_run<W, T, P, V, R, F: FnOnce(Scope<W>, Runnable<T, P, V>) -> R>(
    scope: &Scope<W>,
    shared: &mut ScopeInner<(), W>,
    heap: &mut Heap<Channel<Result<T, P>, V>>,
    pool: &mut threadpool::ThreadPool<R>,
    f: F,
    result: (JoinTask<T, P, V>, Option<String>),
)
    requires
        shared@.count <= MAX_REFCOUNT,
        call_ensures(Scope::<W>::run::<T, P, V, R, F>, (scope, shared, heap, pool, f), result),
    ensures
        final(shared)@.count == old(shared)@.count + 2,
        final(shared)@.waker == old(shared)@.waker,
        final(shared)@.woken == old(shared)@.woken,
        final(shared).id() == old(shared).id(),
        result.0.receiver().link() matches Some(ptr) && {
            &&& !old(heap).has(ptr)
            &&& final(heap).has(ptr)
            &&& final(heap).at(ptr)@.state.active
            &&& !final(heap).at(ptr)@.state.loaded
            &&& exists|own: Scope<W>, run: Runnable<T, P, V>, task: R|
                {
                    &&& own.tracker().id() == old(shared).id()
                    &&& run.sender().link() == ptr
                    &&& #[trigger] f.ensures((own, run), task)
                    &&& final(pool)@.queue == old(pool)@.queue.push(task)
                }
        },
        old(pool)@.max is None ==> final(pool)@.idle > 0,
        final(pool)@.threads - final(pool)@.idle == old(pool)@.threads - old(pool)@.idle,
{
    let ptr = result.0.receiver().link()->0;
    let (own, run, task) = choose|own: Scope<W>, run: Runnable<T, P, V>, task: R|
        {
            &&& own.tracker().id() == old(shared).id()
            &&& run.sender().link() == ptr
            &&& #[trigger] f.ensures((own, run), task)
            &&& final(pool)@ == old(pool)@.pushed(task).settled()
            &&& crate::exec::state::text(result.1) == old(pool)@.pushed(task).spawn()
        };
    assert(f.ensures((own, run), task));
}

} // verus!
