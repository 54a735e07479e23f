//! Methods and primitives for waiting on notifications.

use vstd::prelude::*;

use crate::error::LockError;
use crate::poll::Poll;
use crate::raw_park::parker::{ParkImpl, RawParker};
use crate::raw_park::state::ParkState;
use crate::raw_park::step::Means;
use crate::types::ParkResult;
use crate::util::{BoxPtr, Heap};

verus! {

/// The number of handles may not go beyond this when one is added.
pub const MAX_REFCOUNT: usize = usize::MAX / 2;

/// A parker and the number of handles to it.
#[derive(Debug)]
pub struct ListenInner {
    count: usize,
    parker: ParkImpl,
}

/// What is known of a parker and its handles.
pub struct ListenView {
    /// The number of handles.
    pub count: nat,
    /// The flags of the parker.
    pub flags: ParkState,
    /// The flags that announce a wait.
    pub announcement: ParkState,
    /// A thread waits.
    pub parked: bool,
    /// The thread that waits has been woken.
    pub woken: bool,
}

impl ListenView {
    /// One handle more.
    pub open spec fn with_handle(self) -> ListenView {
        ListenView { count: self.count + 1, ..self }
    }

    /// One handle less.
    pub open spec fn without_handle(self) -> ListenView {
        ListenView { count: (self.count - 1) as nat, ..self }
    }

    /// A notification has been made.
    pub open spec fn notified(self) -> ListenView {
        ListenView {
            flags: ParkState { unpark: true, ..self.flags },
            woken: self.woken || (!self.flags.unpark && self.flags.park && self.parked),
            ..self
        }
    }

    /// The outcome of starting to park.
    pub open spec fn park_result(self) -> (Poll<ParkResult>, ListenView) {
        if self.flags.unpark {
            (
                Poll::Ready(ParkResult::Skipped),
                ListenView {
                    flags: ParkState { unpark: false, ..self.flags },
                    parked: false,
                    woken: false,
                    ..self
                },
            )
        } else {
            (
                Poll::Pending,
                ListenView {
                    flags: self.flags.union(self.announcement),
                    parked: true,
                    woken: false,
                    ..self
                },
            )
        }
    }

    /// The outcome of a wait.
    pub open spec fn resume_result(self, waited: Result<bool, LockError>) -> (
        Poll<Result<ParkResult, LockError>>,
        ListenView,
    ) {
        let done = ListenView {
            flags: ParkState { park: false, unpark: false, ..self.flags },
            parked: false,
            woken: false,
            ..self
        };
        match waited {
            Err(err) => (
                Poll::Ready(Err(err)),
                ListenView { parked: false, woken: false, ..self },
            ),
            Ok(timed_out) => if self.flags.unpark {
                (Poll::Ready(Ok(ParkResult::Unparked)), done)
            } else if timed_out {
                (Poll::Ready(Ok(ParkResult::TimedOut)), done)
            } else {
                (Poll::Pending, ListenView { woken: false, ..self })
            },
        }
    }
}

impl View for ListenInner {
    type V = ListenView;

    closed spec fn view(&self) -> ListenView {
        ListenView {
            count: self.count as nat,
            flags: self.parker.flags(),
            announcement: self.parker.announcement(),
            parked: self.parker.parked(),
            woken: self.parker.woken(),
        }
    }
}

impl ListenInner {
    /// A parker with one handle.
    pub fn new(means: Means) -> (inner: Self)
        ensures
            inner@ == (ListenView {
                count: 1,
                flags: ParkState::flags(false, false, false, false),
                announcement: means.announcement(),
                parked: false,
                woken: false,
            }),
    {
        ListenInner::new_with_count(1, means)
    }

    /// A parker with some handles.
    pub fn new_with_count(count: usize, means: Means) -> (inner: Self)
        ensures
            inner@ == (ListenView {
                count: count as nat,
                flags: ParkState::flags(false, false, false, false),
                announcement: means.announcement(),
                parked: false,
                woken: false,
            }),
    {
        ListenInner { count, parker: ParkImpl::new(means) }
    }

    /// Allocate a parker with one handle.
    pub fn boxed(heap: &mut Heap<ListenInner>, means: Means) -> (inner: BoxPtr<ListenInner>)
        requires
            old(heap).issued() < usize::MAX,
        ensures
            !old(heap).has(inner),
            final(heap).has(inner),
            final(heap)@.remove(inner.addr()) == old(heap)@,
            final(heap).issued() == old(heap).issued() + 1,
            final(heap).at(inner)@ == (ListenView {
                count: 1,
                flags: ParkState::flags(false, false, false, false),
                announcement: means.announcement(),
                parked: false,
                woken: false,
            }),
    {
        let inner = BoxPtr::allocate(heap, ListenInner::new(means));
        assert(heap@.remove(inner.addr()) =~= old(heap)@);
        inner
    }

    /// Make another handle that wakes the thread.
    pub fn waker(heap: &mut Heap<ListenInner>, inner: BoxPtr<ListenInner>) -> (waker: Waker)
        requires
            old(heap).has(inner),
            old(heap).at(inner)@.count <= MAX_REFCOUNT,
        ensures
            waker.link() == inner,
            final(heap).same_but(old(heap), inner),
            final(heap).at(inner)@ == old(heap).at(inner)@.with_handle(),
    {
        inner.to_mut(heap).inc_count();
        Waker { inner }
    }

    /// Tell whether another handle can be counted.
    pub fn has_room(&self) -> (yes: bool)
        ensures
            yes == (self@.count <= MAX_REFCOUNT),
    {
        self.count <= MAX_REFCOUNT
    }

    /// Count another handle.
    pub fn inc_count(&mut self)
        requires
            old(self)@.count <= MAX_REFCOUNT,
        ensures
            final(self)@ == old(self)@.with_handle(),
    {
        self.count = self.count + 1;
    }

    /// Discount a handle. The number of handles that are left is returned.
    pub fn dec_count(&mut self) -> (count: usize)
        requires
            old(self)@.count > 0,
        ensures
            final(self)@ == old(self)@.without_handle(),
            count == final(self)@.count,
    {
        self.count = self.count - 1;
        self.count
    }

    /// Discount a handle, and free the parker with the last one.
    pub fn dec_count_drop(heap: &mut Heap<ListenInner>, inner: BoxPtr<ListenInner>)
        requires
            old(heap).has(inner),
            old(heap).at(inner)@.count > 0,
        ensures
            if old(heap).at(inner)@.count == 1 {
                final(heap).freed(old(heap), inner)
            } else {
                &&& final(heap).same_but(old(heap), inner)
                &&& final(heap).at(inner)@ == old(heap).at(inner)@.without_handle()
            },
    {
        if inner.to_mut(heap).dec_count() == 0 {
            inner.dealloc(heap);
        }
    }

    /// Notify the thread. True if it had not been notified already.
    pub fn notify(&mut self) -> (notified: bool)
        ensures
            notified == !old(self)@.flags.unpark,
            final(self)@ == old(self)@.notified(),
    {
        self.parker.unpark()
    }
}

/// A structure providing thread parking and notification operations.
#[derive(Debug)]
pub struct Listener {
    inner: BoxPtr<ListenInner>,
}

impl Listener {
    /// The allocation of the parker.
    pub closed spec fn link(self) -> BoxPtr<ListenInner> {
        self.inner
    }

    /// Create a new `Listener` instance.
    pub fn new(heap: &mut Heap<ListenInner>, means: Means) -> (listener: Self)
        requires
            old(heap).issued() < usize::MAX,
        ensures
            !old(heap).has(listener.link()),
            final(heap).has(listener.link()),
            final(heap)@.remove(listener.link().addr()) == old(heap)@,
            final(heap).issued() == old(heap).issued() + 1,
            final(heap).at(listener.link())@ == (ListenView {
                count: 1,
                flags: ParkState::flags(false, false, false, false),
                announcement: means.announcement(),
                parked: false,
                woken: false,
            }),
    {
        Listener { inner: ListenInner::boxed(heap, means) }
    }

    /// Create a [`ListenerGuard`] from a shared reference to the `Listener`.
    /// This will fail with `LockError::Contended` if the `Listener` has
    /// already been locked.
    pub fn lock(&self, heap: &mut Heap<ListenInner>) -> (result: Result<ListenerGuard, LockError>)
        requires
            old(heap).has(self.link()),
        ensures
            match result {
                Ok(guard) => !old(heap).at(self.link())@.flags.held && guard.link() == self.link()
                    && guard.release(),
                Err(err) => old(heap).at(self.link())@.flags.held && err == LockError::Contended,
            },
            final(heap).same_but(old(heap), self.link()),
            final(heap).at(self.link())@ == (ListenView {
                flags: ParkState { held: true, ..old(heap).at(self.link())@.flags },
                ..old(heap).at(self.link())@
            }),
    {
        match self.inner.to_mut(heap).parker.acquire() {
            Ok(()) => Ok(ListenerGuard::new(self.inner, true)),
            Err(err) => Err(err),
        }
    }

    /// Create a [`ListenerGuard`] from an exclusive reference to the `Listener`.
    /// This is more efficient than [`Listener::lock()`] because the type system
    /// ensures that no other references are in use.
    pub fn get_mut(&mut self) -> (guard: ListenerGuard)
        ensures
            guard.link() == old(self).link(),
            !guard.release(),
            *final(self) == *old(self),
    {
        ListenerGuard::new(self.inner, false)
    }

    /// Notify the `Listener` instance. This method returns `true` if the
    /// state was not already set to notified.
    pub fn notify(&self, heap: &mut Heap<ListenInner>) -> (notified: bool)
        requires
            old(heap).has(self.link()),
        ensures
            notified == !old(heap).at(self.link())@.flags.unpark,
            final(heap).same_but(old(heap), self.link()),
            final(heap).at(self.link())@ == old(heap).at(self.link())@.notified(),
    {
        self.inner.to_mut(heap).notify()
    }

    /// Create a new [`Notifier`] instance associated with this `Listener`.
    pub fn notifier(&self, heap: &mut Heap<ListenInner>) -> (notifier: Notifier)
        requires
            old(heap).has(self.link()),
            old(heap).at(self.link())@.count <= MAX_REFCOUNT,
        ensures
            notifier.link() == self.link(),
            final(heap).same_but(old(heap), self.link()),
            final(heap).at(self.link())@ == old(heap).at(self.link())@.with_handle(),
    {
        self.inner.to_mut(heap).inc_count();
        Notifier { inner: self.inner }
    }

    /// Create a new [`Waker`] instance associated with this `Listener`.
    pub fn waker(&self, heap: &mut Heap<ListenInner>) -> (waker: Waker)
        requires
            old(heap).has(self.link()),
            old(heap).at(self.link())@.count <= MAX_REFCOUNT,
        ensures
            waker.link() == self.link(),
            final(heap).same_but(old(heap), self.link()),
            final(heap).at(self.link())@ == old(heap).at(self.link())@.with_handle(),
    {
        ListenInner::waker(heap, self.inner)
    }

    /// The handle goes away, and the parker with the last one.
    pub fn drop(self, heap: &mut Heap<ListenInner>)
        requires
            old(heap).has(self.link()),
            old(heap).at(self.link())@.count > 0,
        ensures
            if old(heap).at(self.link())@.count == 1 {
                final(heap).freed(old(heap), self.link())
            } else {
                &&& final(heap).same_but(old(heap), self.link())
                &&& final(heap).at(self.link())@ == old(heap).at(self.link())@.without_handle()
            },
    {
        ListenInner::dec_count_drop(heap, self.inner);
    }
}

/// An exclusive guard around a [`Listener`] instance.
#[derive(Debug)]
pub struct ListenerGuard {
    inner: BoxPtr<ListenInner>,
    release: bool,
}

impl ListenerGuard {
    /// The allocation of the parker.
    pub closed spec fn link(self) -> BoxPtr<ListenInner> {
        self.inner
    }

    /// The listener is to be released with the guard.
    pub closed spec fn release(self) -> bool {
        self.release
    }

    /// A guard around a parker.
    pub fn new(inner: BoxPtr<ListenInner>, release: bool) -> (guard: Self)
        ensures
            guard.link() == inner,
            guard.release() == release,
    {
        ListenerGuard { inner, release }
    }

    /// Start to park the current thread until the next notification.
    ///
    /// If the [`Listener`] instance has already been notified then the
    /// notification is consumed at once. Otherwise the thread is to wait, and
    /// to be resumed.
    pub fn park(&mut self, heap: &mut Heap<ListenInner>) -> (result: Poll<ParkResult>)
        requires
            old(heap).has(old(self).link()),
            !old(heap).at(old(self).link())@.parked,
        ensures
            *final(self) == *old(self),
            final(heap).same_but(old(heap), old(self).link()),
            (result, final(heap).at(old(self).link())@) == old(heap).at(
                old(self).link(),
            )@.park_result(),
    {
        self.inner.to_mut(heap).parker.park()
    }

    /// Go on once a wait has ended. The result indicates whether a
    /// notification was consumed or the time is up.
    pub fn resume(
        &mut self,
        heap: &mut Heap<ListenInner>,
        waited: Result<bool, LockError>,
    ) -> (result: Poll<Result<ParkResult, LockError>>)
        requires
            old(heap).has(old(self).link()),
            old(heap).at(old(self).link())@.parked,
        ensures
            *final(self) == *old(self),
            final(heap).same_but(old(heap), old(self).link()),
            (result, final(heap).at(old(self).link())@) == old(heap).at(
                old(self).link(),
            )@.resume_result(waited),
    {
        self.inner.to_mut(heap).parker.resume(waited)
    }

    /// Notify the [`Listener`] instance from the thread that has the guard.
    pub fn wake(&self, heap: &mut Heap<ListenInner>)
        requires
            old(heap).has(self.link()),
        ensures
            final(heap).same_but(old(heap), self.link()),
            final(heap).at(self.link())@ == old(heap).at(self.link())@.notified(),
    {
        let _ = self.inner.to_mut(heap).notify();
    }

    /// Create a [`Notifier`] associated with the [`Listener`] instance.
    pub fn notifier(&self, heap: &mut Heap<ListenInner>) -> (notifier: Notifier)
        requires
            old(heap).has(self.link()),
            old(heap).at(self.link())@.count <= MAX_REFCOUNT,
        ensures
            notifier.link() == self.link(),
            final(heap).same_but(old(heap), self.link()),
            final(heap).at(self.link())@ == old(heap).at(self.link())@.with_handle(),
    {
        self.inner.to_mut(heap).inc_count();
        Notifier { inner: self.inner }
    }

    /// Create a [`Waker`] associated with the [`Listener`] instance.
    pub fn waker(&self, heap: &mut Heap<ListenInner>) -> (waker: Waker)
        requires
            old(heap).has(self.link()),
            old(heap).at(self.link())@.count <= MAX_REFCOUNT,
        ensures
            waker.link() == self.link(),
            final(heap).same_but(old(heap), self.link()),
            final(heap).at(self.link())@ == old(heap).at(self.link())@.with_handle(),
    {
        ListenInner::waker(heap, self.inner)
    }

    /// The guard goes away, and the listener can be locked again.
    pub fn drop(self, heap: &mut Heap<ListenInner>)
        requires
            old(heap).has(self.link()),
            self.release() ==> old(heap).at(self.link())@.flags.held,
        ensures
            final(heap).same_but(old(heap), self.link()),
            final(heap).at(self.link())@ == (if self.release() {
                ListenView {
                    flags: ParkState { held: false, ..old(heap).at(self.link())@.flags },
                    ..old(heap).at(self.link())@
                }
            } else {
                old(heap).at(self.link())@
            }),
    {
        if self.release {
            let _ = self.inner.to_mut(heap).parker.release();
        }
    }
}

/// Used to notify an associated [`Listener`] instance.
#[derive(Debug)]
pub struct Notifier {
    inner: BoxPtr<ListenInner>,
}

impl Notifier {
    /// The allocation of the parker.
    pub closed spec fn link(self) -> BoxPtr<ListenInner> {
        self.inner
    }

    /// Notify the associated [`Listener`] instance, returning `true` if the
    /// the state was not already set to notified.
    pub fn notify(&self, heap: &mut Heap<ListenInner>) -> (notified: bool)
        requires
            old(heap).has(self.link()),
        ensures
            notified == !old(heap).at(self.link())@.flags.unpark,
            final(heap).same_but(old(heap), self.link()),
            final(heap).at(self.link())@ == old(heap).at(self.link())@.notified(),
    {
        self.inner.to_mut(heap).notify()
    }

    /// Make another notifier.
    pub fn clone(&self, heap: &mut Heap<ListenInner>) -> (notifier: Notifier)
        requires
            old(heap).has(self.link()),
            old(heap).at(self.link())@.count <= MAX_REFCOUNT,
        ensures
            notifier.link() == self.link(),
            final(heap).same_but(old(heap), self.link()),
            final(heap).at(self.link())@ == old(heap).at(self.link())@.with_handle(),
    {
        self.inner.to_mut(heap).inc_count();
        Notifier { inner: self.inner }
    }

    /// The handle goes away, and the parker with the last one.
    pub fn drop(self, heap: &mut Heap<ListenInner>)
        requires
            old(heap).has(self.link()),
            old(heap).at(self.link())@.count > 0,
        ensures
            if old(heap).at(self.link())@.count == 1 {
                final(heap).freed(old(heap), self.link())
            } else {
                &&& final(heap).same_but(old(heap), self.link())
                &&& final(heap).at(self.link())@ == old(heap).at(self.link())@.without_handle()
            },
    {
        ListenInner::dec_count_drop(heap, self.inner);
    }
}

/// Used to wake a task that is blocked on a [`Listener`] instance.
#[derive(Debug)]
pub struct Waker {
    inner: BoxPtr<ListenInner>,
}

impl Waker {
    /// The allocation of the parker.
    pub closed spec fn link(self) -> BoxPtr<ListenInner> {
        self.inner
    }

    /// Make another waker.
    pub fn clone(&self, heap: &mut Heap<ListenInner>) -> (waker: Waker)
        requires
            old(heap).has(self.link()),
            old(heap).at(self.link())@.count <= MAX_REFCOUNT,
        ensures
            waker.link() == self.link(),
            final(heap).same_but(old(heap), self.link()),
            final(heap).at(self.link())@ == old(heap).at(self.link())@.with_handle(),
    {
        ListenInner::waker(heap, self.inner)
    }

    /// Notify the listener. The waker goes away with that.
    pub fn wake(self, heap: &mut Heap<ListenInner>)
        requires
            old(heap).has(self.link()),
            old(heap).at(self.link())@.count > 0,
        ensures
            if old(heap).at(self.link())@.count == 1 {
                final(heap).freed(old(heap), self.link())
            } else {
                &&& final(heap).same_but(old(heap), self.link())
                &&& final(heap).at(self.link())@ == old(heap).at(
                    self.link(),
                )@.notified().without_handle()
            },
    {
        let _ = self.inner.to_mut(heap).notify();
        ListenInner::dec_count_drop(heap, self.inner);
    }

    /// Notify the listener.
    pub fn wake_by_ref(&self, heap: &mut Heap<ListenInner>)
        requires
            old(heap).has(self.link()),
        ensures
            final(heap).same_but(old(heap), self.link()),
            final(heap).at(self.link())@ == old(heap).at(self.link())@.notified(),
    {
        let _ = self.inner.to_mut(heap).notify();
    }

    /// The waker goes away, and the parker with the last handle.
    pub fn drop(self, heap: &mut Heap<ListenInner>)
        requires
            old(heap).has(self.link()),
            old(heap).at(self.link())@.count > 0,
        ensures
            if old(heap).at(self.link())@.count == 1 {
                final(heap).freed(old(heap), self.link())
            } else {
                &&& final(heap).same_but(old(heap), self.link())
                &&& final(heap).at(self.link())@ == old(heap).at(self.link())@.without_handle()
            },
    {
        ListenInner::dec_count_drop(heap, self.inner);
    }
}

/// A notification made before the park makes the park return at once, and is
/// used up by it.
pub proof fn law_notify_then_park(view: ListenView)
    ensures
        view.notified().park_result().0 == Poll::Ready(ParkResult::Skipped),
        !view.notified().park_result().1.flags.unpark,
        view.notified().notified().flags == view.notified().flags,
{
}

/// A notification made during the wait ends it, even if the time is up as
/// well, and is used up by that. A thread that waits is woken.
pub proof fn law_park_then_notify(view: ListenView, means: Means, timed_out: bool)
    requires
        !view.flags.unpark,
        view.announcement == means.announcement(),
    ensures
        view.park_result().1.parked,
        view.park_result().1.notified().woken,
        view.park_result().1.notified().resume_result(Ok(timed_out)).0 == Poll::Ready(
            Ok::<ParkResult, LockError>(ParkResult::Unparked),
        ),
        !view.park_result().1.notified().resume_result(Ok(timed_out)).1.flags.unpark,
{
}

/// Without a notification a park ends only because the time is up, and the
/// thread waits on if it was woken for no reason.
pub proof fn law_park_without_notify(view: ListenView, means: Means)
    requires
        !view.flags.unpark,
        view.announcement == means.announcement(),
    ensures
        view.park_result().0 is Pending,
        view.park_result().1.resume_result(Ok(false)).0 is Pending,
        view.park_result().1.resume_result(Ok(true)).0 == Poll::Ready(
            Ok::<ParkResult, LockError>(ParkResult::TimedOut),
        ),
{
}

/// Counting a handle and discounting it again changes nothing.
pub proof fn law_handles(view: ListenView)
    ensures
        view.with_handle().without_handle() == view,
{
}

/// A notification is kept until a park uses it up, and a thread that waits is
/// woken by it. It is told whether one was kept already.
pub proof fn law_listener_notify(
    listener: &Listener,
    heap: &mut Heap<ListenInner>,
    ptr: BoxPtr<ListenInner>,
    notified: bool,
)
    requires
        listener.link() == ptr,
        call_ensures(Listener::notify, (listener, heap), notified),
    ensures
        ({
            let before = old(heap).at(ptr)@;
            let after = final(heap).at(ptr)@;
            &&& notified == !before.flags.unpark
            &&& after.flags.unpark
            &&& after.flags.park == before.flags.park
            &&& after.flags.held == before.flags.held
            &&& after.flags.init == before.flags.init
            &&& after.parked == before.parked
            &&& before.parked && before.flags.park && !before.flags.unpark ==> after.woken
            &&& before.woken ==> after.woken
            &&& after.woken && !before.woken ==> before.parked && !before.flags.unpark
            &&& after.count == before.count
            &&& after.announcement == before.announcement
            &&& final(heap).has(ptr)
            &&& final(heap)@.remove(ptr.addr()) == old(heap)@.remove(ptr.addr())
        }),
{
}

/// A notification is kept until a park uses it up, and a thread that waits is
/// woken by it. It is told whether one was kept already.
pub proof fn law_notifier_notify(
    notifier: &Notifier,
    heap: &mut Heap<ListenInner>,
    ptr: BoxPtr<ListenInner>,
    notified: bool,
)
    requires
        notifier.link() == ptr,
        call_ensures(Notifier::notify, (notifier, heap), notified),
    ensures
        ({
            let before = old(heap).at(ptr)@;
            let after = final(heap).at(ptr)@;
            &&& notified == !before.flags.unpark
            &&& after.flags.unpark
            &&& after.flags.park == before.flags.park
            &&& after.flags.held == before.flags.held
            &&& after.flags.init == before.flags.init
            &&& after.parked == before.parked
            &&& before.parked && before.flags.park && !before.flags.unpark ==> after.woken
            &&& before.woken ==> after.woken
            &&& after.woken && !before.woken ==> before.parked && !before.flags.unpark
            &&& after.count == before.count
            &&& after.announcement == before.announcement
            &&& final(heap).has(ptr)
            &&& final(heap)@.remove(ptr.addr()) == old(heap)@.remove(ptr.addr())
        }),
{
}

/// A waker that is called without going away notifies, and no more.
pub proof fn law_wake_by_ref(
    waker: &Waker,
    heap: &mut Heap<ListenInner>,
    ptr: BoxPtr<ListenInner>,
)
    requires
        waker.link() == ptr,
        call_ensures(Waker::wake_by_ref, (waker, heap), ()),
    ensures
        ({
            let before = old(heap).at(ptr)@;
            let after = final(heap).at(ptr)@;
            &&& after.flags.unpark
            &&& after.flags.held == before.flags.held
            &&& after.parked == before.parked
            &&& before.parked && before.flags.park && !before.flags.unpark ==> after.woken
            &&& before.woken ==> after.woken
            &&& after.count == before.count
            &&& final(heap).has(ptr)
            &&& final(heap)@.remove(ptr.addr()) == old(heap)@.remove(ptr.addr())
        }),
{
}

/// A waker that is called and goes away notifies, and counts no more. The listener
/// goes with the last of its handles.
pub proof fn law_wake(
    waker: Waker,
    heap: &mut Heap<ListenInner>,
    ptr: BoxPtr<ListenInner>,
)
    requires
        waker.link() == ptr,
        heap.at(ptr)@.count > 0,
        call_ensures(Waker::wake, (waker, heap), ()),
    ensures
        ({
            let before = old(heap).at(ptr)@;
            let after = final(heap).at(ptr)@;
            &&& before.count == 1 ==> final(heap)@ == old(heap)@.remove(ptr.addr())
            &&& before.count > 1 ==> {
                &&& after.count == before.count - 1
                &&& after.flags.unpark
                &&& after.parked == before.parked
                &&& before.parked && before.flags.park && !before.flags.unpark ==> after.woken
                &&& final(heap).has(ptr)
                &&& final(heap)@.remove(ptr.addr()) == old(heap)@.remove(ptr.addr())
            }
        }),
{
}

/// A park returns at once if there is a notification, which it uses up. Otherwise
/// the thread waits, and says so, for the one that notifies to see.
pub proof fn law_guard_park(
    guard: &mut ListenerGuard,
    heap: &mut Heap<ListenInner>,
    ptr: BoxPtr<ListenInner>,
    means: Means,
    result: Poll<ParkResult>,
)
    requires
        guard.link() == ptr,
        heap.at(ptr)@.announcement == means.announcement(),
        call_ensures(ListenerGuard::park, (guard, heap), result),
    ensures
        ({
            let before = old(heap).at(ptr)@;
            let after = final(heap).at(ptr)@;
            &&& before.flags.unpark ==> {
                &&& result == Poll::Ready(ParkResult::Skipped)
                &&& !after.flags.unpark
                &&& !after.parked
            }
            &&& !before.flags.unpark ==> {
                &&& result is Pending
                &&& after.parked
                &&& after.flags.park
                &&& !after.flags.unpark
            }
            &&& !after.woken
            &&& after.flags.held == before.flags.held
            &&& after.count == before.count
            &&& final(heap).has(ptr)
            &&& final(heap)@.remove(ptr.addr()) == old(heap)@.remove(ptr.addr())
        }),
{
}

/// A wait has ended with a notification if there is one, even if the time is up as
/// well, and uses it up; with nothing if the time is up; and not at all otherwise.
/// A wait that has failed ends with its error.
pub proof fn law_guard_resume(
    guard: &mut ListenerGuard,
    heap: &mut Heap<ListenInner>,
    ptr: BoxPtr<ListenInner>,
    waited: Result<bool, LockError>,
    result: Poll<Result<ParkResult, LockError>>,
)
    requires
        guard.link() == ptr,
        heap.at(ptr)@.parked,
        call_ensures(ListenerGuard::resume, (guard, heap, waited), result),
    ensures
        ({
            let before = old(heap).at(ptr)@;
            let after = final(heap).at(ptr)@;
            &&& waited matches Err(err) ==> result == Poll::Ready(Err::<ParkResult, LockError>(err))
            &&& waited is Ok && before.flags.unpark ==> result == Poll::Ready(
                Ok::<ParkResult, LockError>(ParkResult::Unparked),
            )
            &&& waited == Ok::<bool, LockError>(true) && !before.flags.unpark ==> result == Poll::Ready(
                Ok::<ParkResult, LockError>(ParkResult::TimedOut),
            )
            &&& waited == Ok::<bool, LockError>(false) && !before.flags.unpark ==> result is Pending
            &&& waited is Ok && result is Ready ==> !after.flags.unpark && !after.flags.park
            &&& result is Pending ==> after.flags == before.flags
            &&& after.parked == (result is Pending)
            &&& after.flags.held == before.flags.held
            &&& after.count == before.count
            &&& final(heap).has(ptr)
            &&& final(heap)@.remove(ptr.addr()) == old(heap)@.remove(ptr.addr())
        }),
{
}

/// Of two that lock a listener, one is told that it is contended, until the other
/// is done.
pub proof fn law_lock_twice(
    listener: &Listener,
    first: &mut Heap<ListenInner>,
    second: &mut Heap<ListenInner>,
    left: &mut Heap<ListenInner>,
    third: &mut Heap<ListenInner>,
    results: (
        Result<ListenerGuard, LockError>,
        Result<ListenerGuard, LockError>,
        Result<ListenerGuard, LockError>,
    ),
)
    requires
        !first.at(listener.link())@.flags.held,
        call_ensures(Listener::lock, (listener, first), results.0),
        *final(first) == *second,
        call_ensures(Listener::lock, (listener, second), results.1),
        *final(second) == *left,
        call_ensures(ListenerGuard::drop, (results.0->Ok_0, left), ()),
        *final(left) == *third,
        call_ensures(Listener::lock, (listener, third), results.2),
    ensures
        results.0 is Ok,
        results.1 matches Err(err) && err == LockError::Contended,
        results.2 is Ok,
        final(third).at(listener.link())@.flags.held,
        final(third).at(listener.link())@.flags.unpark == old(first).at(listener.link())@.flags.unpark,
{
}

/// A handle more counts, and changes nothing else.
pub proof fn law_listener_notifier(
    listener: &Listener,
    heap: &mut Heap<ListenInner>,
    ptr: BoxPtr<ListenInner>,
    made: Notifier,
)
    requires
        listener.link() == ptr,
        call_ensures(Listener::notifier, (listener, heap), made),
    ensures
        ({
            let before = old(heap).at(ptr)@;
            let after = final(heap).at(ptr)@;
            &&& made.link() == ptr
            &&& after.count == before.count + 1
            &&& after.flags == before.flags
            &&& after.parked == before.parked
            &&& after.woken == before.woken
            &&& final(heap).has(ptr)
            &&& final(heap)@.remove(ptr.addr()) == old(heap)@.remove(ptr.addr())
        }),
{
}

/// A handle more counts, and changes nothing else.
pub proof fn law_listener_waker(
    listener: &Listener,
    heap: &mut Heap<ListenInner>,
    ptr: BoxPtr<ListenInner>,
    made: Waker,
)
    requires
        listener.link() == ptr,
        call_ensures(Listener::waker, (listener, heap), made),
    ensures
        ({
            let before = old(heap).at(ptr)@;
            let after = final(heap).at(ptr)@;
            &&& made.link() == ptr
            &&& after.count == before.count + 1
            &&& after.flags == before.flags
            &&& after.parked == before.parked
            &&& after.woken == before.woken
            &&& final(heap).has(ptr)
            &&& final(heap)@.remove(ptr.addr()) == old(heap)@.remove(ptr.addr())
        }),
{
}

/// A handle more counts, and changes nothing else.
pub proof fn law_guard_notifier(
    guard: &ListenerGuard,
    heap: &mut Heap<ListenInner>,
    ptr: BoxPtr<ListenInner>,
    made: Notifier,
)
    requires
        guard.link() == ptr,
        call_ensures(ListenerGuard::notifier, (guard, heap), made),
    ensures
        ({
            let before = old(heap).at(ptr)@;
            let after = final(heap).at(ptr)@;
            &&& made.link() == ptr
            &&& after.count == before.count + 1
            &&& after.flags == before.flags
            &&& after.parked == before.parked
            &&& after.woken == before.woken
            &&& final(heap).has(ptr)
            &&& final(heap)@.remove(ptr.addr()) == old(heap)@.remove(ptr.addr())
        }),
{
}

/// A handle more counts, and changes nothing else.
pub proof fn law_guard_waker(
    guard: &ListenerGuard,
    heap: &mut Heap<ListenInner>,
    ptr: BoxPtr<ListenInner>,
    made: Waker,
)
    requires
        guard.link() == ptr,
        call_ensures(ListenerGuard::waker, (guard, heap), made),
    ensures
        ({
            let before = old(heap).at(ptr)@;
            let after = final(heap).at(ptr)@;
            &&& made.link() == ptr
            &&& after.count == before.count + 1
            &&& after.flags == before.flags
            &&& after.parked == before.parked
            &&& after.woken == before.woken
            &&& final(heap).has(ptr)
            &&& final(heap)@.remove(ptr.addr()) == old(heap)@.remove(ptr.addr())
        }),
{
}

/// A handle more counts, and changes nothing else.
pub proof fn law_notifier_clone(
    notifier: &Notifier,
    heap: &mut Heap<ListenInner>,
    ptr: BoxPtr<ListenInner>,
    made: Notifier,
)
    requires
        notifier.link() == ptr,
        call_ensures(Notifier::clone, (notifier, heap), made),
    ensures
        ({
            let before = old(heap).at(ptr)@;
            let after = final(heap).at(ptr)@;
            &&& made.link() == ptr
            &&& after.count == before.count + 1
            &&& after.flags == before.flags
            &&& after.parked == before.parked
            &&& after.woken == before.woken
            &&& final(heap).has(ptr)
            &&& final(heap)@.remove(ptr.addr()) == old(heap)@.remove(ptr.addr())
        }),
{
}

/// A handle more counts, and changes nothing else.
pub proof fn law_waker_clone(
    waker: &Waker,
    heap: &mut Heap<ListenInner>,
    ptr: BoxPtr<ListenInner>,
    made: Waker,
)
    requires
        waker.link() == ptr,
        call_ensures(Waker::clone, (waker, heap), made),
    ensures
        ({
            let before = old(heap).at(ptr)@;
            let after = final(heap).at(ptr)@;
            &&& made.link() == ptr
            &&& after.count == before.count + 1
            &&& after.flags == before.flags
            &&& after.parked == before.parked
            &&& after.woken == before.woken
            &&& final(heap).has(ptr)
            &&& final(heap)@.remove(ptr.addr()) == old(heap)@.remove(ptr.addr())
        }),
{
}

/// A handle that goes away counts no more, and notifies nobody. The listener goes
/// with the last of them.
pub proof fn law_listener_drop(
    listener: Listener,
    heap: &mut Heap<ListenInner>,
    ptr: BoxPtr<ListenInner>,
)
    requires
        listener.link() == ptr,
        heap.at(ptr)@.count > 0,
        call_ensures(Listener::drop, (listener, heap), ()),
    ensures
        ({
            let before = old(heap).at(ptr)@;
            let after = final(heap).at(ptr)@;
            &&& before.count == 1 ==> final(heap)@ == old(heap)@.remove(ptr.addr())
            &&& before.count > 1 ==> {
                &&& after.count == before.count - 1
                &&& after.flags == before.flags
                &&& after.parked == before.parked
                &&& after.woken == before.woken
                &&& final(heap).has(ptr)
                &&& final(heap)@.remove(ptr.addr()) == old(heap)@.remove(ptr.addr())
            }
        }),
{
}

/// A handle that goes away counts no more, and notifies nobody. The listener goes
/// with the last of them.
pub proof fn law_notifier_drop(
    notifier: Notifier,
    heap: &mut Heap<ListenInner>,
    ptr: BoxPtr<ListenInner>,
)
    requires
        notifier.link() == ptr,
        heap.at(ptr)@.count > 0,
        call_ensures(Notifier::drop, (notifier, heap), ()),
    ensures
        ({
            let before = old(heap).at(ptr)@;
            let after = final(heap).at(ptr)@;
            &&& before.count == 1 ==> final(heap)@ == old(heap)@.remove(ptr.addr())
            &&& before.count > 1 ==> {
                &&& after.count == before.count - 1
                &&& after.flags == before.flags
                &&& after.parked == before.parked
                &&& after.woken == before.woken
                &&& final(heap).has(ptr)
                &&& final(heap)@.remove(ptr.addr()) == old(heap)@.remove(ptr.addr())
            }
        }),
{
}

/// A handle that goes away counts no more, and notifies nobody. The listener goes
/// with the last of them.
pub proof fn law_waker_drop(
    waker: Waker,
    heap: &mut Heap<ListenInner>,
    ptr: BoxPtr<ListenInner>,
)
    requires
        waker.link() == ptr,
        heap.at(ptr)@.count > 0,
        call_ensures(Waker::drop, (waker, heap), ()),
    ensures
        ({
            let before = old(heap).at(ptr)@;
            let after = final(heap).at(ptr)@;
            &&& before.count == 1 ==> final(heap)@ == old(heap)@.remove(ptr.addr())
            &&& before.count > 1 ==> {
                &&& after.count == before.count - 1
                &&& after.flags == before.flags
                &&& after.parked == before.parked
                &&& after.woken == before.woken
                &&& final(heap).has(ptr)
                &&& final(heap)@.remove(ptr.addr()) == old(heap)@.remove(ptr.addr())
            }
        }),
{
}

} // verus!
