//! Thread parking operations.
//!
//! A thread that blocks alternates between polling and waiting. What is here
//! takes one turn at a time: it polls, decides whether the thread is to wait,
//! and goes on once the wait has ended.

use vstd::prelude::*;

use crate::listen::{ListenInner, ListenView, Listener, ListenerGuard, Notifier, Waker, MAX_REFCOUNT};
use crate::poll::Poll;
use crate::raw_park::state::ParkState;
use crate::raw_park::step::Means;
use crate::types::ParkResult;
use crate::util::{BoxPtr, Heap};

verus! {

/// A thread that finds this many notifications in a row without having to
/// wait for them backs off.
pub const SPIN_LIMIT: usize = 5;

/// Tells whether the waker was called during a poll.
#[derive(Debug)]
pub struct Context {
    called: bool,
}

impl Context {
    /// The waker was called.
    pub closed spec fn called(&self) -> bool {
        self.called
    }

    /// Nothing has been called yet.
    pub fn new() -> (cx: Self)
        ensures
            !cx.called(),
    {
        Context { called: false }
    }

    /// Call the waker.
    pub fn wake_by_ref(&mut self)
        ensures
            final(self).called(),
    {
        self.called = true;
    }

    /// Tell whether the waker was called.
    pub fn is_called(&self) -> (called: bool)
        ensures
            called == self.called(),
    {
        self.called
    }
}

/// Something that can be polled for a result.
pub trait PollFn: Sized {
    /// The result.
    type Output;

    /// It can be polled.
    open spec fn wf(&self) -> bool {
        true
    }

    /// Polling `before` may return `result` and leave `after`. Whether the
    /// waker was called before the poll, and whether it has been called after
    /// it, are given too.
    open spec fn polls(
        before: Self,
        was_called: bool,
        result: Poll<Self::Output>,
        called: bool,
        after: Self,
    ) -> bool {
        true
    }

    /// Ask for the result. If there is none yet, the waker is called once it
    /// is worth asking again.
    fn poll(&mut self, cx: &mut Context) -> (result: Poll<Self::Output>)
        requires
            old(self).wf(),
        ensures
            final(self).wf(),
            Self::polls(*old(self), old(cx).called(), result, final(cx).called(), *final(self)),
    ;
}

/// What a blocked thread is to do next.
#[derive(Debug, PartialEq, Eq)]
pub enum Step<T> {
    /// Return the result.
    Done(T),
    /// Poll again, after giving way to other threads if so told.
    Again { back_off: bool },
    /// Wait for a notification, until the time is up.
    Wait,
    /// Return without a result, for the time is up.
    TimedOut,
}

/// A thread that blocks on a result.
#[derive(Debug)]
pub struct BlockOn {
    repeat: usize,
}

impl BlockOn {
    /// How many notifications were found in a row without waiting.
    pub closed spec fn repeat(&self) -> nat {
        self.repeat as nat
    }

    /// A thread that has not polled yet.
    pub fn new() -> (block: Self)
        ensures
            block.repeat() == 0,
    {
        BlockOn { repeat: 0 }
    }

    /// What the thread does next once a park has ended.
    pub open spec fn next<T>(repeat: nat, result: ParkResult) -> (nat, Step<T>) {
        match result {
            ParkResult::Skipped => {
                let more = if repeat < usize::MAX {
                    repeat + 1
                } else {
                    repeat
                };
                (more, Step::Again { back_off: more >= SPIN_LIMIT })
            },
            ParkResult::Unparked => (0, Step::Again { back_off: false }),
            ParkResult::TimedOut => (repeat, Step::TimedOut),
        }
    }

    /// A park has ended.
    fn parked<T>(&mut self, result: ParkResult) -> (step: Step<T>)
        ensures
            (final(self).repeat(), step) == BlockOn::next::<T>(old(self).repeat(), result),
    {
        match result {
            ParkResult::Skipped => {
                if self.repeat < usize::MAX {
                    self.repeat = self.repeat + 1;
                }
                // seem to be effectively in a spin loop, back off polling
                Step::Again { back_off: self.repeat >= SPIN_LIMIT }
            },
            ParkResult::Unparked => {
                self.repeat = 0;
                Step::Again { back_off: false }
            },
            ParkResult::TimedOut => Step::TimedOut,
        }
    }

    /// What the thread does next once a poll has returned `result`, given
    /// whether the waker was called during the poll, and what becomes of its
    /// listener.
    pub open spec fn after_poll<T>(
        repeat: nat,
        view: ListenView,
        result: Poll<T>,
        called: bool,
    ) -> (nat, Step<T>, ListenView) {
        let view = if called {
            view.notified()
        } else {
            view
        };
        match result {
            Poll::Ready(value) => (repeat, Step::Done(value), view),
            Poll::Pending => match view.park_result() {
                (Poll::Ready(parked), view) => {
                    let (repeat, step) = BlockOn::next::<T>(repeat, parked);
                    (repeat, step, view)
                },
                (Poll::Pending, view) => (repeat, Step::Wait, view),
            },
        }
    }

    /// A poll has returned: return the result, or park.
    pub fn polled<T>(
        &mut self,
        heap: &mut Heap<ListenInner>,
        guard: &mut ListenerGuard,
        result: Poll<T>,
        called: bool,
    ) -> (step: Step<T>)
        requires
            old(heap).has(old(guard).link()),
            !old(heap).at(old(guard).link())@.parked,
        ensures
            *final(guard) == *old(guard),
            final(heap).same_but(old(heap), old(guard).link()),
            (final(self).repeat(), step, final(heap).at(old(guard).link())@) == BlockOn::after_poll(
                old(self).repeat(),
                old(heap).at(old(guard).link())@,
                result,
                called,
            ),
    {
        if called {
            guard.wake(heap);
        }
        match result {
            Poll::Ready(value) => Step::Done(value),
            Poll::Pending => {
                match guard.park(heap) {
                    Poll::Ready(parked) => self.parked(parked),
                    Poll::Pending => Step::Wait,
                }
            },
        }
    }

    /// What the thread does next once a wait has ended, and what becomes of its listener.
    pub open spec fn after_wait<T>(repeat: nat, view: ListenView, timed_out: bool) -> (
        nat,
        Step<T>,
        ListenView,
    ) {
        match view.resume_result(Ok(timed_out)) {
            (Poll::Ready(Ok(parked)), view) => {
                let (repeat, step) = BlockOn::next::<T>(repeat, parked);
                (repeat, step, view)
            },
            (_, view) => (repeat, Step::Wait, view),
        }
    }

    /// A wait has ended, because the thread was woken or because the time is up.
    pub fn resume<T>(
        &mut self,
        heap: &mut Heap<ListenInner>,
        guard: &mut ListenerGuard,
        timed_out: bool,
    ) -> (step: Step<T>)
        requires
            old(heap).has(old(guard).link()),
            old(heap).at(old(guard).link())@.parked,
        ensures
            *final(guard) == *old(guard),
            final(heap).same_but(old(heap), old(guard).link()),
            (final(self).repeat(), step, final(heap).at(old(guard).link())@)
                == BlockOn::after_wait::<T>(
                old(self).repeat(),
                old(heap).at(old(guard).link())@,
                timed_out,
            ),
    {
        match guard.resume(heap, Ok(timed_out)) {
            Poll::Ready(Ok(parked)) => self.parked(parked),
            _ => Step::Wait,
        }
    }
}

/// One turn of blocking the current thread on the result of a poll function:
/// poll once, and park if there is no result yet.
pub fn block_on_poll<P: PollFn>(
    block: &mut BlockOn,
    heap: &mut Heap<ListenInner>,
    guard: &mut ListenerGuard,
    poll: &mut P,
) -> (step: Step<P::Output>)
    requires
        old(poll).wf(),
        old(heap).has(old(guard).link()),
        !old(heap).at(old(guard).link())@.parked,
    ensures
        final(poll).wf(),
        *final(guard) == *old(guard),
        final(heap).same_but(old(heap), old(guard).link()),
        exists|result: Poll<P::Output>, called: bool|
            {
                &&& #[trigger] P::polls(*old(poll), false, result, called, *final(poll))
                &&& (final(block).repeat(), step, final(heap).at(old(guard).link())@)
                    == BlockOn::after_poll(
                    old(block).repeat(),
                    old(heap).at(old(guard).link())@,
                    result,
                    called,
                )
            },
{
    let mut cx = Context::new();
    let result = poll.poll(&mut cx);
    let called: bool = cx.is_called();
    block.polled(heap, guard, result, called)
}

/// One turn of blocking the current thread on the result of a future, for as
/// long as it takes. The thread does not back off.
pub fn block_on<P: PollFn>(
    heap: &mut Heap<ListenInner>,
    guard: &mut ListenerGuard,
    fut: &mut P,
) -> (step: Step<P::Output>)
    requires
        old(fut).wf(),
        old(heap).has(old(guard).link()),
        !old(heap).at(old(guard).link())@.parked,
    ensures
        final(fut).wf(),
        *final(guard) == *old(guard),
        final(heap).same_but(old(heap), old(guard).link()),
        !(step is TimedOut),
        step matches Step::Again { back_off } ==> !back_off,
        exists|result: Poll<P::Output>, called: bool|
            {
                let (_, next, view) = BlockOn::after_poll(
                    0,
                    old(heap).at(old(guard).link())@,
                    result,
                    called,
                );
                &&& #[trigger] P::polls(*old(fut), false, result, called, *final(fut))
                &&& step == next
                &&& final(heap).at(old(guard).link())@ == view
            },
{
    let mut block = BlockOn::new();
    block_on_poll(&mut block, heap, guard, fut)
}

/// What blocking on a future ends in: its result, or the future itself if
/// the time is up before there is one.
pub fn block_on_unpin<F, T>(fut: F, end: Poll<T>) -> (result: Result<T, F>)
    ensures
        result == (match end {
            Poll::Ready(value) => Ok::<T, F>(value),
            Poll::Pending => Err(fut),
        }),
{
    match end {
        Poll::Ready(value) => Ok(value),
        Poll::Pending => Err(fut),
    }
}

/// Start to park the current thread until notified. The function is handed a
/// notifier before. Note that this is susceptible to spurious notifications.
/// Use a dedicated [`Listener`] instance if this is undesirable.
pub fn park_thread<F: FnOnce(Notifier, &mut Heap<ListenInner>)>(
    heap: &mut Heap<ListenInner>,
    guard: &mut ListenerGuard,
    f: F,
) -> (result: Poll<ParkResult>)
    requires
        old(heap).has(old(guard).link()),
        !old(heap).at(old(guard).link())@.parked,
        old(heap).at(old(guard).link())@.count <= MAX_REFCOUNT,
        forall|notifier: Notifier, m: &mut Heap<ListenInner>|
            handed(*old(heap), old(guard).link(), notifier, *m) ==> #[trigger] f.requires(
                (notifier, m),
            ),
        forall|notifier: Notifier, m: &mut Heap<ListenInner>|
            handed(*old(heap), old(guard).link(), notifier, *m) && #[trigger] f.ensures(
                (notifier, m),
                (),
            ) ==> final(m).has(old(guard).link()) && !final(m).at(old(guard).link())@.parked,
    ensures
        *final(guard) == *old(guard),
        exists|notifier: Notifier, m: &mut Heap<ListenInner>|
            {
                &&& handed(*old(heap), old(guard).link(), notifier, *m)
                &&& #[trigger] f.ensures((notifier, m), ())
                &&& final(heap).same_but(final(m), old(guard).link())
                &&& (result, final(heap).at(old(guard).link())@) == final(m).at(
                    old(guard).link(),
                )@.park_result()
            },
{
    let notifier = guard.notifier(heap);
    f(notifier, heap);
    guard.park(heap)
}

/// What the function that is called before a thread parks is handed: a new notifier.
pub open spec fn handed(
    before: Heap<ListenInner>,
    link: BoxPtr<ListenInner>,
    notifier: Notifier,
    after: Heap<ListenInner>,
) -> bool {
    &&& notifier.link() == link
    &&& after.same_but(&before, link)
    &&& after.at(link)@ == before.at(link)@.with_handle()
}

/// The listener of a thread, which is kept from one use to the next.
#[derive(Debug)]
pub struct ThreadListen {
    listener: Listener,
    waker: Waker,
    in_use: bool,
}

/// A use of a listener by a thread.
#[derive(Debug)]
pub enum Listening {
    /// The thread's own listener is in use.
    Cached(ListenerGuard),
    /// A listener made for the purpose is in use.
    Fresh(Listener, ListenerGuard, Waker),
}

impl ThreadListen {
    /// The allocation of the thread's own listener.
    pub closed spec fn link(&self) -> BoxPtr<ListenInner> {
        self.listener.link()
    }

    /// The thread's own listener is in use.
    pub closed spec fn in_use(&self) -> bool {
        self.in_use
    }

    /// The waker goes with the listener.
    pub closed spec fn wf(&self) -> bool {
        self.waker.link() == self.listener.link()
    }

    /// A thread with a listener and a waker for it.
    pub fn new(heap: &mut Heap<ListenInner>, means: Means) -> (listen: Self)
        requires
            old(heap).issued() < usize::MAX,
        ensures
            listen.wf(),
            !listen.in_use(),
            !old(heap).has(listen.link()),
            final(heap).has(listen.link()),
            final(heap)@.remove(listen.link().addr()) == old(heap)@,
            final(heap).issued() == old(heap).issued() + 1,
            final(heap).at(listen.link())@ == (ListenView {
                count: 2,
                flags: ParkState::flags(false, false, false, false),
                announcement: means.announcement(),
                parked: false,
                woken: false,
            }),
    {
        let listener = Listener::new(heap, means);
        let waker = listener.waker(heap);
        ThreadListen { listener, waker, in_use: false }
    }

    /// Use a listener: the thread's own one, or a new one if that is in use.
    pub fn with_listener(&mut self, heap: &mut Heap<ListenInner>, means: Means) -> (listening:
        Listening)
        requires
            old(self).wf(),
            old(self).in_use() ==> old(heap).issued() < usize::MAX,
        ensures
            final(self).wf(),
            final(self).in_use(),
            final(self).link() == old(self).link(),
            match listening {
                Listening::Cached(guard) => {
                    &&& !old(self).in_use()
                    &&& guard.link() == old(self).link()
                    &&& !guard.release()
                    &&& final(heap).same(old(heap))
                },
                Listening::Fresh(listener, guard, waker) => {
                    &&& old(self).in_use()
                    &&& guard.link() == listener.link()
                    &&& waker.link() == listener.link()
                    &&& !guard.release()
                    &&& !old(heap).has(listener.link())
                    &&& final(heap).has(listener.link())
                    &&& final(heap)@.remove(listener.link().addr()) == old(heap)@
                    &&& final(heap).issued() == old(heap).issued() + 1
                    &&& final(heap).at(listener.link())@ == (ListenView {
                        count: 2,
                        flags: ParkState::flags(false, false, false, false),
                        announcement: means.announcement(),
                        parked: false,
                        woken: false,
                    })
                },
            },
    {
        if !self.in_use {
            self.in_use = true;
            Listening::Cached(self.listener.get_mut())
        } else {
            // thread listener in use, create a new one
            let mut listener = Listener::new(heap, means);
            let guard = listener.get_mut();
            let waker = guard.waker(heap);
            Listening::Fresh(listener, guard, waker)
        }
    }

    /// The use is over. A listener made for it goes away.
    pub fn leave(&mut self, heap: &mut Heap<ListenInner>, listening: Listening)
        requires
            old(self).wf(),
            old(self).in_use(),
            match listening {
                Listening::Cached(guard) => guard.link() == old(self).link() && !guard.release(),
                Listening::Fresh(listener, guard, waker) => {
                    &&& waker.link() == listener.link()
                    &&& guard.link() == listener.link()
                    &&& !guard.release()
                    &&& old(heap).has(listener.link())
                    &&& old(heap).at(listener.link())@.count >= 2
                },
            },
        ensures
            final(self).wf(),
            final(self).link() == old(self).link(),
            match listening {
                Listening::Cached(_) => !final(self).in_use() && final(heap).same(old(heap)),
                Listening::Fresh(listener, _, _) => {
                    &&& final(self).in_use()
                    &&& if old(heap).at(listener.link())@.count == 2 {
                        final(heap).freed(old(heap), listener.link())
                    } else {
                        &&& final(heap).same_but(old(heap), listener.link())
                        &&& final(heap).at(listener.link())@ == old(heap).at(
                            listener.link(),
                        )@.without_handle().without_handle()
                    }
                },
            },
    {
        match listening {
            Listening::Cached(_) => {
                self.in_use = false;
            },
            Listening::Fresh(listener, _, waker) => {
                waker.drop(heap);
                listener.drop(heap);
            },
        }
    }
}

/// A thread that waits is resumed once its waker has been called, and then
/// polls again without backing off.
pub proof fn law_wake_resumes<T>(repeat: nat, view: ListenView, timed_out: bool)
    requires
        view.parked,
    ensures
        BlockOn::after_wait::<T>(repeat, view.notified(), timed_out).0 == 0,
        BlockOn::after_wait::<T>(repeat, view.notified(), timed_out).1 == (Step::<T>::Again {
            back_off: false,
        }),
{
}

/// A thread whose waker was called during the poll, or before it, does not wait.
pub proof fn law_called_polls_again<T>(repeat: nat, view: ListenView, called: bool)
    requires
        called || view.flags.unpark,
    ensures
        BlockOn::after_poll::<T>(repeat, view, Poll::Pending, called).1 is Again,
        !BlockOn::after_poll::<T>(repeat, view, Poll::Pending, called).2.flags.unpark,
{
}

/// A thread stops without a result only if the time is up and no
/// notification has come.
pub proof fn law_timed_out<T>(repeat: nat, view: ListenView, timed_out: bool)
    ensures
        BlockOn::after_wait::<T>(repeat, view, timed_out).1 is TimedOut <==> timed_out
            && !view.flags.unpark,
{
}

/// A thread backs off only after finding notifications again and again
/// without waiting in between.
pub proof fn law_back_off<T>(repeat: nat, view: ListenView, called: bool)
    ensures
        BlockOn::after_poll::<T>(repeat, view, Poll::Pending, called).1 == (Step::<T>::Again {
            back_off: true,
        }) ==> repeat + 1 >= SPIN_LIMIT,
{
}

/// A poll that has returned a result ends the wait with that result, whatever has
/// been notified and however often. Without a result the thread polls again if it
/// has been notified, and parks otherwise; it never gives up at this point. It backs
/// off when it has found notifications again and again.
pub proof fn law_polled<T>(
    block: &mut BlockOn,
    heap: &mut Heap<ListenInner>,
    guard: &mut ListenerGuard,
    result: Poll<T>,
    called: bool,
    step: Step<T>,
)
    requires
        heap.has(guard.link()),
        !heap.at(guard.link())@.parked,
        call_ensures(BlockOn::polled::<T>, (block, heap, guard, result, called), step),
    ensures
        ({
            let before = old(heap).at(old(guard).link())@;
            let after = final(heap).at(old(guard).link())@;
            &&& result matches Poll::Ready(value) ==> step == Step::Done(value)
            &&& !(step is TimedOut)
            &&& (step is Again) == (result is Pending && (called || before.flags.unpark))
            &&& (step is Wait) == (result is Pending && !called && !before.flags.unpark)
            &&& after.parked == (step is Wait)
            &&& step is Again ==> !after.flags.unpark
            &&& step is Done ==> after.flags.unpark == (called || before.flags.unpark)
            &&& step matches Step::Again { back_off } ==> back_off == (final(block).repeat() >= 5)
            &&& step is Again && old(block).repeat() < usize::MAX
                ==> final(block).repeat() == old(block).repeat() + 1
            &&& !(step is Again) ==> final(block).repeat() == old(block).repeat()
            &&& after.count == before.count
            &&& !before.announcement.held ==> after.flags.held == before.flags.held
            &&& final(guard).link() == old(guard).link()
            &&& final(heap)@.remove(old(guard).link().addr()) == old(heap)@.remove(
                old(guard).link().addr(),
            )
        }),
{
}

/// A thread that waits goes on once it has been notified, polls again and does not
/// back off. It gives up only if the time is up and it has not been notified, and
/// waits on if neither holds.
pub proof fn law_resume<T>(
    block: &mut BlockOn,
    heap: &mut Heap<ListenInner>,
    guard: &mut ListenerGuard,
    timed_out: bool,
    step: Step<T>,
)
    requires
        heap.has(guard.link()),
        heap.at(guard.link())@.parked,
        call_ensures(BlockOn::resume::<T>, (block, heap, guard, timed_out), step),
    ensures
        ({
            let before = old(heap).at(old(guard).link())@;
            let after = final(heap).at(old(guard).link())@;
            &&& before.flags.unpark ==> {
                &&& step == (Step::<T>::Again { back_off: false })
                &&& final(block).repeat() == 0
            }
            &&& !before.flags.unpark && timed_out ==> step is TimedOut
            &&& !before.flags.unpark && !timed_out ==> step is Wait
            &&& after.parked == (step is Wait)
            &&& !after.flags.unpark
            &&& !before.flags.unpark ==> final(block).repeat() == old(block).repeat()
            &&& after.count == before.count
            &&& after.flags.held == before.flags.held
            &&& final(guard).link() == old(guard).link()
            &&& final(heap)@.remove(old(guard).link().addr()) == old(heap)@.remove(
                old(guard).link().addr(),
            )
        }),
{
}

/// What is blocked on is polled once in a turn. If that gives a result, it is
/// returned. Otherwise the thread polls again if it has been notified, also by the
/// poll itself, and waits if it has not.
pub proof fn law_block_on_poll<P: PollFn>(
    block: &mut BlockOn,
    heap: &mut Heap<ListenInner>,
    guard: &mut ListenerGuard,
    poll: &mut P,
    step: Step<P::Output>,
)
    requires
        heap.has(guard.link()),
        !heap.at(guard.link())@.parked,
        call_ensures(block_on_poll::<P>, (block, heap, guard, poll), step),
    ensures
        ({
            let before = old(heap).at(old(guard).link())@;
            let after = final(heap).at(old(guard).link())@;
            &&& exists|result: Poll<P::Output>, called: bool|
                {
                    &&& #[trigger] P::polls(*old(poll), false, result, called, *final(poll))
                    &&& result matches Poll::Ready(value) ==> step == Step::Done(value)
                    &&& result is Pending ==> {
                        &&& (step is Again) == (called || before.flags.unpark)
                        &&& (step is Wait) == (!called && !before.flags.unpark)
                    }
                }
            &&& after.parked == (step is Wait)
            &&& after.count == before.count
            &&& final(guard).link() == old(guard).link()
            &&& final(heap)@.remove(old(guard).link().addr()) == old(heap)@.remove(
                old(guard).link().addr(),
            )
        }),
{
    let (result, called) = choose|result: Poll<P::Output>, called: bool|
        {
            &&& #[trigger] P::polls(*old(poll), false, result, called, *final(poll))
            &&& (final(block).repeat(), step, final(heap).at(old(guard).link())@)
                == BlockOn::after_poll(
                old(block).repeat(),
                old(heap).at(old(guard).link())@,
                result,
                called,
            )
        };
    assert(P::polls(*old(poll), false, result, called, *final(poll)));
}

/// What is blocked on for as long as it takes is polled once in a turn. If that
/// gives a result, it is returned. Otherwise the thread polls again if it has been
/// notified, and waits if it has not; it never gives up, nor backs off.
pub proof fn law_block_on<P: PollFn>(
    heap: &mut Heap<ListenInner>,
    guard: &mut ListenerGuard,
    fut: &mut P,
    step: Step<P::Output>,
)
    requires
        heap.has(guard.link()),
        !heap.at(guard.link())@.parked,
        call_ensures(block_on::<P>, (heap, guard, fut), step),
    ensures
        ({
            let before = old(heap).at(old(guard).link())@;
            let after = final(heap).at(old(guard).link())@;
            &&& exists|result: Poll<P::Output>, called: bool|
                {
                    &&& #[trigger] P::polls(*old(fut), false, result, called, *final(fut))
                    &&& result matches Poll::Ready(value) ==> step == Step::Done(value)
                    &&& result is Pending && (called || before.flags.unpark) ==> step == (Step::<
                        P::Output,
                    >::Again { back_off: false })
                    &&& result is Pending && !called && !before.flags.unpark ==> step is Wait
                }
            &&& after.parked == (step is Wait)
            &&& after.count == before.count
            &&& final(heap)@.remove(old(guard).link().addr()) == old(heap)@.remove(
                old(guard).link().addr(),
            )
        }),
{
    let (result, called) = choose|result: Poll<P::Output>, called: bool|
        {
            let (_, next, view) = BlockOn::after_poll(
                0,
                old(heap).at(old(guard).link())@,
                result,
                called,
            );
            &&& #[trigger] P::polls(*old(fut), false, result, called, *final(fut))
            &&& step == next
            &&& final(heap).at(old(guard).link())@ == view
        };
    assert(P::polls(*old(fut), false, result, called, *final(fut)));
}

/// Blocking on a future gives its result, or the future itself if there is none.
pub proof fn law_block_on_unpin<F, T>(fut: F, end: Poll<T>, result: Result<T, F>)
    requires
        call_ensures(block_on_unpin::<F, T>, (fut, end), result),
    ensures
        end matches Poll::Ready(value) ==> result == Ok::<T, F>(value),
        end is Pending ==> result == Err::<T, F>(fut),
{
}

/// A thread parks unless it has been notified, by the function that is handed the
/// notifier or before that. The function is called once, with a notifier of the
/// thread that parks.
pub proof fn law_park_thread<F: FnOnce(Notifier, &mut Heap<ListenInner>)>(
    heap: &mut Heap<ListenInner>,
    guard: &mut ListenerGuard,
    f: F,
    result: Poll<ParkResult>,
)
    requires
        call_ensures(park_thread::<F>, (heap, guard, f), result),
    ensures
        exists|notifier: Notifier, m: &mut Heap<ListenInner>|
            {
                &&& #[trigger] f.ensures((notifier, m), ())
                &&& notifier.link() == old(guard).link()
                &&& m.at(old(guard).link())@.count == old(heap).at(old(guard).link())@.count + 1
                &&& m.at(old(guard).link())@.flags == old(heap).at(old(guard).link())@.flags
                &&& final(m).at(old(guard).link())@.flags.unpark ==> {
                    &&& result == Poll::Ready(ParkResult::Skipped)
                    &&& !final(heap).at(old(guard).link())@.flags.unpark
                    &&& !final(heap).at(old(guard).link())@.parked
                }
                &&& !final(m).at(old(guard).link())@.flags.unpark ==> {
                    &&& result is Pending
                    &&& final(heap).at(old(guard).link())@.parked
                }
            },
{
    let (notifier, m) = choose|notifier: Notifier, m: &mut Heap<ListenInner>|
        {
            &&& handed(*old(heap), old(guard).link(), notifier, *m)
            &&& #[trigger] f.ensures((notifier, m), ())
            &&& final(heap).same_but(final(m), old(guard).link())
            &&& (result, final(heap).at(old(guard).link())@) == final(m).at(
                old(guard).link(),
            )@.park_result()
        };
    assert(f.ensures((notifier, m), ()));
}

/// A thread that blocks while it blocks uses another listener, and its own one again
/// once it is done with that.
pub proof fn law_nested(
    thread: &mut ThreadListen,
    inner: &mut ThreadListen,
    left: &mut ThreadListen,
    heap: &mut Heap<ListenInner>,
    nested: &mut Heap<ListenInner>,
    after: &mut Heap<ListenInner>,
    means: Means,
    first: Listening,
    second: Listening,
)
    requires
        !thread.in_use(),
        heap.has(thread.link()),
        call_ensures(ThreadListen::with_listener, (thread, heap, means), first),
        *final(thread) == *inner,
        *final(heap) == *nested,
        call_ensures(ThreadListen::with_listener, (inner, nested, means), second),
        *final(inner) == *left,
        *final(nested) == *after,
        call_ensures(ThreadListen::leave, (left, after, second), ()),
    ensures
        first matches Listening::Cached(guard) && guard.link() == old(thread).link(),
        second matches Listening::Fresh(listener, guard, waker) && {
            &&& listener.link() != old(thread).link()
            &&& guard.link() == listener.link()
            &&& waker.link() == listener.link()
            &&& !final(after).has(listener.link())
        },
        final(left).in_use(),
        final(left).link() == old(thread).link(),
        final(after).at(old(thread).link()) == old(heap).at(old(thread).link()),
{
    assert(final(nested)@.remove(second->Fresh_0.link().addr())[old(thread).link().addr()]
        == old(heap).at(old(thread).link()));
}

} // verus!
