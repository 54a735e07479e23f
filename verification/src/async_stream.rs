//! Streams made from generators.
//!
//! A generator is polled with a slot, into which it puts the value that it
//! has to offer. It is then polled again once the value has been taken out.

use core::marker::PhantomData;

use vstd::prelude::*;

use crate::poll::Poll;
use crate::stream::{Stream, StreamIter};
use crate::thread::Context;

verus! {

/// A place for one value, which is open until it has been filled.
#[derive(Debug)]
pub struct StreamSlot<T> {
    open: bool,
    item: Option<T>,
}

impl<T> View for StreamSlot<T> {
    type V = (bool, Option<T>);

    /// Whether the slot is open, and the value in it.
    closed spec fn view(&self) -> (bool, Option<T>) {
        (self.open, self.item)
    }
}

impl<T> StreamSlot<T> {
    /// The slot is open.
    pub open spec fn is_open(&self) -> bool {
        self@.0
    }

    /// An open slot.
    pub fn new() -> (slot: Self)
        ensures
            slot@ == (true, None::<T>),
    {
        StreamSlot { open: true, item: None }
    }
}

/// Run a generator with an open slot. What it leaves in the slot is handed
/// out beside its result.
pub fn stream_poll<B: StreamBody>(
    body: &mut B,
    cx: &mut Context,
    item: &mut Option<B::Item>,
) -> (result: Poll<()>)
    requires
        old(body).wf(),
    ensures
        final(body).wf(),
        exists|open: bool| #[trigger]
            B::polls(
                *old(body),
                old(cx).called(),
                (true, None),
                result,
                final(cx).called(),
                (open, *final(item)),
                *final(body),
            ),
{
    let mut slot = StreamSlot::new();
    let result = body.poll(&mut slot, cx);
    let ghost open = slot.open;
    *item = slot.item;
    assert(B::polls(
        *old(body),
        old(cx).called(),
        (true, None),
        result,
        cx.called(),
        (open, *item),
        *body,
    ));
    result
}

/// Put a value into an open slot.
pub fn stream_send<T>(slot: &mut StreamSlot<T>, value: T)
    requires
        old(slot).is_open(),
    ensures
        final(slot)@ == (false, Some(value)),
{
    slot.open = false;
    slot.item = Some(value);
}

/// Tell whether the slot is open.
pub fn stream_flush<T>(slot: &StreamSlot<T>) -> (open: bool)
    ensures
        open == slot.is_open(),
{
    slot.open
}

/// A utility class for providing values to the stream.
#[derive(Debug)]
pub struct AsyncStreamScope<T> {
    marker: PhantomData<T>,
}

impl<T> AsyncStreamScope<T> {
    /// A provider of values.
    pub fn new() -> (scope: Self) {
        AsyncStreamScope { marker: PhantomData }
    }

    /// Dispatch a value to the stream, returning an [`AsyncStreamFlush`] which
    /// will resolve when the value has been received.
    pub fn send(&mut self, slot: &mut StreamSlot<T>, value: T) -> (flush: AsyncStreamFlush<T>)
        requires
            old(slot).is_open(),
        ensures
            final(slot)@ == (false, Some(value)),
            flush.first(),
    {
        stream_send(slot, value);
        AsyncStreamFlush { first: true, marker: PhantomData }
    }
}

impl<T> Clone for AsyncStreamScope<T> {
    fn clone(&self) -> (scope: Self) {
        AsyncStreamScope { marker: PhantomData }
    }
}

/// Resolves when the dispatched value has been received.
#[derive(Debug)]
pub struct AsyncStreamFlush<T> {
    first: bool,
    marker: PhantomData<T>,
}

impl<T> AsyncStreamFlush<T> {
    /// It has not been polled yet.
    pub closed spec fn first(&self) -> bool {
        self.first
    }

    /// Ask whether the value has been received.
    pub fn poll(&mut self, slot: &StreamSlot<T>) -> (result: Poll<()>)
        ensures
            (result is Ready) == (!old(self).first() && slot.is_open()),
            final(self).first() == (old(self).first() && result is Ready),
    {
        if self.first || !stream_flush(slot) {
            // wait on the first poll - the slot has just been filled.
            // on a subsequent poll the slot must have been replaced.
            self.first = false;
            Poll::Pending
        } else {
            Poll::Ready(())
        }
    }
}

/// A generator at work.
pub trait StreamBody: Sized {
    /// The item type of the stream.
    type Item;

    /// It can be polled.
    open spec fn wf(&self) -> bool {
        true
    }

    /// Polling `before` with a slot as given may return `result` and leave
    /// `after`, and the slot as given then. Whether the waker was called
    /// before the poll, and whether it has been called after it, are given too.
    open spec fn polls(
        before: Self,
        was_called: bool,
        slot: (bool, Option<Self::Item>),
        result: Poll<()>,
        called: bool,
        filled: (bool, Option<Self::Item>),
        after: Self,
    ) -> bool {
        true
    }

    /// Go on until there is a value in the slot, until there is something to
    /// wait for, or until the end.
    fn poll(&mut self, slot: &mut StreamSlot<Self::Item>, cx: &mut Context) -> (result: Poll<()>)
        requires
            old(self).wf(),
            old(slot).is_open(),
        ensures
            final(self).wf(),
            Self::polls(
                *old(self),
                old(cx).called(),
                old(slot)@,
                result,
                final(cx).called(),
                final(slot)@,
                *final(self),
            ),
    ;
}

/// Async stream initializers.
pub trait AsyncStreamInit: Sized {
    /// The item type of the stream.
    type Item;

    /// The generator that produces the items.
    type Fut: StreamBody<Item = Self::Item>;

    /// The constructor can be run.
    open spec fn wf(&self) -> bool {
        true
    }

    /// Running the constructor may give `fut`.
    open spec fn makes(self, fut: Self::Fut) -> bool {
        true
    }

    /// Run the stream constructor.
    fn into_future(self, scope: AsyncStreamScope<Self::Item>) -> (fut: Self::Fut)
        requires
            self.wf(),
        ensures
            fut.wf(),
            self.makes(fut),
    ;
}

/// How far a stream has come.
#[derive(Debug)]
pub enum AsyncStreamState<I, F> {
    /// The constructor has not been run.
    Init(I),
    /// The generator is at work.
    Poll(F),
    /// The generator has ended.
    Complete,
}

/// A [`Stream`] implementation wrapping a generator.
#[derive(Debug)]
pub struct AsyncStream<I: AsyncStreamInit> {
    state: AsyncStreamState<I, I::Fut>,
}

/// What a poll of the generator means to the stream: whether the stream has
/// ended, and what is returned. An item is returned as soon as it is there,
/// with the end of the generator too; a generator that ends without one ends
/// the stream.
pub fn stream_result<T>(item: Option<T>, result: Poll<()>) -> (outcome: (bool, Poll<Option<T>>))
    ensures
        outcome.0 == (result is Ready),
        outcome.1 == (if result is Ready || item is Some {
            Poll::Ready(item)
        } else {
            Poll::Pending
        }),
{
    match result {
        Poll::Ready(()) => (true, Poll::Ready(item)),
        Poll::Pending => {
            if item.is_some() {
                (false, Poll::Ready(item))
            } else {
                (false, Poll::Pending)
            }
        },
    }
}

impl<I: AsyncStreamInit> AsyncStream<I> {
    /// How far the stream has come.
    pub closed spec fn state(&self) -> AsyncStreamState<I, I::Fut> {
        self.state
    }

    /// Make a stream.
    pub fn new(init: I) -> (stream: Self)
        ensures
            stream.state() == AsyncStreamState::<I, I::Fut>::Init(init),
    {
        AsyncStream { state: AsyncStreamState::Init(init) }
    }

    /// Tell whether the stream has ended.
    pub fn is_terminated(&self) -> (done: bool)
        ensures
            done == (self.state() is Complete),
    {
        matches!(self.state, AsyncStreamState::Complete)
    }

    /// Iterate over the stream.
    pub fn into_iter(self) -> (iter: StreamIter<Self>)
        ensures
            iter.stream() == Some(self),
    {
        StreamIter::new(self)
    }

    /// Polling the stream while the generator `fut` is at work may return
    /// `result` and leave `after`.
    pub open spec fn body_polls(
        fut: I::Fut,
        was_called: bool,
        result: Poll<Option<I::Item>>,
        called: bool,
        after: Self,
    ) -> bool {
        exists|open: bool, item: Option<I::Item>, ended: Poll<()>, rest: I::Fut|
            {
                &&& #[trigger] I::Fut::polls(
                    fut,
                    was_called,
                    (true, None),
                    ended,
                    called,
                    (open, item),
                    rest,
                )
                &&& result == (if ended is Ready || item is Some {
                    Poll::Ready(item)
                } else {
                    Poll::Pending
                })
                &&& after.state() == (if ended is Ready {
                    AsyncStreamState::<I, I::Fut>::Complete
                } else {
                    AsyncStreamState::Poll(rest)
                })
            }
    }
}

impl<I: AsyncStreamInit> Stream for AsyncStream<I> {
    type Item = I::Item;

    open spec fn wf(&self) -> bool {
        match self.state() {
            AsyncStreamState::Init(init) => init.wf(),
            AsyncStreamState::Poll(fut) => fut.wf(),
            AsyncStreamState::Complete => true,
        }
    }

    open spec fn polls(
        before: Self,
        was_called: bool,
        result: Poll<Option<I::Item>>,
        called: bool,
        after: Self,
    ) -> bool {
        match before.state() {
            AsyncStreamState::Init(init) => exists|fut: I::Fut| #[trigger]
                init.makes(fut) && Self::body_polls(fut, was_called, result, called, after),
            AsyncStreamState::Poll(fut) => Self::body_polls(
                fut,
                was_called,
                result,
                called,
                after,
            ),
            AsyncStreamState::Complete => {
                &&& result == Poll::Ready(None::<I::Item>)
                &&& called == was_called
                &&& after.state() is Complete
            },
        }
    }

    fn poll_next(&mut self, cx: &mut Context) -> (result: Poll<Option<I::Item>>) {
        let mut state = AsyncStreamState::Complete;
        core::mem::swap(&mut state, &mut self.state);
        let mut fut = match state {
            AsyncStreamState::Init(init) => init.into_future(AsyncStreamScope::new()),
            AsyncStreamState::Poll(fut) => fut,
            AsyncStreamState::Complete => {
                return Poll::Ready(None);
            },
        };
        let ghost before = fut;
        let mut item: Option<I::Item> = None;
        let ended = stream_poll(&mut fut, cx, &mut item);
        let ghost left = item;
        let (complete, result) = stream_result(item, ended);
        let ghost rest = fut;
        if !complete {
            self.state = AsyncStreamState::Poll(fut);
        }
        proof {
            let open = choose|open: bool| #[trigger]
                I::Fut::polls(
                    before,
                    old(cx).called(),
                    (true, None),
                    ended,
                    cx.called(),
                    (open, left),
                    rest,
                );
            assert(Self::body_polls(before, old(cx).called(), result, cx.called(), *self));
        }
        result
    }
}

/// A constructor for an async stream.
#[derive(Debug)]
pub struct AsyncStreamFn<I, T, F>(I, PhantomData<(T, F)>);

impl<T, F: StreamBody<Item = T>, I: FnOnce(AsyncStreamScope<T>) -> F> AsyncStreamFn<I, T, F> {
    /// The function that makes the generator.
    pub closed spec fn function(&self) -> I {
        self.0
    }
}

impl<T, F: StreamBody<Item = T>, I: FnOnce(AsyncStreamScope<T>) -> F> AsyncStreamInit for AsyncStreamFn<
    I,
    T,
    F,
> {
    type Item = T;

    type Fut = F;

    open spec fn wf(&self) -> bool {
        &&& forall|scope: AsyncStreamScope<T>| #[trigger] self.function().requires((scope,))
        &&& forall|scope: AsyncStreamScope<T>, fut: F| #[trigger]
            self.function().ensures((scope,), fut) ==> fut.wf()
    }

    open spec fn makes(self, fut: F) -> bool {
        exists|scope: AsyncStreamScope<T>| #[trigger] self.function().ensures((scope,), fut)
    }

    fn into_future(self, scope: AsyncStreamScope<T>) -> (fut: F) {
        let function = self.0;
        assert(self.function() == function);
        function(scope)
    }
}

/// Construct a new [`AsyncStream`] from a generator function.
pub fn make_stream<T, F: StreamBody<Item = T>, I: FnOnce(AsyncStreamScope<T>) -> F>(init: I) -> (stream:
    AsyncStream<AsyncStreamFn<I, T, F>>)
    ensures
        stream.state() matches AsyncStreamState::Init(made) && made.function() == init,
{
    AsyncStream::new(AsyncStreamFn(init, PhantomData))
}

/// A generator at work that may fail.
pub trait TryStreamBody: Sized {
    /// An item.
    type Success;

    /// An error.
    type Failure;

    /// It can be polled.
    open spec fn wf(&self) -> bool {
        true
    }

    /// Polling `before` with a slot as given may return `result` and leave
    /// `after`, and the slot as given then. Whether the waker was called
    /// before the poll, and whether it has been called after it, are given too.
    open spec fn polls(
        before: Self,
        was_called: bool,
        slot: (bool, Option<Result<Self::Success, Self::Failure>>),
        result: Poll<Result<(), Self::Failure>>,
        called: bool,
        filled: (bool, Option<Result<Self::Success, Self::Failure>>),
        after: Self,
    ) -> bool {
        true
    }

    /// Go on until there is a value in the slot, until there is something to
    /// wait for, or until the end.
    fn poll(
        &mut self,
        slot: &mut StreamSlot<Result<Self::Success, Self::Failure>>,
        cx: &mut Context,
    ) -> (result: Poll<Result<(), Self::Failure>>)
        requires
            old(self).wf(),
        ensures
            final(self).wf(),
            Self::polls(
                *old(self),
                old(cx).called(),
                old(slot)@,
                result,
                final(cx).called(),
                final(slot)@,
                *final(self),
            ),
    ;
}

/// A generator that is polled with an open slot, and fails, leaves the slot
/// open: nothing that it has sent is still to be received.
pub open spec fn fails_open<F: TryStreamBody>() -> bool {
    forall|
        before: F,
        was_called: bool,
        slot: (bool, Option<Result<F::Success, F::Failure>>),
        end: Poll<Result<(), F::Failure>>,
        called: bool,
        left: (bool, Option<Result<F::Success, F::Failure>>),
        after: F,
    |
        before.wf() && slot.0 && #[trigger] F::polls(
            before,
            was_called,
            slot,
            end,
            called,
            left,
            after,
        ) && (end matches Poll::Ready(Err(_))) ==> left.0
}

/// What the end of a generator that may fail means to the stream. An error is
/// the last item.
pub fn try_stream_result<T, E>(slot: &mut StreamSlot<Result<T, E>>, result: Poll<Result<(), E>>) -> (
outcome: Poll<()>)
    requires
        result matches Poll::Ready(Err(_)) ==> old(slot).is_open(),
    ensures
        outcome == (if result is Ready {
            Poll::Ready(())
        } else {
            Poll::Pending
        }),
        final(slot)@ == (match result {
            Poll::Ready(Err(err)) => (false, Some(Err::<T, E>(err))),
            _ => old(slot)@,
        }),
{
    match result {
        Poll::Pending => Poll::Pending,
        Poll::Ready(Ok(())) => Poll::Ready(()),
        Poll::Ready(Err(err)) => {
            stream_send(slot, Err(err));
            Poll::Ready(())
        },
    }
}

/// A generator whose error is the last item.
#[derive(Debug)]
pub struct TryBody<F: TryStreamBody> {
    body: F,
}

impl<F: TryStreamBody> TryBody<F> {
    /// The generator that may fail.
    pub closed spec fn body(&self) -> F {
        self.body
    }

    /// The generator has returned `end` and left the slot as given: what is
    /// returned, and what the slot holds then.
    pub open spec fn ends(
        slot: (bool, Option<Result<F::Success, F::Failure>>),
        end: Poll<Result<(), F::Failure>>,
    ) -> (Poll<()>, (bool, Option<Result<F::Success, F::Failure>>)) {
        match end {
            Poll::Pending => (Poll::Pending, slot),
            Poll::Ready(Ok(())) => (Poll::Ready(()), slot),
            Poll::Ready(Err(err)) => (Poll::Ready(()), (false, Some(Err(err)))),
        }
    }
}

impl<F: TryStreamBody> StreamBody for TryBody<F> {
    type Item = Result<F::Success, F::Failure>;

    open spec fn wf(&self) -> bool {
        self.body().wf() && fails_open::<F>()
    }

    open spec fn polls(
        before: Self,
        was_called: bool,
        slot: (bool, Option<Result<F::Success, F::Failure>>),
        result: Poll<()>,
        called: bool,
        filled: (bool, Option<Result<F::Success, F::Failure>>),
        after: Self,
    ) -> bool {
        exists|
            end: Poll<Result<(), F::Failure>>,
            left: (bool, Option<Result<F::Success, F::Failure>>),
        |
            #[trigger] F::polls(
                before.body(),
                was_called,
                slot,
                end,
                called,
                left,
                after.body(),
            ) && (result, filled) == Self::ends(left, end)
    }

    fn poll(
        &mut self,
        slot: &mut StreamSlot<Result<F::Success, F::Failure>>,
        cx: &mut Context,
    ) -> (result: Poll<()>) {
        let end = self.body.poll(slot, cx);
        let ghost left = slot@;
        let result = try_stream_result(slot, end);
        assert((result, slot@) == Self::ends(left, end));
        result
    }
}

/// A constructor for an async stream of results.
#[derive(Debug)]
pub struct TryStreamFn<I, F>(I, PhantomData<F>);

impl<F: TryStreamBody, I: FnOnce(AsyncStreamScope<Result<F::Success, F::Failure>>) -> F> TryStreamFn<
    I,
    F,
> {
    /// The function that makes the generator.
    pub closed spec fn function(&self) -> I {
        self.0
    }
}

impl<F: TryStreamBody, I: FnOnce(AsyncStreamScope<Result<F::Success, F::Failure>>) -> F> AsyncStreamInit for TryStreamFn<
    I,
    F,
> {
    type Item = Result<F::Success, F::Failure>;

    type Fut = TryBody<F>;

    open spec fn wf(&self) -> bool {
        &&& forall|scope: AsyncStreamScope<Result<F::Success, F::Failure>>| #[trigger]
            self.function().requires((scope,))
        &&& forall|scope: AsyncStreamScope<Result<F::Success, F::Failure>>, fut: F| #[trigger]
            self.function().ensures((scope,), fut) ==> fut.wf()
        &&& fails_open::<F>()
    }

    open spec fn makes(self, fut: TryBody<F>) -> bool {
        exists|scope: AsyncStreamScope<Result<F::Success, F::Failure>>| #[trigger]
            self.function().ensures((scope,), fut.body())
    }

    fn into_future(self, scope: AsyncStreamScope<Result<F::Success, F::Failure>>) -> (fut: TryBody<
        F,
    >) {
        let function = self.0;
        assert(self.function() == function);
        let body = function(scope);
        let fut = TryBody { body };
        assert(fut.body() == body);
        fut
    }
}

/// Construct an initializer for a stream of results from a generator function
/// that may fail: an error is the last item.
pub fn try_stream_fn<
    F: TryStreamBody,
    I: FnOnce(AsyncStreamScope<Result<F::Success, F::Failure>>) -> F,
>(init: I) -> (made: TryStreamFn<I, F>)
    ensures
        made.function() == init,
{
    TryStreamFn(init, PhantomData)
}

/// A stream that has ended stays so, and has nothing more to offer.
pub proof fn law_ended<I: AsyncStreamInit>(
    before: AsyncStream<I>,
    was_called: bool,
    result: Poll<Option<I::Item>>,
    called: bool,
    after: AsyncStream<I>,
)
    requires
        before.state() is Complete,
        AsyncStream::<I>::polls(before, was_called, result, called, after),
    ensures
        result == Poll::Ready(None::<I::Item>),
        after.state() is Complete,
{
}

/// A stream says that it has nothing more to offer only once it has ended.
pub proof fn law_none_is_end<I: AsyncStreamInit>(
    before: AsyncStream<I>,
    was_called: bool,
    result: Poll<Option<I::Item>>,
    called: bool,
    after: AsyncStream<I>,
)
    requires
        AsyncStream::<I>::polls(before, was_called, result, called, after),
        result == Poll::Ready(None::<I::Item>),
    ensures
        after.state() is Complete,
{
}

/// A stream asks its generator for an item, with an open slot. An item is returned
/// as soon as there is one. Without one the stream waits as long as the generator
/// does, and goes on with it; it ends when the generator has ended.
pub proof fn law_poll_next<I: AsyncStreamInit>(
    stream: &mut AsyncStream<I>,
    cx: &mut Context,
    fut: I::Fut,
    result: Poll<Option<I::Item>>,
)
    requires
        stream.state() == AsyncStreamState::<I, I::Fut>::Poll(fut),
        call_ensures(<AsyncStream<I> as Stream>::poll_next, (stream, cx), result),
    ensures
        exists|open: bool, item: Option<I::Item>, ended: Poll<()>, rest: I::Fut|
            {
                &&& #[trigger] I::Fut::polls(
                    fut,
                    old(cx).called(),
                    (true, None),
                    ended,
                    final(cx).called(),
                    (open, item),
                    rest,
                )
                &&& item is Some ==> result == Poll::Ready(item)
                &&& item is None && ended is Ready ==> result == Poll::Ready(None::<I::Item>)
                &&& item is None && ended is Pending ==> result is Pending
                &&& ended is Ready ==> final(stream).state() is Complete
                &&& ended is Pending ==> final(stream).state() == AsyncStreamState::<
                    I,
                    I::Fut,
                >::Poll(rest)
            },
{
    assert(AsyncStream::<I>::body_polls(
        fut,
        old(cx).called(),
        result,
        final(cx).called(),
        *final(stream),
    ));
}

/// A stream that has not been asked before makes its generator, and asks that.
pub proof fn law_poll_first<I: AsyncStreamInit>(
    stream: &mut AsyncStream<I>,
    cx: &mut Context,
    init: I,
    result: Poll<Option<I::Item>>,
)
    requires
        stream.state() == AsyncStreamState::<I, I::Fut>::Init(init),
        call_ensures(<AsyncStream<I> as Stream>::poll_next, (stream, cx), result),
    ensures
        exists|fut: I::Fut, open: bool, item: Option<I::Item>, ended: Poll<()>, rest: I::Fut|
            {
                &&& init.makes(fut)
                &&& #[trigger] I::Fut::polls(
                    fut,
                    old(cx).called(),
                    (true, None),
                    ended,
                    final(cx).called(),
                    (open, item),
                    rest,
                )
                &&& item is Some ==> result == Poll::Ready(item)
                &&& item is None && ended is Ready ==> result == Poll::Ready(None::<I::Item>)
                &&& item is None && ended is Pending ==> result is Pending
                &&& ended is Ready ==> final(stream).state() is Complete
                &&& ended is Pending ==> final(stream).state() == AsyncStreamState::<
                    I,
                    I::Fut,
                >::Poll(rest)
            },
{
    let fut = choose|fut: I::Fut| #[trigger]
        init.makes(fut) && AsyncStream::<I>::body_polls(
            fut,
            old(cx).called(),
            result,
            final(cx).called(),
            *final(stream),
        );
    assert(AsyncStream::<I>::body_polls(
        fut,
        old(cx).called(),
        result,
        final(cx).called(),
        *final(stream),
    ));
}

/// A stream whose generator has to wait waits as well, and does not end.
pub proof fn law_waits<I: AsyncStreamInit>(
    stream: &mut AsyncStream<I>,
    cx: &mut Context,
    fut: I::Fut,
    result: Poll<Option<I::Item>>,
)
    requires
        stream.state() == AsyncStreamState::<I, I::Fut>::Poll(fut),
        forall|called: bool, ended: Poll<()>, filled: (bool, Option<I::Item>), rest: I::Fut| #[trigger]
            I::Fut::polls(fut, cx.called(), (true, None), ended, called, filled, rest)
                ==> ended is Pending && filled.1 is None,
        call_ensures(<AsyncStream<I> as Stream>::poll_next, (stream, cx), result),
    ensures
        result is Pending,
        final(stream).state() is Poll,
{
    law_poll_next(stream, cx, fut, result);
}

/// A stream that has ended stays so, and asks nobody for an item.
pub proof fn law_poll_after_end<I: AsyncStreamInit>(
    stream: &mut AsyncStream<I>,
    cx: &mut Context,
    result: Poll<Option<I::Item>>,
)
    requires
        stream.state() is Complete,
        call_ensures(<AsyncStream<I> as Stream>::poll_next, (stream, cx), result),
    ensures
        result == Poll::Ready(None::<I::Item>),
        final(stream).state() is Complete,
        final(cx).called() == old(cx).called(),
{
}

/// An item is returned as soon as it is there, and the stream goes on unless the
/// generator has ended; without an item it waits, or ends with the generator.
pub proof fn law_stream_result<T>(
    item: Option<T>,
    result: Poll<()>,
    outcome: (bool, Poll<Option<T>>),
)
    requires
        call_ensures(stream_result::<T>, (item, result), outcome),
    ensures
        outcome.0 == (result is Ready),
        item is Some ==> outcome.1 == Poll::Ready(item),
        item is None && result is Pending ==> outcome.1 is Pending,
        item is None && result is Ready ==> outcome.1 == Poll::Ready(None::<T>),
{
}

/// What has been sent is received only once the generator has been polled again
/// with an open slot.
pub proof fn law_flush<T>(flush: &mut AsyncStreamFlush<T>, slot: &StreamSlot<T>, result: Poll<()>)
    requires
        call_ensures(AsyncStreamFlush::<T>::poll, (flush, slot), result),
    ensures
        old(flush).first() ==> result is Pending && !final(flush).first(),
        !old(flush).first() && slot@.0 ==> result is Ready,
        !old(flush).first() && !slot@.0 ==> result is Pending,
{
}

/// What is sent is what the slot hands out, and nothing else can be sent before the
/// slot has been replaced.
pub proof fn law_send<T>(
    scope: &mut AsyncStreamScope<T>,
    slot: &mut StreamSlot<T>,
    value: T,
    flush: AsyncStreamFlush<T>,
)
    requires
        call_ensures(AsyncStreamScope::<T>::send, (scope, slot, value), flush),
    ensures
        final(slot)@.1 == Some(value),
        !final(slot)@.0,
        flush.first(),
{
}

/// A generator that may fail is polled once. What it has sent is left as it is,
/// unless it has failed: then the error is the last item, and the stream ends.
pub proof fn law_try_poll<F: TryStreamBody>(
    before: TryBody<F>,
    was_called: bool,
    slot: (bool, Option<Result<F::Success, F::Failure>>),
    result: Poll<()>,
    called: bool,
    filled: (bool, Option<Result<F::Success, F::Failure>>),
    after: TryBody<F>,
)
    requires
        <TryBody<F> as StreamBody>::polls(
            before,
            was_called,
            slot,
            result,
            called,
            filled,
            after,
        ),
    ensures
        exists|
            end: Poll<Result<(), F::Failure>>,
            left: (bool, Option<Result<F::Success, F::Failure>>),
        |
            {
                &&& #[trigger] F::polls(
                    before.body(),
                    was_called,
                    slot,
                    end,
                    called,
                    left,
                    after.body(),
                )
                &&& (result is Ready) == (end is Ready)
                &&& end matches Poll::Ready(Err(err)) ==> {
                    &&& filled.1 == Some(Err::<F::Success, F::Failure>(err))
                    &&& !filled.0
                }
                &&& !(end matches Poll::Ready(Err(_))) ==> filled == left
            },
{
    let (end, left) = choose|
        end: Poll<Result<(), F::Failure>>,
        left: (bool, Option<Result<F::Success, F::Failure>>),
    |
        #[trigger] F::polls(
            before.body(),
            was_called,
            slot,
            end,
            called,
            left,
            after.body(),
        ) && (result, filled) == TryBody::<F>::ends(left, end);
    assert(F::polls(before.body(), was_called, slot, end, called, left, after.body()));
}

/// The error of a generator is the last item of its stream; the slot is otherwise
/// left as it is.
pub proof fn law_try_stream_result<T, E>(
    slot: &mut StreamSlot<Result<T, E>>,
    result: Poll<Result<(), E>>,
    outcome: Poll<()>,
)
    requires
        call_ensures(try_stream_result::<T, E>, (slot, result), outcome),
    ensures
        (outcome is Ready) == (result is Ready),
        result matches Poll::Ready(Err(err)) ==> {
            &&& final(slot)@.1 == Some(Err::<T, E>(err))
            &&& !final(slot)@.0
        },
        !(result matches Poll::Ready(Err(_))) ==> final(slot)@ == old(slot)@,
{
}

/// The generator of a stream is made by the function that the stream was made of.
pub proof fn law_makes<T, F: StreamBody<Item = T>, I: FnOnce(AsyncStreamScope<T>) -> F>(
    init: AsyncStreamFn<I, T, F>,
    fut: F,
)
    ensures
        init.makes(fut) <==> exists|scope: AsyncStreamScope<T>| #[trigger]
            init.function().ensures((scope,), fut),
{
}

/// The generator of a stream of results is made by the function that the stream
/// was made of.
pub proof fn law_try_makes<
    F: TryStreamBody,
    I: FnOnce(AsyncStreamScope<Result<F::Success, F::Failure>>) -> F,
>(init: TryStreamFn<I, F>, fut: TryBody<F>)
    ensures
        init.makes(fut) <==> exists|scope: AsyncStreamScope<Result<F::Success, F::Failure>>|
            #[trigger] init.function().ensures((scope,), fut.body()),
{
}

/// A stream is over only once its generator has ended; a new one is not.
pub proof fn law_terminated<I: AsyncStreamInit>(
    init: I,
    made: AsyncStream<I>,
    stream: &AsyncStream<I>,
    fresh: bool,
    done: bool,
)
    requires
        call_ensures(AsyncStream::<I>::new, (init,), made),
        call_ensures(AsyncStream::<I>::is_terminated, (&made,), fresh),
        call_ensures(AsyncStream::<I>::is_terminated, (stream,), done),
    ensures
        made.state() == AsyncStreamState::<I, I::Fut>::Init(init),
        !fresh,
        done == (stream.state() is Complete),
{
}

} // verus!
