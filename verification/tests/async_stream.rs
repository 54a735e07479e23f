//! Streams made from generators, which are written as asynchronous functions here.

use std::cell::{Cell, RefCell};
use std::future::Future;
use std::pin::Pin;
use std::rc::Rc;
use std::sync::Arc;
use std::task::{Context as TaskContext, Poll as TaskPoll, Wake, Waker};

use suspend::async_stream::{
    make_stream, stream_flush, stream_result, try_stream_fn, try_stream_result, AsyncStream,
    AsyncStreamFlush, AsyncStreamInit, AsyncStreamScope, StreamBody, StreamSlot, TryStreamBody,
};
use suspend::poll::Poll;
use suspend::stream::{Stream, StreamIterExt};
use suspend::thread::{Context, PollFn};

struct Quiet;

impl Wake for Quiet {
    fn wake(self: Arc<Self>) {}
}

type Shared<T> = Rc<RefCell<StreamSlot<T>>>;

/// Sends values from an asynchronous function.
struct Sender<T> {
    scope: AsyncStreamScope<T>,
    slot: Shared<T>,
}

struct Sending<T> {
    flush: AsyncStreamFlush<T>,
    slot: Shared<T>,
}

impl<T> Sender<T> {
    fn send(&mut self, value: T) -> Sending<T> {
        let flush = self.scope.send(&mut self.slot.borrow_mut(), value);
        Sending {
            flush,
            slot: self.slot.clone(),
        }
    }
}

impl<T> Future for Sending<T> {
    type Output = ();

    fn poll(mut self: Pin<&mut Self>, _cx: &mut TaskContext<'_>) -> TaskPoll<()> {
        let this = &mut *self;
        let slot = this.slot.borrow();
        match this.flush.poll(&slot) {
            Poll::Ready(()) => TaskPoll::Ready(()),
            Poll::Pending => TaskPoll::Pending,
        }
    }
}

impl<T> Unpin for Sending<T> {}

/// The next item of a stream, to be awaited.
struct Next<'s, S>(&'s mut S);

impl<S: Stream> Future for Next<'_, S> {
    type Output = Option<S::Item>;

    fn poll(mut self: Pin<&mut Self>, _cx: &mut TaskContext<'_>) -> TaskPoll<Option<S::Item>> {
        let mut cx = Context::new();
        match self.0.stream_next().poll(&mut cx) {
            Poll::Ready(item) => TaskPoll::Ready(item),
            Poll::Pending => TaskPoll::Pending,
        }
    }
}

/// An asynchronous function at work.
struct Generator<'a, T, R> {
    fut: Pin<Box<dyn Future<Output = R> + 'a>>,
    slot: Shared<T>,
}

impl<'a, T, R> Generator<'a, T, R> {
    fn new<F: Future<Output = R> + 'a>(
        scope: AsyncStreamScope<T>,
        f: impl FnOnce(Sender<T>) -> F,
    ) -> Self {
        let slot = Rc::new(RefCell::new(StreamSlot::new()));
        let sender = Sender {
            scope,
            slot: slot.clone(),
        };
        Generator {
            fut: Box::pin(f(sender)),
            slot,
        }
    }

    fn resume(&mut self, slot: &mut StreamSlot<T>) -> Poll<R> {
        let waker = Waker::from(Arc::new(Quiet));
        let mut cx = TaskContext::from_waker(&waker);
        std::mem::swap(slot, &mut self.slot.borrow_mut());
        let result = self.fut.as_mut().poll(&mut cx);
        std::mem::swap(slot, &mut self.slot.borrow_mut());
        match result {
            TaskPoll::Ready(end) => Poll::Ready(end),
            TaskPoll::Pending => Poll::Pending,
        }
    }
}

impl<T> StreamBody for Generator<'_, T, ()> {
    type Item = T;

    fn poll(&mut self, slot: &mut StreamSlot<T>, _cx: &mut Context) -> Poll<()> {
        self.resume(slot)
    }
}

impl<T, E> TryStreamBody for Generator<'_, Result<T, E>, Result<(), E>> {
    type Success = T;
    type Failure = E;

    fn poll(
        &mut self,
        slot: &mut StreamSlot<Result<T, E>>,
        _cx: &mut Context,
    ) -> Poll<Result<(), E>> {
        self.resume(slot)
    }
}

fn stream<'a, T: 'a, F: Future<Output = ()> + 'a>(
    f: impl FnOnce(Sender<T>) -> F + 'a,
) -> AsyncStream<impl AsyncStreamInit<Item = T> + 'a> {
    make_stream(move |scope| Generator::<'a, T, ()>::new(scope, f))
}

fn try_stream<'a, T: 'a, E: 'a, F: Future<Output = Result<(), E>> + 'a>(
    f: impl FnOnce(Sender<Result<T, E>>) -> F + 'a,
) -> AsyncStream<impl AsyncStreamInit<Item = Result<T, E>> + 'a> {
    AsyncStream::new(try_stream_fn(move |scope| {
        Generator::<'a, Result<T, E>, Result<(), E>>::new(scope, f)
    }))
}

fn next<S: Stream>(iter: &mut suspend::stream::StreamIter<S>) -> Option<S::Item> {
    match iter.next(&mut Context::new()) {
        Poll::Ready(item) => item,
        Poll::Pending => panic!("the stream has to wait"),
    }
}

#[test]
fn non_macro() {
    let s = make_stream(|scope| {
        Generator::new(scope, |mut sender| async move {
            sender.send(1u32).await;
            sender.send(2u32).await;
            sender.send(3u32).await;
        })
    });
    let mut s = s.into_iter();
    assert_eq!(next(&mut s), Some(1));
    assert_eq!(next(&mut s), Some(2));
    assert_eq!(next(&mut s), Some(3));
    assert_eq!(next(&mut s), None);
    assert_eq!(next(&mut s), None);
}

#[test]
fn basic_stream() {
    let s = stream(|mut sender| async move {
        sender.send(1).await;
        sender.send(2).await;
        sender.send(3).await;
    });
    let mut s = s.into_iter();
    assert_eq!(next(&mut s), Some(1));
    assert_eq!(next(&mut s), Some(2));
    assert_eq!(next(&mut s), Some(3));
    assert_eq!(next(&mut s), None);
    assert_eq!(next(&mut s), None);
}

#[test]
fn empty_stream() {
    let mut ran = false;
    {
        let r = &mut ran;
        let mut s = stream(|_sender: Sender<i32>| async move {
            *r = true;
        });
        assert_eq!(
            s.stream_next().poll(&mut Context::new()),
            Poll::Ready(Option::<i32>::None)
        );
    }
    assert!(ran);
}

#[test]
fn nest_stream() {
    let s = stream(|mut sender| async move {
        let mut s2 = stream(|mut sender| async move {
            sender.send(1).await;
            sender.send(2).await;
        });
        while let Some(item) = Next(&mut s2).await {
            sender.send(item).await;
        }
        sender.send(3).await;
    });
    let mut s = s.into_iter();
    assert_eq!(next(&mut s), Some(1));
    assert_eq!(next(&mut s), Some(2));
    assert_eq!(next(&mut s), Some(3));
    assert_eq!(next(&mut s), None);
    assert_eq!(next(&mut s), None);
}

#[test]
fn basic_try_stream() {
    let s = try_stream(|mut sender| async move {
        sender.send(Ok(1)).await;
        sender.send(Ok(2)).await;
        sender.send(Ok(3)).await;
        Result::<_, ()>::Ok(())
    });
    let mut s = s.into_iter();
    assert_eq!(next(&mut s), Some(Ok(1)));
    assert_eq!(next(&mut s), Some(Ok(2)));
    assert_eq!(next(&mut s), Some(Ok(3)));
    assert_eq!(next(&mut s), None);
    assert_eq!(next(&mut s), None);
}

#[test]
fn try_stream_fail() {
    let s = try_stream(|mut sender| async move {
        sender.send(Ok(1)).await;
        Err(2)?;
        sender.send(Ok(3)).await;
        Ok(())
    });
    let mut s = s.into_iter();
    assert_eq!(next(&mut s), Some(Ok(1)));
    assert_eq!(next(&mut s), Some(Err(2)));
    assert_eq!(next(&mut s), None);
    assert_eq!(next(&mut s), None);
}

#[test]
fn nest_try_stream() {
    let s = try_stream(|mut sender| async move {
        let mut s2 = try_stream(|mut sender| async move {
            sender.send(Ok(1)).await;
            Err(2)?;
            Result::<_, i32>::Ok(())
        });
        while let Some(item) = Next(&mut s2).await {
            sender.send(Ok(item?)).await;
        }
        sender.send(Ok(3)).await;
        Ok(())
    });
    let mut s = s.into_iter();
    assert_eq!(next(&mut s), Some(Ok(1)));
    assert_eq!(next(&mut s), Some(Err(2)));
    assert_eq!(next(&mut s), None);
    assert_eq!(next(&mut s), None);
}

#[derive(Clone)]
struct CheckDrop(Rc<Cell<usize>>);

impl CheckDrop {
    fn new() -> Self {
        CheckDrop(Rc::new(Cell::new(0)))
    }

    fn count(&self) -> usize {
        self.0.get()
    }
}

impl Drop for CheckDrop {
    fn drop(&mut self) {
        self.0.set(self.0.get() + 1);
    }
}

#[test]
fn test_drop_unpolled() {
    let chk = CheckDrop::new();
    {
        let chk2 = chk.clone();
        let s = stream(move |mut sender| async move {
            sender.send(1i32).await;
            drop(chk2);
        });
        assert_eq!(s.is_terminated(), false);
        assert_eq!(chk.count(), 0);
    }
    assert_eq!(chk.count(), 1);
}

#[test]
fn test_drop_polled() {
    let chk = CheckDrop::new();
    {
        let chk2 = chk.clone();
        let mut s = stream(move |mut sender| async move {
            sender.send(1i32).await;
            sender.send(2i32).await;
            drop(chk2);
        });
        assert_eq!(
            s.stream_next().poll(&mut Context::new()),
            Poll::Ready(Some(1))
        );
        assert_eq!(s.is_terminated(), false);
        assert_eq!(chk.count(), 0);
    }
    assert_eq!(chk.count(), 1);
}

#[test]
fn test_drop_complete() {
    let chk = CheckDrop::new();
    {
        let chk2 = chk.clone();
        let mut s = stream(move |mut sender| async move {
            sender.send(1i32).await;
            drop(chk2);
        });
        assert_eq!(
            s.stream_next().poll(&mut Context::new()),
            Poll::Ready(Some(1))
        );
        assert_eq!(chk.count(), 0);
        assert_eq!(s.stream_next().poll(&mut Context::new()), Poll::Ready(None));
        assert_eq!(s.is_terminated(), true);
        assert_eq!(chk.count(), 1);
    }
    assert_eq!(chk.count(), 1);
}

#[test]
fn value_left_at_the_end_comes_first() {
    assert_eq!(stream_result(Some(1), Poll::Ready(())), (true, Poll::Ready(Some(1))));
    assert_eq!(stream_result(Some(1), Poll::Pending), (false, Poll::Ready(Some(1))));
    assert_eq!(stream_result::<u8>(None, Poll::Pending), (false, Poll::Pending));
    assert_eq!(stream_result::<u8>(None, Poll::Ready(())), (true, Poll::Ready(None)));
}

#[test]
fn iterators_over_the_rest() {
    let mut s = stream(|mut sender| async move {
        sender.send(1).await;
        sender.send(2).await;
    });
    {
        let mut first = s.stream_next();
        assert!(!first.is_terminated());
        assert_eq!(first.poll(&mut Context::new()), Poll::Ready(Some(1)));
        assert!(first.is_terminated());
        assert_eq!(first.poll(&mut Context::new()), Poll::Ready(None));
    }
    let mut rest = s.stream_iter();
    assert_eq!(rest.next(&mut Context::new()), Poll::Ready(Some(2)));
    assert_eq!(rest.next(&mut Context::new()), Poll::Ready(None));
    assert_eq!(rest.next(&mut Context::new()), Poll::Ready(None));
    let mut owned = s.stream_into_iter();
    assert_eq!(next(&mut owned), None);
}

#[test]
fn error_is_the_last_item() {
    let mut slot = StreamSlot::<Result<u8, &str>>::new();
    assert_eq!(try_stream_result(&mut slot, Poll::Pending), Poll::Pending);
    assert!(stream_flush(&slot));
    assert_eq!(try_stream_result(&mut slot, Poll::Ready(Ok(()))), Poll::Ready(()));
    assert!(stream_flush(&slot));
    assert_eq!(
        try_stream_result(&mut slot, Poll::Ready(Err("expected"))),
        Poll::Ready(())
    );
    assert!(!stream_flush(&slot));
}

#[test]
fn error_ends_the_stream_at_once() {
    let mut s = try_stream(|mut sender| async move {
        sender.send(Ok(1)).await;
        Result::<(), i32>::Err(2)
    });
    assert_eq!(s.stream_next().poll(&mut Context::new()), Poll::Ready(Some(Ok(1))));
    assert!(!s.is_terminated());
    assert_eq!(s.stream_next().poll(&mut Context::new()), Poll::Ready(Some(Err(2))));
    assert!(s.is_terminated());
    assert_eq!(s.stream_next().poll(&mut Context::new()), Poll::Ready(None));
}
