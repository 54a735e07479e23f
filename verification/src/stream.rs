//! Streams, and what iterates over them.

use vstd::prelude::*;

use crate::poll::Poll;
use crate::thread::{Context, PollFn};

verus! {

/// A sequence of items that may not be there yet.
pub trait Stream: Sized {
    /// An item.
    type Item;

    /// The stream can be polled.
    open spec fn wf(&self) -> bool {
        true
    }

    /// Polling `before` may return `result` and leave `after`. Whether the
    /// waker was called before the poll, and whether it has been called after
    /// it, are given too.
    open spec fn polls(
        before: Self,
        was_called: bool,
        result: Poll<Option<Self::Item>>,
        called: bool,
        after: Self,
    ) -> bool {
        true
    }

    /// Ask for the next item. There is none if the stream has ended.
    fn poll_next(&mut self, cx: &mut Context) -> (result: Poll<Option<Self::Item>>)
        requires
            old(self).wf(),
        ensures
            final(self).wf(),
            Self::polls(*old(self), old(cx).called(), result, final(cx).called(), *final(self)),
    ;
}

/// Provide utility methods for iterating streams.
pub trait StreamIterExt: Stream {
    /// Create an iterator which owns the stream.
    fn stream_into_iter(self) -> (iter: StreamIter<Self>)
        ensures
            iter.stream() == Some(self),
    ;

    /// Create an iterator over the rest of the stream.
    fn stream_iter<'s>(&'s mut self) -> (iter: StreamIterMut<'s, Self>)
        ensures
            iter.stream() matches Some(stream) && *stream == *old(self) && *final(stream)
                == *final(self),
    ;

    /// Ask for the next item of the stream, or for nothing if the stream has ended.
    fn stream_next<'s>(&'s mut self) -> (next: StreamNextMut<'s, Self>)
        ensures
            next.stream() matches Some(stream) && *stream == *old(self) && *final(stream)
                == *final(self),
    ;
}

impl<S: Stream> StreamIterExt for S {
    fn stream_into_iter(self) -> (iter: StreamIter<Self>) {
        StreamIter(Some(self))
    }

    fn stream_iter<'s>(&'s mut self) -> (iter: StreamIterMut<'s, Self>) {
        StreamIterMut(Some(self))
    }

    fn stream_next<'s>(&'s mut self) -> (next: StreamNextMut<'s, Self>) {
        StreamNextMut(Some(self))
    }
}

/// Resolves to the next item of a [`Stream`].
#[derive(Debug)]
pub struct StreamNextMut<'s, S>(Option<&'s mut S>);

impl<'s, S: Stream> StreamNextMut<'s, S> {
    /// The stream, until the item has been returned.
    pub closed spec fn stream(self) -> Option<&'s mut S> {
        self.0
    }

    /// Tell whether the item has been returned.
    pub fn is_terminated(&self) -> (done: bool)
        ensures
            done == (self.stream() is None),
    {
        self.0.is_none()
    }
}

impl<'s, S: Stream> PollFn for StreamNextMut<'s, S> {
    type Output = Option<S::Item>;

    open spec fn wf(&self) -> bool {
        self.stream() matches Some(stream) ==> stream.wf()
    }

    open spec fn polls(
        before: Self,
        was_called: bool,
        result: Poll<Option<S::Item>>,
        called: bool,
        after: Self,
    ) -> bool {
        match before.stream() {
            None => result == Poll::Ready(None::<S::Item>) && after.stream() is None && called
                == was_called,
            Some(stream) => match result {
                Poll::Ready(_) => after.stream() is None && exists|rest: S| #[trigger]
                    S::polls(*stream, was_called, result, called, rest) && rest.wf(),
                Poll::Pending => after.stream() matches Some(rest) && rest.wf() && S::polls(
                    *stream,
                    was_called,
                    result,
                    called,
                    *rest,
                ),
            },
        }
    }

    /// Ask for the item. Once it has been returned, or the stream has ended,
    /// the stream is let go and there is nothing more.
    fn poll(&mut self, cx: &mut Context) -> (result: Poll<Option<S::Item>>)
        ensures
            old(self).stream() matches Some(stream) ==> match final(self).stream() {
                None => final(stream).wf() && S::polls(
                    *stream,
                    old(cx).called(),
                    result,
                    final(cx).called(),
                    *final(stream),
                ),
                Some(rest) => *final(rest) == *final(stream),
            },
    {
        match self.0.take() {
            Some(stream) => {
                let result = stream.poll_next(cx);
                if result.is_pending() {
                    self.0 = Some(stream);
                }
                result
            },
            None => Poll::Ready(None),
        }
    }
}

/// An iterator which waits for each subsequent element of a stream.
#[derive(Debug)]
pub struct StreamIter<S>(Option<S>);

impl<S: Stream> StreamIter<S> {
    /// The stream, until it has ended.
    pub closed spec fn stream(self) -> Option<S> {
        self.0
    }

    /// Iterate over a stream.
    pub fn new(stream: S) -> (iter: Self)
        ensures
            iter.stream() == Some(stream),
    {
        StreamIter(Some(stream))
    }

    /// One turn of waiting for the next item. A stream that has ended is let go.
    pub fn next(&mut self, cx: &mut Context) -> (result: Poll<Option<S::Item>>)
        requires
            old(self).stream() matches Some(stream) ==> stream.wf(),
        ensures
            match old(self).stream() {
                None => {
                    &&& result == Poll::Ready(None::<S::Item>)
                    &&& final(self).stream() is None
                    &&& final(cx).called() == old(cx).called()
                },
                Some(stream) => match final(self).stream() {
                    None => result == Poll::Ready(None::<S::Item>) && exists|rest: S| #[trigger]
                        S::polls(stream, old(cx).called(), result, final(cx).called(), rest),
                    Some(rest) => {
                        &&& result != Poll::Ready(None::<S::Item>)
                        &&& rest.wf()
                        &&& S::polls(stream, old(cx).called(), result, final(cx).called(), rest)
                    },
                },
            },
    {
        match self.0.take() {
            Some(stream) => {
                let mut stream = stream;
                let result = stream.poll_next(cx);
                if !matches!(result, Poll::Ready(None)) {
                    self.0 = Some(stream);
                }
                result
            },
            None => Poll::Ready(None),
        }
    }
}

/// An iterator which waits for each subsequent element of a stream.
#[derive(Debug)]
pub struct StreamIterMut<'s, S>(Option<&'s mut S>);

impl<'s, S: Stream> StreamIterMut<'s, S> {
    /// The stream, until it has ended.
    pub closed spec fn stream(self) -> Option<&'s mut S> {
        self.0
    }

    /// One turn of waiting for the next item. A stream that has ended is let go.
    pub fn next(&mut self, cx: &mut Context) -> (result: Poll<Option<S::Item>>)
        requires
            old(self).stream() matches Some(stream) ==> stream.wf(),
        ensures
            match old(self).stream() {
                None => {
                    &&& result == Poll::Ready(None::<S::Item>)
                    &&& final(self).stream() is None
                    &&& final(cx).called() == old(cx).called()
                },
                Some(stream) => match final(self).stream() {
                    None => {
                        &&& result == Poll::Ready(None::<S::Item>)
                        &&& final(stream).wf()
                        &&& S::polls(
                            *stream,
                            old(cx).called(),
                            result,
                            final(cx).called(),
                            *final(stream),
                        )
                    },
                    Some(rest) => {
                        &&& result != Poll::Ready(None::<S::Item>)
                        &&& rest.wf()
                        &&& S::polls(*stream, old(cx).called(), result, final(cx).called(), *rest)
                        &&& *final(rest) == *final(stream)
                    },
                },
            },
    {
        match self.0.take() {
            Some(stream) => {
                let result = stream.poll_next(cx);
                if !matches!(result, Poll::Ready(None)) {
                    self.0 = Some(stream);
                }
                result
            },
            None => Poll::Ready(None),
        }
    }
}

/// An iterator asks its stream for an item and hands on what it says. It keeps the
/// stream until that has ended, and asks nobody after that.
pub proof fn law_iter_next<S: Stream>(
    iter: &mut StreamIter<S>,
    cx: &mut Context,
    result: Poll<Option<S::Item>>,
)
    requires
        call_ensures(StreamIter::<S>::next, (iter, cx), result),
    ensures
        old(iter).stream() is None ==> {
            &&& result == Poll::Ready(None::<S::Item>)
            &&& final(iter).stream() is None
            &&& final(cx).called() == old(cx).called()
        },
        old(iter).stream() matches Some(stream) ==> exists|rest: S|
            {
                &&& #[trigger] S::polls(stream, old(cx).called(), result, final(cx).called(), rest)
                &&& result == Poll::Ready(None::<S::Item>) ==> final(iter).stream() is None
                &&& result != Poll::Ready(None::<S::Item>) ==> final(iter).stream() == Some(rest)
            },
{
    if old(iter).stream() is Some && final(iter).stream() is Some {
        let stream = old(iter).stream()->0;
        let rest = final(iter).stream()->0;
        assert(S::polls(stream, old(cx).called(), result, final(cx).called(), rest));
    }
}

/// Whoever asks for one item of a stream gets what the stream says, and asks it once
/// more only if it has to wait.
pub proof fn law_next_mut<'s, S: Stream>(
    next: &mut StreamNextMut<'s, S>,
    cx: &mut Context,
    result: Poll<Option<S::Item>>,
)
    requires
        call_ensures(<StreamNextMut<'s, S> as PollFn>::poll, (next, cx), result),
    ensures
        old(next).stream() is None ==> {
            &&& result == Poll::Ready(None::<S::Item>)
            &&& final(next).stream() is None
            &&& final(cx).called() == old(cx).called()
        },
        old(next).stream() matches Some(stream) ==> exists|rest: S|
            {
                &&& #[trigger] S::polls(*stream, old(cx).called(), result, final(cx).called(), rest)
                &&& result is Ready ==> final(next).stream() is None
                &&& result is Pending ==> (final(next).stream() matches Some(kept) && *kept == rest)
            },
{
    if old(next).stream() is Some && final(next).stream() is Some {
        let stream = old(next).stream()->0;
        let rest = final(next).stream()->0;
        assert(S::polls(*stream, old(cx).called(), result, final(cx).called(), *rest));
    }
}

/// An iterator over the rest of a stream asks it for an item and hands on what it
/// says. It keeps the stream until that has ended, and asks nobody after that.
pub proof fn law_iter_mut_next<'s, S: Stream>(
    iter: &mut StreamIterMut<'s, S>,
    cx: &mut Context,
    result: Poll<Option<S::Item>>,
)
    requires
        call_ensures(StreamIterMut::<'s, S>::next, (iter, cx), result),
    ensures
        old(iter).stream() is None ==> {
            &&& result == Poll::Ready(None::<S::Item>)
            &&& final(iter).stream() is None
            &&& final(cx).called() == old(cx).called()
        },
        old(iter).stream() matches Some(stream) ==> exists|rest: S|
            {
                &&& #[trigger] S::polls(*stream, old(cx).called(), result, final(cx).called(), rest)
                &&& result == Poll::Ready(None::<S::Item>) ==> final(iter).stream() is None
                &&& result != Poll::Ready(None::<S::Item>) ==> (final(iter).stream() matches Some(kept)
                    && *kept == rest)
            },
{
    if old(iter).stream() is Some {
        let stream = old(iter).stream()->0;
        if final(iter).stream() is Some {
            let rest = final(iter).stream()->0;
            assert(S::polls(*stream, old(cx).called(), result, final(cx).called(), *rest));
        } else {
            assert(S::polls(*stream, old(cx).called(), result, final(cx).called(), *final(stream)));
        }
    }
}

} // verus!
