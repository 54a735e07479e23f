//! The ends of channels.

use std::cell::Cell;
use std::rc::Rc;

use suspend::channel::handles::{channel, send_once};
use suspend::channel::memory::Channel;
use suspend::error::{RecvError, TrySendError};
use suspend::poll::{Poll, Turn};
use suspend::util::Heap;

/// Counts how often copies of it have been dropped.
#[derive(Debug)]
struct TestDrop(Rc<Cell<usize>>);

struct Drops(Rc<Cell<usize>>);

impl TestDrop {
    fn new_pair() -> (TestDrop, Drops) {
        let count = Rc::new(Cell::new(0));
        (TestDrop(count.clone()), Drops(count))
    }
}

impl Drops {
    fn count(&self) -> usize {
        self.0.get()
    }
}

impl PartialEq for TestDrop {
    fn eq(&self, other: &TestDrop) -> bool {
        Rc::ptr_eq(&self.0, &other.0)
    }
}

impl Eq for TestDrop {}

impl Drop for TestDrop {
    fn drop(&mut self) {
        self.0.set(self.0.get() + 1);
    }
}

type Memory<T> = Heap<Channel<T, &'static str>>;

#[test]
fn channel_send_receive_poll() {
    let mut heap: Memory<TestDrop> = Heap::new();
    let (mut sender, mut receiver) = channel(&mut heap);
    let (message, drops) = TestDrop::new_pair();
    let mut calls = 0;
    assert_eq!(receiver.poll_next(&mut heap, "reader"), Poll::Pending);
    calls += receiver.take_woken(&mut heap).len();
    assert_eq!(calls, 0);
    assert_eq!(sender.try_send(&mut heap, message), Ok(()));
    calls += receiver.take_woken(&mut heap).len();
    assert_eq!(calls, 1);
    assert_eq!(receiver.is_terminated(&heap), false);
    assert_eq!(drops.count(), 0);
    if let Poll::Ready(Some(result)) = receiver.poll_next(&mut heap, "reader") {
        assert_eq!(drops.count(), 0);
        drop(result);
        assert_eq!(drops.count(), 1);
        calls += receiver.take_woken(&mut heap).len();
        assert_eq!(calls, 1);
        assert_eq!(receiver.is_terminated(&heap), false);
        assert_eq!(receiver.poll_next(&mut heap, "reader"), Poll::Pending);
        calls += receiver.take_woken(&mut heap).len();
        assert_eq!(calls, 1);
        assert_eq!(drops.count(), 1);
        sender.drop(&mut heap);
        assert_eq!(receiver.is_terminated(&heap), true);
        assert_eq!(receiver.poll_next(&mut heap, "reader"), Poll::Ready(None));
        receiver.drop(&mut heap);
        assert_eq!(drops.count(), 1);
    } else {
        panic!("Error receiving payload")
    }
}

#[test]
fn channel_send_receive_block_on() {
    let mut heap: Memory<u32> = Heap::new();
    let (mut sender, mut receiver) = channel(&mut heap);
    assert_eq!(sender.try_send(&mut heap, 1u32), Ok(()));
    assert_eq!(receiver.poll_next(&mut heap, "reader"), Poll::Ready(Some(1u32)));
}

#[test]
fn channel_send_receive_wait_next() {
    let mut heap: Memory<u32> = Heap::new();
    let (mut sender, mut receiver) = channel(&mut heap);
    assert_eq!(sender.try_send(&mut heap, 1u32), Ok(()));
    assert_eq!(receiver.wait_next(&mut heap, "reader"), Poll::Ready(Some(1u32)));
}

#[test]
fn channel_sender_dropped() {
    let mut heap: Memory<u32> = Heap::new();
    let (sender, mut receiver) = channel(&mut heap);
    assert_eq!(receiver.poll_next(&mut heap, "reader"), Poll::Pending);
    sender.drop(&mut heap);
    assert_eq!(receiver.take_woken(&mut heap), vec!["reader"]);
    assert_eq!(receiver.poll_next(&mut heap, "reader"), Poll::Ready(None));
    assert_eq!(receiver.take_woken(&mut heap).len(), 0);
}

#[test]
fn channel_receiver_dropped_early() {
    let mut heap: Memory<u32> = Heap::new();
    let (mut sender, receiver) = channel(&mut heap);
    receiver.drop(&mut heap);
    assert_eq!(
        sender.try_send(&mut heap, 1u32),
        Err(TrySendError::Disconnected(1u32))
    );
}

#[test]
fn channel_receiver_dropped_incomplete() {
    let mut heap: Memory<TestDrop> = Heap::new();
    let (mut sender, receiver) = channel(&mut heap);
    let (message, drops) = TestDrop::new_pair();
    sender.try_send(&mut heap, message).unwrap();
    assert_eq!(drops.count(), 0);
    receiver.drop(&mut heap);
    assert_eq!(drops.count(), 0);
    sender.drop(&mut heap);
    assert_eq!(drops.count(), 1);
}

#[test]
fn channel_receiver_dropped_complete() {
    let mut heap: Memory<TestDrop> = Heap::new();
    let (mut sender, mut receiver) = channel(&mut heap);
    let (message, drops) = TestDrop::new_pair();
    sender.try_send(&mut heap, message).unwrap();
    let result = receiver.try_recv(&mut heap);
    assert_eq!(drops.count(), 0);
    drop(result);
    assert_eq!(drops.count(), 1);
    receiver.drop(&mut heap);
    assert_eq!(drops.count(), 1);
}

#[test]
fn channel_receiver_block_on() {
    let mut heap: Memory<u32> = Heap::new();
    let (mut sender, mut receiver) = channel(&mut heap);
    sender.try_send(&mut heap, 5).unwrap();
    assert_eq!(receiver.poll_next(&mut heap, "reader"), Poll::Ready(Some(5)));
}

#[test]
fn channel_receiver_wait_next() {
    let mut heap: Memory<u32> = Heap::new();
    let (mut sender, mut receiver) = channel(&mut heap);
    sender.try_send(&mut heap, 5).unwrap();
    assert_eq!(receiver.wait_next(&mut heap, "reader"), Poll::Ready(Some(5)));
}

#[test]
fn channel_receiver_stream_one() {
    let mut heap: Memory<u32> = Heap::new();
    let (mut sender, mut receiver) = channel(&mut heap);
    sender.try_send(&mut heap, 5).unwrap();
    assert_eq!(receiver.is_terminated(&heap), false);
    assert_eq!(receiver.try_recv(&mut heap), Poll::Ready(Some(5)));
    assert_eq!(receiver.is_terminated(&heap), false);
    sender.drop(&mut heap);
    assert_eq!(receiver.is_terminated(&heap), true);
    assert_eq!(receiver.try_recv(&mut heap), Poll::Ready(None));
    assert_eq!(receiver.is_terminated(&heap), true);
}

#[test]
fn channel_receiver_stream_empty() {
    let mut heap: Memory<u32> = Heap::new();
    let (sender, mut receiver) = channel(&mut heap);
    sender.drop(&mut heap);
    assert_eq!(receiver.is_terminated(&heap), true);
    assert_eq!(receiver.try_recv(&mut heap), Poll::Ready(None));
    assert_eq!(receiver.is_terminated(&heap), true);
}

#[test]
fn channel_receiver_cancel_early() {
    let mut heap: Memory<u32> = Heap::new();
    let (mut sender, receiver) = channel(&mut heap);
    assert_eq!(receiver.cancel(&mut heap), None);
    assert!(sender.try_send(&mut heap, 5).is_err());
}

#[test]
fn channel_receiver_cancel_late() {
    let mut heap: Memory<u32> = Heap::new();
    let (mut sender, receiver) = channel(&mut heap);
    sender.try_send(&mut heap, 5).unwrap();
    assert_eq!(receiver.cancel(&mut heap), Some(5));
}

#[test]
fn sent_value_is_received_once() {
    let mut heap: Memory<u32> = Heap::new();
    let (mut sender, mut receiver) = channel(&mut heap);
    assert_eq!(sender.try_send(&mut heap, 7), Ok(()));
    assert_eq!(sender.try_send(&mut heap, 8), Err(TrySendError::Full(8)));
    assert_eq!(receiver.poll_next(&mut heap, "reader"), Poll::Ready(Some(7)));
    assert_eq!(receiver.poll_next(&mut heap, "reader"), Poll::Pending);
    assert_eq!(sender.try_send(&mut heap, 9), Ok(()));
    assert_eq!(receiver.take_woken(&mut heap), vec!["reader"]);
    assert_eq!(receiver.try_recv(&mut heap), Poll::Ready(Some(9)));
}

#[test]
fn flush_waits_for_the_reader() {
    let mut heap: Memory<u32> = Heap::new();
    let (mut sender, mut receiver) = channel(&mut heap);
    let mut flush = sender.send(3);
    assert_eq!(flush.poll(&mut heap, "writer"), Poll::Pending);
    assert_eq!(flush.poll(&mut heap, "writer again"), Poll::Pending);
    assert_eq!(receiver.poll_next(&mut heap, "reader"), Poll::Ready(Some(3)));
    assert_eq!(receiver.take_woken(&mut heap), vec!["writer again"]);
    assert_eq!(flush.poll(&mut heap, "writer"), Poll::Ready(Ok(())));
    assert!(!flush.is_terminated());
    flush.drop(&mut heap);
}

#[test]
fn flush_takes_back_what_nobody_reads() {
    let mut heap: Memory<u32> = Heap::new();
    let (mut sender, receiver) = channel(&mut heap);
    let mut flush = sender.send(3);
    assert_eq!(flush.poll(&mut heap, "writer"), Poll::Pending);
    receiver.drop(&mut heap);
    assert_eq!(sender.take_woken(&mut heap), vec!["writer"]);
    assert_eq!(
        flush.poll(&mut heap, "writer"),
        Poll::Ready(Err(TrySendError::Disconnected(3)))
    );
    flush.drop(&mut heap);
}

#[test]
fn single_value() {
    let mut heap: Memory<u32> = Heap::new();
    let (sender, mut receiver) = send_once(&mut heap);
    assert_eq!(sender.is_canceled(&heap), false);
    assert_eq!(receiver.try_recv(&mut heap), None);
    assert_eq!(receiver.recv(&mut heap, "reader"), Poll::Pending);
    assert_eq!(sender.try_send(&mut heap, 4), Ok(()));
    assert_eq!(receiver.take_woken(&mut heap), vec!["reader"]);
    assert_eq!(receiver.recv(&mut heap, "reader"), Poll::Ready(Ok(4)));
    assert_eq!(
        receiver.recv(&mut heap, "reader"),
        Poll::Ready(Err(RecvError::Terminated))
    );
}

#[test]
fn single_value_never_sent() {
    let mut heap: Memory<u32> = Heap::new();
    let (sender, mut receiver) = send_once(&mut heap);
    assert_eq!(
        receiver.recv_timeout(&mut heap, Turn::Wait("reader")),
        Poll::Pending
    );
    assert_eq!(
        receiver.recv_timeout(&mut heap, Turn::Expired),
        Poll::Ready(Err(RecvError::TimedOut))
    );
    sender.drop(&mut heap);
    assert_eq!(
        receiver.recv_timeout(&mut heap, Turn::Expired),
        Poll::Ready(Err(RecvError::Incomplete))
    );
}

#[test]
fn single_value_to_nobody() {
    let mut heap: Memory<u32> = Heap::new();
    let (sender, receiver) = send_once(&mut heap);
    assert_eq!(receiver.cancel(&mut heap), None);
    assert_eq!(sender.is_canceled(&heap), true);
    assert_eq!(
        sender.try_send(&mut heap, 4),
        Err(TrySendError::Disconnected(4))
    );
}

#[test]
fn stream_waits_until_the_time_is_up() {
    let mut heap: Memory<u32> = Heap::new();
    let (mut sender, mut receiver) = channel(&mut heap);
    assert_eq!(
        receiver.wait_next_timeout(&mut heap, Turn::Wait("reader")),
        Poll::Pending
    );
    assert_eq!(
        receiver.wait_next_timeout(&mut heap, Turn::Expired),
        Poll::Ready(Err(RecvError::TimedOut))
    );
    sender.try_send(&mut heap, 6).unwrap();
    assert_eq!(
        receiver.wait_next_timeout(&mut heap, Turn::Expired),
        Poll::Ready(Ok(6))
    );
}

#[test]
fn errors_tell_what_happened() {
    assert!(RecvError::TimedOut.timed_out());
    assert!(!RecvError::Incomplete.timed_out());
    let full = TrySendError::Full(1);
    assert!(full.is_full());
    assert!(!full.is_disconnected());
    assert_eq!(full.into_inner(), 1);
    let gone = TrySendError::Disconnected(2);
    assert!(gone.is_disconnected());
    assert_eq!(gone.into_inner(), 2);
}

#[test]
fn sender_sees_that_the_receiver_is_gone() {
    let mut heap: Memory<u32> = Heap::new();
    let (mut sender, receiver) = channel(&mut heap);
    assert!(!sender.is_canceled(&heap));
    assert_eq!(sender.try_send(&mut heap, 5), Ok(()));
    assert!(!sender.is_canceled(&heap));
    receiver.drop(&mut heap);
    assert!(sender.is_canceled(&heap));
    let (sender, receiver) = send_once::<u32, &str>(&mut heap);
    assert!(!sender.is_canceled(&heap));
    receiver.drop(&mut heap);
    assert!(sender.is_canceled(&heap));
}

#[test]
fn cancel_with_a_value_disconnects_the_sender() {
    let mut heap: Memory<u32> = Heap::new();
    let (mut sender, receiver) = channel(&mut heap);
    assert_eq!(sender.try_send(&mut heap, 5), Ok(()));
    assert_eq!(receiver.cancel(&mut heap), Some(5));
    assert!(sender.is_canceled(&heap));
    assert_eq!(
        sender.try_send(&mut heap, 6),
        Err(TrySendError::Disconnected(6))
    );
    assert!(heap.pointers().is_empty());
}

#[test]
fn cancel_frees_what_the_sender_has_left() {
    let mut heap: Memory<u32> = Heap::new();
    let (mut sender, receiver) = channel(&mut heap);
    assert_eq!(sender.try_send(&mut heap, 5), Ok(()));
    sender.drop(&mut heap);
    assert_eq!(receiver.cancel(&mut heap), Some(5));
    assert!(heap.pointers().is_empty());
}

#[test]
fn last_flush_lets_the_channel_go() {
    let mut heap: Memory<u32> = Heap::new();
    let (sender, receiver) = send_once(&mut heap);
    let mut flush = sender.send(5);
    assert_eq!(flush.poll(&mut heap, "writer"), Poll::Pending);
    assert_eq!(receiver.cancel(&mut heap), Some(5));
    assert_eq!(flush.poll(&mut heap, "writer"), Poll::Ready(Ok(())));
    assert!(flush.is_terminated());
    flush.drop(&mut heap);
    assert!(heap.pointers().is_empty());
}
