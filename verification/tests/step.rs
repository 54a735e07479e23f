//! Operations taken step by step, with others in between.

use suspend::channel::memory::{Channel, Local};
use suspend::channel::state::State;
use suspend::channel::step::{At, Call, End};
use suspend::shared::memory::SharedInner;
use suspend::shared::step::{At as SharedAt, Call as SharedCall, End as SharedEnd};
use suspend::util::{BoxPtr, Heap};

#[test]
fn channel_words() {
    for word in 0..32 {
        assert_eq!(State::from_bits(word).bits(), word);
    }
}

#[test]
fn reader_is_interrupted_by_a_write() {
    let mut channel: Channel<u8, &str> = Channel::new();
    let read = Call::Read {
        waker: true,
        or_cancel: false,
    };
    let mut reader = Local {
        value: None,
        waker: Some("reader"),
        taken: None,
    };
    let mut at = read.begin();
    // the reader stores its waker, and the value comes before it has said so
    at = channel.step(read, at, &mut reader, false);
    at = channel.step(read, at, &mut reader, false);
    let write = Call::Write {
        waker: false,
        finalize: false,
    };
    let mut writer = Local {
        value: Some(5),
        waker: None,
        taken: None,
    };
    let mut written = write.begin();
    for _ in 0..3 {
        written = channel.step(write, written, &mut writer, false);
    }
    assert_eq!(written, At::End(End::Sent));
    // so the reader takes its waker back, and the value
    for _ in 0..4 {
        at = channel.step(read, at, &mut reader, false);
    }
    assert_eq!(at, At::End(End::Got { dropped: false }));
    assert_eq!(reader.value, Some(5));
    assert!(channel.take_woken().is_empty());
}

/// One side at work on a channel.
struct Side {
    call: Call,
    at: At,
    local: Local<u8, &'static str>,
}

impl Side {
    fn new(call: Call, value: Option<u8>, waker: Option<&'static str>) -> Self {
        let at = call.begin();
        let local = Local {
            value,
            waker,
            taken: None,
        };
        Side { call, at, local }
    }

    fn step(&mut self, channel: &mut Channel<u8, &'static str>) {
        self.at = channel.step(self.call, self.at, &mut self.local, false);
    }

    fn finish(&mut self, channel: &mut Channel<u8, &'static str>) -> End {
        loop {
            if let At::End(end) = self.at {
                return end;
            }
            self.step(channel);
        }
    }
}

#[test]
fn both_sides_of_an_empty_channel_detach() {
    let mut channel: Channel<u8, &str> = Channel::new();
    let mut writer = Side::new(Call::Drop { is_writer: true }, None, None);
    let mut reader = Side::new(Call::Drop { is_writer: false }, None, None);
    writer.step(&mut channel);
    reader.step(&mut channel);
    assert_eq!(
        reader.finish(&mut channel),
        End::Detached { last: false }
    );
    assert_eq!(writer.finish(&mut channel), End::Detached { last: true });
}

#[test]
fn reader_that_stores_its_waker_learns_that_the_writer_is_gone() {
    let read = Call::Read {
        waker: true,
        or_cancel: false,
    };
    // the writer detaches while the reader holds the waker cell
    let mut channel: Channel<u8, &str> = Channel::new();
    let mut reader = Side::new(read, None, Some("reader"));
    reader.step(&mut channel);
    reader.step(&mut channel);
    let mut writer = Side::new(Call::Drop { is_writer: true }, None, None);
    assert_eq!(
        writer.finish(&mut channel),
        End::Detached { last: false }
    );
    assert_eq!(reader.finish(&mut channel), End::Empty { dropped: true });
    // the reader is done with the waker cell before the writer detaches
    let mut channel: Channel<u8, &str> = Channel::new();
    let mut reader = Side::new(read, None, Some("reader"));
    reader.step(&mut channel);
    reader.step(&mut channel);
    let mut writer = Side::new(Call::Drop { is_writer: true }, None, None);
    writer.step(&mut channel);
    assert_eq!(reader.finish(&mut channel), End::Pending);
    assert_eq!(
        writer.finish(&mut channel),
        End::Detached { last: false }
    );
    assert_eq!(channel.take_woken(), vec!["reader"]);
}

#[test]
fn value_is_taken_back_from_a_reader_that_detaches() {
    let write = Call::Write {
        waker: false,
        finalize: false,
    };
    let mut channel: Channel<u8, &str> = Channel::new();
    let mut writer = Side::new(write, Some(5), None);
    writer.step(&mut channel);
    let mut reader = Side::new(Call::Drop { is_writer: false }, None, None);
    assert_eq!(
        reader.finish(&mut channel),
        End::Detached { last: false }
    );
    assert_eq!(writer.finish(&mut channel), End::Recovered);
    assert_eq!(writer.local.value, Some(5));
    let mut writer = Side::new(Call::Drop { is_writer: true }, None, None);
    assert_eq!(writer.finish(&mut channel), End::Detached { last: true });
}

#[test]
fn last_value_is_taken_by_a_reader_that_stores_its_waker() {
    let mut channel: Channel<u8, &str> = Channel::new();
    let read = Call::Read {
        waker: true,
        or_cancel: false,
    };
    let write = Call::Write {
        waker: false,
        finalize: true,
    };
    let mut writer = Side::new(write, Some(5), None);
    writer.step(&mut channel);
    let mut reader = Side::new(read, None, Some("reader"));
    reader.step(&mut channel);
    reader.step(&mut channel);
    writer.step(&mut channel);
    writer.step(&mut channel);
    assert_eq!(writer.at, At::WriteFinal);
    assert_eq!(reader.finish(&mut channel), End::Got { dropped: false });
    assert_eq!(reader.local.value, Some(5));
    let mut reader = Side::new(Call::Drop { is_writer: false }, None, None);
    assert_eq!(
        reader.finish(&mut channel),
        End::Detached { last: false }
    );
    assert_eq!(writer.finish(&mut channel), End::SentLast);
}

#[test]
fn owner_gives_up_while_it_is_told() {
    let mut shared: SharedInner<u8, &str> = SharedInner::new(5);
    shared.inc_count_ref();
    assert!(shared.start_poll("owner").is_pending());
    let mut none = None;
    // the last borrow has called the owner, and has not let it go on yet
    let told = shared.step(
        SharedCall::DecCountRef,
        SharedCall::DecCountRef.begin(),
        &mut none,
        false,
    );
    assert_eq!(told, SharedAt::DecNotify);
    assert_eq!(shared.take_woken(), vec!["owner"]);
    let cancel = SharedCall::CancelPoll { reset: true };
    let mut at = cancel.begin();
    at = shared.step(cancel, at, &mut none, false);
    assert_eq!(at, SharedAt::CancelNotify);
    at = shared.step(cancel, at, &mut none, true);
    assert_eq!(at, SharedAt::CancelNotify);
    at = shared.step(cancel, at, &mut none, false);
    assert_eq!(at, SharedAt::End(SharedEnd::Cancelled { last: false }));
    // the borrow is counted again, and is returned once more
    assert_eq!(shared.borrow_count(), 1);
    let mut told = shared.step(SharedCall::DecCountRef, told, &mut none, false);
    assert_eq!(told, SharedAt::DecBegin);
    told = shared.step(SharedCall::DecCountRef, told, &mut none, false);
    assert_eq!(told, SharedAt::End(SharedEnd::Kept));
    assert!(shared.try_collect(false));
}

#[test]
fn allocations_have_addresses() {
    let mut heap: Heap<u8> = Heap::new();
    let one = BoxPtr::allocate(&mut heap, 1);
    let two = BoxPtr::new(&mut heap, Box::new(2));
    assert_ne!(one.as_ptr(), 0);
    assert_ne!(one.as_ptr(), two.as_ptr());
    assert!(heap.contains(one));
    *BoxPtr::from_ptr(one.as_ptr()).to_mut(&mut heap) = 3;
    assert_eq!(*one.to_ref(&heap), 3);
    assert_eq!(*one.into_box(&mut heap), 3);
    assert!(!heap.contains(one));
    assert_eq!(*two.to_ref(&heap), 2);
    two.dealloc(&mut heap);
    assert!(heap.has_room());
}
