//! How the operations on a channel relate to each other.

use vstd::prelude::*;

use crate::channel::memory::Mem;
use crate::channel::state::State;
use crate::poll::Poll;

verus! {

/// A read gives back what the write before it loaded, and leaves the channel
/// empty. It reports the sender as gone if and only if the value was written as the last one
/// with no waker to come back for.
pub proof fn law_read_after_write<T, W>(
    mem: Mem<T, W>,
    value: T,
    write_waker: Option<W>,
    finalize: bool,
    read_waker: Option<W>,
    or_cancel: bool,
)
    requires
        mem.quiet(),
        mem.state.active,
        !mem.state.loaded,
    ensures
        ({
            let (written, loaded) = mem.write_result(value, write_waker, finalize);
            let (read, after) = loaded.read_result(read_waker, or_cancel);
            let last = finalize && write_waker is None;
            &&& written is Ok
            &&& read == Poll::Ready((Some(value), last))
            &&& after.value is None
            &&& after.waker is None
            &&& after.state == State::flags(!last, false, false, false, false)
        }),
{
}

/// Only one value is in transit: a second write is refused, gets its value
/// back, and changes nothing.
pub proof fn law_write_twice<T, W>(
    mem: Mem<T, W>,
    first: T,
    second: T,
    waker: Option<W>,
    other_waker: Option<W>,
    other_finalize: bool,
)
    requires
        mem.quiet(),
        mem.state.active,
    ensures
        ({
            let loaded = mem.write_result(first, waker, false).1;
            let (written, after) = loaded.write_result(second, other_waker, other_finalize);
            &&& written == Err::<(), (T, bool)>((second, false))
            &&& after == loaded
        }),
{
}

/// A value is taken out once: a second read finds none.
pub proof fn law_read_twice<T, W>(mem: Mem<T, W>, waker: Option<W>)
    requires
        mem.quiet(),
        mem.state.loaded,
    ensures
        ({
            let emptied = mem.read_result(waker, false).1;
            let (read, after) = emptied.read_result(None, false);
            &&& read == Poll::Ready((None::<T>, !mem.state.active))
            &&& after == emptied
        }),
{
}

/// A reader that waits is woken by the write.
pub proof fn law_write_wakes_reader<T, W>(
    mem: Mem<T, W>,
    reader: W,
    value: T,
    writer: Option<W>,
    finalize: bool,
)
    requires
        mem.quiet(),
        mem.state.active,
        !mem.state.loaded,
    ensures
        ({
            let (read, waiting) = mem.read_result(Some(reader), false);
            let (written, loaded) = waiting.write_result(value, writer, finalize);
            &&& read is Pending
            &&& waiting.woken == mem.woken
            &&& written is Ok
            &&& loaded.woken == mem.woken.push(reader)
        }),
{
}

/// A writer that waits for its value to be received is woken by the read.
pub proof fn law_read_wakes_writer<T, W>(
    mem: Mem<T, W>,
    value: T,
    writer: W,
    later: W,
    reader: Option<W>,
    finalize: bool,
)
    requires
        mem.quiet(),
        mem.state.active,
        !mem.state.loaded,
        mem.waker is None,
    ensures
        ({
            let loaded = mem.write_result(value, Some(writer), finalize).1;
            let (flushed, waiting) = loaded.flush_result(later, finalize);
            let read = waiting.read_result(reader, false).1;
            let (flushed_again, after) = read.flush_result(writer, finalize);
            &&& loaded.read_result(reader, false).1.woken == mem.woken.push(writer)
            &&& flushed is Pending
            &&& read.woken == mem.woken.push(later)
            &&& flushed_again == Poll::Ready((None::<T>, false))
        }),
{
}

/// A side that waits is woken when the other side detaches.
pub proof fn law_drop_wakes<T, W>(mem: Mem<T, W>, is_writer: bool)
    requires
        mem.quiet(),
        mem.state.active,
        mem.waker is Some,
        mem.state.loaded != is_writer,
    ensures
        mem.drop_result(is_writer).1.woken == mem.woken.push(mem.waker->0),
{
}

/// Of two sides that detach, the second one is told to free the channel, and
/// nothing is left in it.
pub proof fn law_drop_both<T, W>(mem: Mem<T, W>, first: bool, second: bool)
    requires
        mem.quiet(),
        mem.state.active,
    ensures
        ({
            let (last, left) = mem.drop_result(first);
            let (last_again, after) = left.drop_result(second);
            &&& !last
            &&& left.quiet()
            &&& last_again
            &&& after.value is None
            &&& after.waker is None
        }),
{
}

/// What the sender has loaded before it detaches is still received, once, and
/// then the end is reported. Without a value the end is reported at once.
pub proof fn law_read_after_sender_drop<T, W>(mem: Mem<T, W>, waker: Option<W>, later: Option<W>)
    requires
        mem.quiet(),
        mem.state.active,
    ensures
        ({
            let left = mem.drop_result(true).1;
            let (read, after) = left.read_result(waker, false);
            &&& read == Poll::Ready((mem.value, true))
            &&& after.read_result(later, false).0 == Poll::Ready((None::<T>, true))
        }),
{
}

/// Once the receiver has detached, a write is refused and gets its value back.
pub proof fn law_write_after_receiver_drop<T, W>(
    mem: Mem<T, W>,
    value: T,
    waker: Option<W>,
    finalize: bool,
)
    requires
        mem.quiet(),
        mem.state.active,
    ensures
        ({
            let left = mem.drop_result(false).1;
            left.write_result(value, waker, finalize) == (Err::<(), (T, bool)>((value, true)), left)
        }),
{
}

/// A value that the receiver leaves behind goes back to a sender that flushes.
pub proof fn law_flush_after_receiver_drop<T, W>(
    mem: Mem<T, W>,
    value: T,
    waker: W,
    later: W,
    finalize: bool,
)
    requires
        mem.quiet(),
        mem.state.active,
        !mem.state.loaded,
    ensures
        ({
            let loaded = mem.write_result(value, Some(waker), finalize).1;
            let left = loaded.drop_result(false).1;
            left.flush_result(later, finalize).0 == Poll::Ready((Some(value), true))
        }),
{
}

/// A read that is cancelled returns what was loaded, and the sender cannot send
/// any more.
pub proof fn law_cancel<T, W>(mem: Mem<T, W>, value: T, waker: Option<W>, finalize: bool)
    requires
        mem.quiet(),
        mem.state.active,
    ensures
        ({
            let (read, emptied) = mem.read_result(None, true);
            let after = if mem.state.loaded {
                emptied.drop_result(false).1
            } else {
                emptied
            };
            &&& read == Poll::Ready((mem.value, false))
            &&& after.quiet()
            &&& after.write_result(value, waker, finalize) == (
                Err::<(), (T, bool)>((value, true)),
                after,
            )
        }),
{
}

} // verus!
