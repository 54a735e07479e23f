//! Tasks and their results.

use std::cell::Cell;
use std::rc::Rc;

use suspend::error::RecvError;
use suspend::poll::{Poll, Turn};
use suspend::task::{task_fn, JoinTask, TaskFn, TaskInner};
use suspend::util::Heap;

struct TestDrop(Rc<Cell<usize>>);

impl Drop for TestDrop {
    fn drop(&mut self) {
        self.0.set(self.0.get() + 1);
    }
}

type Memory<T, F> = Heap<TaskInner<T, F, &'static str>>;

fn memory<T, F: FnOnce() -> T>(_f: &F) -> Memory<T, F> {
    Heap::new()
}

#[test]
fn task_fn_basic() {
    let f = || true;
    let mut heap = memory(&f);
    let (task, mut join) = task_fn(&mut heap, f);
    task.run(&mut heap);
    assert_eq!(join.try_join(&mut heap), Poll::Ready(Ok(true)));
}

#[test]
fn task_fn_drop() {
    let drops = Rc::new(Cell::new(0));
    let track = TestDrop(drops.clone());
    let f = || {
        drop(track);
        true
    };
    let mut heap = memory(&f);
    let (task, mut join) = task_fn(&mut heap, f);
    assert_eq!(drops.get(), 0);
    task.drop(&mut heap);
    assert_eq!(drops.get(), 1);
    assert_eq!(
        join.try_join(&mut heap),
        Poll::Ready(Err(RecvError::Incomplete))
    );
    assert_eq!(drops.get(), 1);
}

#[test]
fn task_fn_join_drop() {
    let f = || true;
    let mut heap = memory(&f);
    let (task, join) = task_fn(&mut heap, f);
    join.drop(&mut heap);
    task.run(&mut heap);
}

#[test]
fn task_fn_join_block_on() {
    let f = || true;
    let mut heap = memory(&f);
    let (task, mut join) = task_fn(&mut heap, f);
    task.run(&mut heap);
    assert_eq!(join.poll(&mut heap, "join"), Poll::Ready(Ok(true)));
}

#[test]
fn task_fn_join_timeout() {
    let f = || true;
    let mut heap = memory(&f);
    let (task, mut join) = task_fn(&mut heap, f);
    assert_eq!(
        join.join_timeout(&mut heap, Turn::Wait("join")),
        Poll::Pending
    );
    assert_eq!(
        join.join_timeout(&mut heap, Turn::Expired),
        Poll::Ready(Err(RecvError::TimedOut))
    );
    task.run(&mut heap);
    assert_eq!(
        join.join_timeout(&mut heap, Turn::Wait("join")),
        Poll::Ready(Ok(true))
    );
    assert_eq!(
        join.join_timeout(&mut heap, Turn::Wait("join")),
        Poll::Ready(Err(RecvError::Terminated))
    );
}

#[test]
fn task_fn_both_drop() {
    let f = || true;
    let mut heap = memory(&f);
    let (task, join): (TaskFn<bool, _, _>, JoinTask<bool, _, _>) = task_fn(&mut heap, f);
    task.drop(&mut heap);
    join.drop(&mut heap);
}

#[test]
fn join_is_woken_by_the_result() {
    let f = || 3;
    let mut heap = memory(&f);
    let (task, mut join) = task_fn(&mut heap, f);
    assert_eq!(join.try_join(&mut heap), Poll::Pending);
    assert_eq!(join.join(&mut heap, "join"), Poll::Pending);
    task.run(&mut heap);
    assert_eq!(join.take_woken(&mut heap), vec!["join"]);
    assert_eq!(join.join(&mut heap, "join"), Poll::Ready(Ok(3)));
}

#[test]
fn panic_leaves_no_result() {
    let f = || 3;
    let mut heap = memory(&f);
    let (task, mut join) = task_fn(&mut heap, f);
    assert_eq!(join.join(&mut heap, "join"), Poll::Pending);
    let (_body, guard) = task.start(&mut heap);
    guard.drop(&mut heap);
    assert_eq!(join.take_woken(&mut heap), vec!["join"]);
    assert_eq!(
        join.join(&mut heap, "join"),
        Poll::Ready(Err(RecvError::Incomplete))
    );
}
