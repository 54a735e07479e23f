//! Pools of threads.

use suspend::channel::memory::Channel;
use suspend::error::RecvError;
use suspend::exec::config::ThreadPoolConfig;
use suspend::exec::join::{task_result, JoinTask};
use suspend::exec::name::thread_name;
use suspend::exec::pool::{Closing, ThreadPool};
use suspend::exec::scope::{Scope, ThreadScope};
use suspend::exec::state::Work;
use suspend::exec::threadpool::{Dropping, ThreadPool as CountingPool};
use suspend::poll::{Poll, Turn};
use suspend::scoped::PinShared;
use suspend::types::Duration;
use suspend::util::Heap;

fn task<R>(work: Work<R>) -> R {
    match work {
        Work::Run { task, .. } => task,
        _ => panic!("Expected something to run"),
    }
}

#[test]
fn names_count_threads() {
    assert_eq!(thread_name("threadpool", 0), "threadpool-0");
    assert_eq!(thread_name("pool", 7), "pool-7");
    assert_eq!(thread_name("pool", 10), "pool-10");
    assert_eq!(thread_name("", 1_234_567_890), "-1234567890");
    assert_eq!(
        thread_name("x", usize::MAX),
        format!("{}-{}", "x", usize::MAX)
    );
}

#[test]
fn as_many_threads_as_processors() {
    let (timeout, min, max, name) = ThreadPoolConfig::default().into_parts();
    assert_eq!(timeout, Some(Duration::from_millis(500)));
    assert_eq!(min, num_cpus::get());
    assert!(min >= 1);
    assert_eq!(max, None);
    assert_eq!(name, None);
}

#[test]
fn configuration_is_kept() {
    let config = ThreadPoolConfig::default()
        .idle_timeout(None)
        .max_count(Some(5))
        .min_count(2)
        .thread_name(Some(String::from("worker")));
    assert_eq!(
        config.into_parts(),
        (None, 2, Some(5), Some(String::from("worker")))
    );
}

#[test]
fn pool_starts_with_the_threads_it_keeps() {
    let config = ThreadPoolConfig::default().min_count(2);
    let (_pool, names) = config.build::<u32, &str>();
    assert_eq!(names, vec!["threadpool-1", "threadpool-2"]);
    let config = ThreadPoolConfig::default()
        .min_count(2)
        .thread_name(Some(String::from("w")));
    let (_pool, names) = CountingPool::<u32>::new(config);
    assert_eq!(names, vec!["w-0", "w-1"]);
}

#[test]
fn queue_is_run_in_order() {
    let config = ThreadPoolConfig::default().min_count(1).max_count(Some(1));
    let (mut pool, _) = ThreadPool::<u32, &str>::new(config);
    for n in 0..12 {
        assert_eq!(pool.run(n), Ok(None));
    }
    for n in 0..12 {
        assert_eq!(task(pool.next_work()), n);
        pool.finished(Ok(()));
    }
    assert!(matches!(pool.next_work(), Work::Wait { timeout: Some(_) }));
}

#[test]
fn threads_are_started_on_demand() {
    let config = ThreadPoolConfig::default().min_count(1).max_count(Some(3));
    let (mut pool, _) = ThreadPool::<u32, &str>::new(config);
    for n in 0..5 {
        assert_eq!(pool.run(n), Ok(None));
    }
    // five times as much as there are idle threads is too much
    assert_eq!(pool.run(5), Ok(Some(String::from("threadpool-2"))));
    assert_eq!(task(pool.next_work()), 0);
    // no thread is idle any more: another one is started
    match pool.next_work() {
        Work::Run { task, spawn } => {
            assert_eq!(task, 1);
            assert_eq!(spawn, Some(String::from("threadpool-3")));
        }
        _ => panic!("Expected something to run"),
    }
    // and that is all that is allowed
    match pool.next_work() {
        Work::Run { task, spawn } => {
            assert_eq!(task, 2);
            assert_eq!(spawn, None);
        }
        _ => panic!("Expected something to run"),
    }
}

#[test]
fn one_thread_is_always_allowed() {
    let config = ThreadPoolConfig::default().min_count(0).max_count(Some(0));
    let (mut pool, names) = ThreadPool::<u32, &str>::new(config);
    assert!(names.is_empty());
    assert_eq!(pool.run(1), Ok(Some(String::from("threadpool-1"))));
    assert_eq!(pool.run(2), Ok(None));
}

#[test]
fn idle_threads_end_unless_they_are_kept() {
    let config = ThreadPoolConfig::default().min_count(1);
    let (mut pool, _) = ThreadPool::<u32, &str>::new(config);
    assert!(!pool.waited(true));
    for n in 0..6 {
        let _ = pool.run(n);
    }
    assert!(!pool.waited(false));
    assert!(pool.waited(true));
    assert!(!pool.waited(true));
}

#[test]
fn panic_is_handed_to_the_next_user() {
    let config = ThreadPoolConfig::default().min_count(2);
    let (mut pool, _) = ThreadPool::<u32, &str>::new(config);
    assert_eq!(pool.run(1), Ok(None));
    assert_eq!(task(pool.next_work()), 1);
    pool.finished(Err("expected"));
    assert_eq!(pool.run(2), Err("expected"));
    assert!(matches!(pool.next_work(), Work::Exit));
    assert_eq!(pool.shutdown(), Closing::Done);
}

#[test]
fn closing_waits_for_the_threads() {
    let config = ThreadPoolConfig::default().min_count(2);
    let (mut pool, _) = ThreadPool::<u32, &str>::new(config);
    let _ = pool.run(1);
    let _ = pool.run(2);
    assert_eq!(task(pool.next_work()), 1);
    assert_eq!(pool.shutdown(), Closing::Wait);
    assert!(matches!(pool.next_work(), Work::Exit));
    assert_eq!(pool.shutdown(), Closing::Wait);
    pool.finished(Err("late"));
    assert_eq!(pool.shutdown(), Closing::Panic("late"));
    assert_eq!(pool.shutdown(), Closing::Done);
}

#[test]
fn counting_pool_goes_on_after_a_panic() {
    let config = ThreadPoolConfig::default().min_count(2);
    let (mut pool, _) = CountingPool::<u32>::new(config);
    assert_eq!(pool.run_boxed(1), None);
    assert_eq!(task(pool.next_work()), 1);
    pool.finished(true);
    assert_eq!(pool.run_boxed(2), None);
    // the last idle thread is busy now, so another takes the place of the one that panicked
    match pool.next_work() {
        Work::Run { task, spawn } => {
            assert_eq!(task, 2);
            assert_eq!(spawn, Some(String::from("threadpool-2")));
        }
        _ => panic!("Expected something to run"),
    }
    pool.finished(false);
    assert!(!pool.waited(true));
    assert_eq!(CountingPool::<u32>::drop_timeout(), Duration::from_secs(1));
    assert_eq!(pool.drop(Turn::Wait(())), Dropping::Wait);
    assert_eq!(pool.drop(Turn::<()>::Expired), Dropping::TimedOut(2));
    assert!(matches!(pool.next_work(), Work::Exit));
    assert!(matches!(pool.next_work(), Work::Exit));
    assert_eq!(pool.drop(Turn::<()>::Expired), Dropping::Done);
}

#[test]
fn results_and_panics_are_joined() {
    let mut heap: Heap<Channel<Result<u32, &str>, &str>> = Heap::new();
    let (run, mut join) = JoinTask::new_pair(&mut heap);
    assert_eq!(join.join(&mut heap, "join"), Poll::Pending);
    assert!(!run.finish(&mut heap, Ok(1)));
    assert_eq!(join.join(&mut heap, "join"), Poll::Ready(Ok(1)));
    assert_eq!(
        join.poll(&mut heap, "join"),
        Poll::Ready(Err(RecvError::Terminated))
    );
    let (run, mut join) = JoinTask::new_pair(&mut heap);
    assert!(run.finish(&mut heap, Err("expected")));
    assert_eq!(
        join.poll(&mut heap, "join"),
        Poll::Ready(Err(RecvError::Incomplete))
    );
    assert_eq!(
        task_result::<u32, &str>(Err(RecvError::Incomplete)),
        Err(RecvError::Incomplete)
    );
    assert_eq!(
        task_result::<u32, &str>(Ok(Err("expected"))),
        Err(RecvError::Incomplete)
    );
    assert_eq!(task_result::<u32, &str>(Ok(Ok(5))), Ok(5));
}

#[test]
fn scope_ends_with_what_runs_in_it() {
    let (mut pool, _) = ThreadPool::<u32, &str>::new(ThreadPoolConfig::default().min_count(1));
    let mut scope = ThreadScope::new();
    assert!(scope.wait().is_ready());
    let (track, spawn) = scope.run(&mut pool, 1).unwrap();
    assert_eq!(spawn, None);
    assert!(scope.wait().is_pending());
    track.drop(&mut scope);
    assert!(scope.wait().is_ready());
    assert_eq!(task(pool.next_work()), 1);
    pool.finished(Err("expected"));
    assert_eq!(scope.run(&mut pool, 2).err(), Some("expected"));
    assert!(scope.wait().is_ready());
}

/// What the threads of a pool run here.
type Task<T> = Box<dyn FnOnce(&mut Results<T>) -> bool>;

/// Where the results are sent.
type Results<T> = Heap<Channel<Result<T, &'static str>, &'static str>>;

/// Let one of the threads go on until it waits or ends.
fn work<T>(pool: &mut CountingPool<Task<T>>, heap: &mut Results<T>) {
    while let Work::Run { task, .. } = pool.next_work() {
        let panicked = task(heap);
        pool.finished(panicked);
        if panicked {
            break;
        }
    }
}

#[test]
fn thread_pool_unbounded_drain() {
    let (mut pool, _) = ThreadPool::<u32, &str>::new(ThreadPoolConfig::default());
    let count = 1000;
    for n in 0..count {
        assert!(pool.run(n).is_ok());
    }
    let mut calls = 0;
    while pool.drain().is_pending() {
        assert_eq!(task(pool.next_work()), calls);
        calls += 1;
        pool.finished(Ok(()));
    }
    assert_eq!(calls, count);
}

#[test]
fn thread_pool_bounded_drain() {
    let config = ThreadPoolConfig::default().max_count(Some(5));
    let (mut pool, _) = config.build::<u32, &str>();
    let count = 1000;
    for n in 0..count {
        assert!(pool.run(n).is_ok());
    }
    let mut calls = 0;
    while pool.drain().is_pending() {
        assert_eq!(task(pool.next_work()), calls);
        calls += 1;
        assert!(pool.drain().is_pending());
        pool.finished(Ok(()));
    }
    assert_eq!(calls, count);
}

#[test]
fn thread_pool_run_join() {
    let (mut pool, _) = CountingPool::<Task<bool>>::new(ThreadPoolConfig::default());
    let mut heap: Results<bool> = Heap::new();
    let (mut join, _) = pool.run(&mut heap, |run| -> Task<bool> {
        Box::new(move |heap| run.finish(heap, Ok(true)))
    });
    work(&mut pool, &mut heap);
    assert_eq!(join.join(&mut heap, "join"), Poll::Ready(Ok(true)))
}

#[test]
fn thread_pool_run_block_on() {
    let (mut pool, _) = CountingPool::<Task<u32>>::new(ThreadPoolConfig::default());
    let mut heap: Results<u32> = Heap::new();
    for i in 0..100 {
        let (mut join, _) = pool.run(&mut heap, |run| -> Task<u32> {
            Box::new(move |heap| run.finish(heap, Ok(i)))
        });
        assert_eq!(join.poll(&mut heap, "waker"), Poll::Pending);
        work(&mut pool, &mut heap);
        assert_eq!(join.poll(&mut heap, "waker"), Poll::Ready(Ok(i)));
    }
}

#[test]
fn thread_pool_panic_run() {
    let (mut pool, _) = CountingPool::<Task<()>>::new(ThreadPoolConfig::default());
    let mut heap: Results<()> = Heap::new();
    let (mut join, _) = pool.run(&mut heap, |run| -> Task<()> {
        Box::new(move |heap| run.finish(heap, Err("expected")))
    });
    work(&mut pool, &mut heap);
    assert_eq!(
        join.join(&mut heap, "join"),
        Poll::Ready(Err(RecvError::Incomplete))
    )
}

#[test]
fn thread_pool_panic_scoped() {
    let (mut pool, _) = CountingPool::<Task<()>>::new(ThreadPoolConfig::default());
    let mut heap: Results<()> = Heap::new();
    let mut shared = PinShared::new(());
    let (scope, mut join) = shared.with(
        |tracker, inner| {
            let scope = Scope::new(tracker);
            let mut held = None;
            let (join, _) = scope.run(inner, &mut heap, &mut pool, |own, run| -> Task<()> {
                held = Some(own);
                Box::new(move |heap| run.finish(heap, Err("expected")))
            });
            scope.drop(inner);
            (held, join)
        },
        "owner",
    );
    assert!(shared.is_pending());
    work(&mut pool, &mut heap);
    assert_eq!(
        join.join(&mut heap, "join"),
        Poll::Ready(Err(RecvError::Incomplete))
    );
    // the scope ends with what runs in it
    scope.expect("Expected a scope").drop(shared.scope());
    assert_eq!(shared.finish("owner"), Poll::Ready(()));
}

#[test]
fn unblocked_result_is_received() {
    let (mut pool, _) = ThreadPool::new(ThreadPoolConfig::default().min_count(2));
    let mut heap: Heap<Channel<u32, &str>> = Heap::new();
    let (mut receiver, spawn) = pool.unblock(&mut heap, |sender| sender).unwrap();
    assert_eq!(spawn, None);
    assert_eq!(receiver.recv(&mut heap, "receiver"), Poll::Pending);
    let sender = task(pool.next_work());
    assert_eq!(sender.try_send(&mut heap, 5), Ok(()));
    pool.finished(Ok(()));
    assert_eq!(receiver.recv(&mut heap, "receiver"), Poll::Ready(Ok(5)));
    let (_receiver, _) = pool.unblock(&mut heap, |sender| sender).unwrap();
    let _sender = task(pool.next_work());
    pool.finished(Err("expected"));
    assert_eq!(
        pool.unblock(&mut heap, |sender| sender).unwrap_err(),
        "expected"
    );
}

#[test]
fn scope_is_handed_on() {
    let (mut pool, _) = CountingPool::new(ThreadPoolConfig::default().min_count(1));
    let mut heap: Results<u32> = Heap::new();
    let mut shared = PinShared::new(());
    let mut join = shared.with(
        |tracker, inner| {
            let scope = Scope::new(tracker);
            let (join, spawn) = scope.run(inner, &mut heap, &mut pool, |scope, run| (scope, run));
            assert_eq!(spawn, None);
            scope.drop(inner);
            join
        },
        "owner",
    );
    assert!(shared.is_pending());
    assert_eq!(join.join(&mut heap, "join"), Poll::Pending);
    let (nested, run) = task(pool.next_work());
    assert!(!run.finish(&mut heap, Ok(4)));
    assert!(shared.finish("owner").is_pending());
    nested.drop(shared.scope());
    assert_eq!(join.join(&mut heap, "join"), Poll::Ready(Ok(4)));
    assert!(shared.finish("owner").is_ready());
}
