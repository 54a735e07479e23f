//! Shared values and their borrows.

use suspend::poll::{Poll, Turn};
use suspend::shared::handles::Lender;
use suspend::shared::memory::SharedInner;
use suspend::util::Heap;

type Memory<T> = Heap<SharedInner<T, &'static str>>;

#[test]
fn lender_unshared_get_mut() {
    let mut heap: Memory<bool> = Heap::new();
    let mut lender = Lender::new(&mut heap, true);
    *lender
        .get_mut(&mut heap)
        .expect("Error collecting lender") = false;
    assert_eq!(lender.to_owned(&heap), false);
}

#[test]
fn lender_unshared_collect_poll() {
    let mut heap: Memory<bool> = Heap::new();
    let mut lender = Lender::new(&mut heap, true);
    assert_eq!(lender.collect().poll(&mut heap, "owner").is_ready(), true);
}

#[test]
fn lender_unshared_collect_into_poll() {
    let mut heap: Memory<bool> = Heap::new();
    let lender = Lender::new(&mut heap, true);
    assert_eq!(
        lender.collect_into().poll(&mut heap, "owner"),
        Poll::Ready(true)
    );
}

#[test]
fn lender_unshared_collect_wait() {
    let mut heap: Memory<bool> = Heap::new();
    let mut lender = Lender::new(&mut heap, true);
    assert!(matches!(
        lender.collect().wait(&mut heap, Turn::Wait("owner")),
        Poll::Ready(Ok(_))
    ));
}

#[test]
fn lender_unshared_collect_into_wait() {
    let mut heap: Memory<bool> = Heap::new();
    let lender = Lender::new(&mut heap, true);
    assert_eq!(
        lender.collect_into().wait(&mut heap, Turn::Wait("owner")),
        Poll::Ready(Ok(true))
    );
}

#[test]
fn lender_borrow_collect_poll_retry() {
    let mut heap: Memory<bool> = Heap::new();
    let mut lender = Lender::new(&mut heap, true);
    let borrow = lender.borrow(&mut heap);
    let mut collect = lender.collect();
    assert_eq!(collect.poll(&mut heap, "owner").is_pending(), true);
    borrow.drop(&mut heap);
    assert_eq!(collect.poll(&mut heap, "owner").is_ready(), true);
}

#[test]
fn lender_borrow_collect_into_poll_retry() {
    let mut heap: Memory<bool> = Heap::new();
    let lender = Lender::new(&mut heap, true);
    let borrow = lender.borrow(&mut heap);
    let mut collect = lender.collect_into();
    assert_eq!(collect.poll(&mut heap, "owner").is_pending(), true);
    borrow.drop(&mut heap);
    assert_eq!(collect.poll(&mut heap, "owner"), Poll::Ready(true));
}

#[test]
fn lender_borrow_collect_resolve_retry() {
    let mut heap: Memory<bool> = Heap::new();
    let mut lender = Lender::new(&mut heap, true);
    let borrow = lender.borrow(&mut heap);
    let lender = lender
        .collect()
        .resolve(&mut heap)
        .expect_err("Collect should fail");
    borrow.drop(&mut heap);
    assert_eq!(lender.collect().resolve(&mut heap).is_ok(), true);
}

#[test]
fn lender_borrow_collect_into_resolve_retry() {
    let mut heap: Memory<bool> = Heap::new();
    let lender = Lender::new(&mut heap, true);
    let borrow = lender.borrow(&mut heap);
    let lender = lender
        .collect_into()
        .resolve(&mut heap)
        .expect_err("Collect should fail");
    borrow.drop(&mut heap);
    assert_eq!(lender.collect_into().resolve(&mut heap), Ok(true));
}

#[test]
fn lender_borrow_collect_wait_timeout() {
    let mut heap: Memory<bool> = Heap::new();
    let mut lender = Lender::new(&mut heap, true);
    let _borrow = lender.borrow(&mut heap);
    let mut collect = lender.collect();
    assert!(collect.wait(&mut heap, Turn::Wait("owner")).is_pending());
    match collect.wait(&mut heap, Turn::Expired) {
        Poll::Ready(result) => {
            result.expect_err("Should time out");
        }
        Poll::Pending => panic!("Should time out"),
    }
}

#[test]
fn lender_borrow_collect_into_wait_timeout() {
    let mut heap: Memory<bool> = Heap::new();
    let lender = Lender::new(&mut heap, true);
    let _borrow = lender.borrow(&mut heap);
    let mut collect = lender.collect_into();
    assert!(collect.wait(&mut heap, Turn::Wait("owner")).is_pending());
    match collect.wait(&mut heap, Turn::Expired) {
        Poll::Ready(result) => {
            result.expect_err("Should time out");
        }
        Poll::Pending => panic!("Should time out"),
    }
}

#[test]
fn lender_borrow_get_mut() {
    let mut heap: Memory<bool> = Heap::new();
    let mut lender = Lender::new(&mut heap, true);
    for _ in 0..10 {
        lender.borrow(&mut heap).drop(&mut heap);
    }
    lender
        .get_mut(&mut heap)
        .expect("Error collecting lender");
}

#[test]
fn lender_borrow_get_mut_fail() {
    let mut heap: Memory<bool> = Heap::new();
    let mut lender = Lender::new(&mut heap, true);
    let borrow = lender.borrow(&mut heap);
    assert_eq!(lender.get_mut(&mut heap).is_none(), true);
    borrow.drop(&mut heap);
    lender
        .get_mut(&mut heap)
        .expect("Error collecting lender");
}

#[test]
fn lender_borrow_drop() {
    let mut heap: Memory<bool> = Heap::new();
    let lender = Lender::new(&mut heap, true);
    let borrow = lender.borrow(&mut heap);
    lender.drop(&mut heap);
    borrow.drop(&mut heap);
}

#[test]
fn lender_borrow_poll_drop() {
    let mut heap: Memory<bool> = Heap::new();
    let mut lender = Lender::new(&mut heap, true);
    let borrow = lender.borrow(&mut heap);
    let mut collect = lender.collect();
    assert_eq!(collect.poll(&mut heap, "owner"), Poll::Pending);
    collect.drop(&mut heap);
    lender.drop(&mut heap);
    borrow.drop(&mut heap);
}

#[test]
fn last_borrow_wakes_the_owner() {
    let mut heap: Memory<u8> = Heap::new();
    let mut lender = Lender::new(&mut heap, 1);
    let first = lender.borrow(&mut heap);
    let second = first.clone(&mut heap);
    assert_eq!(first.borrow_count(&heap), 2);
    assert_eq!(lender.borrow_count(&heap), 2);
    assert!(lender.poll_collect(&mut heap, "early").is_pending());
    assert_eq!(lender.borrow_count(&heap), 2);
    first.drop(&mut heap);
    assert_eq!(lender.take_woken(&mut heap).len(), 0);
    assert!(lender.poll_collect(&mut heap, "late").is_pending());
    second.drop(&mut heap);
    assert_eq!(lender.take_woken(&mut heap), vec!["late"]);
    assert_eq!(lender.borrow_count(&heap), 0);
    assert!(lender.poll_collect(&mut heap, "late").is_ready());
    assert_eq!(lender.into_inner(&mut heap), 1);
}

#[test]
fn cancelled_wait_can_be_started_again() {
    let mut heap: Memory<u8> = Heap::new();
    let mut lender = Lender::new(&mut heap, 1);
    let borrow = lender.borrow(&mut heap);
    assert!(lender.poll_collect(&mut heap, "owner").is_pending());
    lender.cancel_collect(&mut heap);
    borrow.drop(&mut heap);
    assert_eq!(lender.take_woken(&mut heap).len(), 0);
    assert!(lender.poll_collect(&mut heap, "owner").is_ready());
}

#[test]
fn value_lives_as_long_as_a_borrow() {
    let mut heap: Memory<u8> = Heap::new();
    let lender = Lender::new(&mut heap, 5);
    let first = lender.borrow(&mut heap);
    let again = lender.borrow_ref().into_shared(&mut heap);
    lender.drop(&mut heap);
    assert_eq!(*first.as_ref(&heap), 5);
    assert_eq!(first.borrow_count(&heap), 2);
    first.drop(&mut heap);
    assert_eq!(*again.as_ref(&heap), 5);
    assert_eq!(again.borrow_count(&heap), 1);
    again.drop(&mut heap);
}

#[test]
fn owners_of_the_same_value_are_equal() {
    let mut heap: Memory<u8> = Heap::new();
    let one = Lender::new(&mut heap, 5);
    let other = Lender::new(&mut heap, 5);
    assert!(one == one);
    assert!(one != other);
}

#[test]
fn borrows_are_counted_while_the_owner_waits() {
    let mut heap: Memory<bool> = Heap::new();
    let mut lender = Lender::new(&mut heap, true);
    let borrow = lender.borrow(&mut heap);
    let mut collect = lender.collect();
    assert_eq!(collect.poll(&mut heap, "owner"), Poll::Pending);
    assert_eq!(borrow.borrow_count(&heap), 1);
    assert_eq!(borrow.borrow_ref().borrow_count(&heap), 1);
    let other = borrow.clone(&mut heap);
    assert_eq!(other.borrow_count(&heap), 2);
    collect.drop(&mut heap);
    assert_eq!(borrow.borrow_count(&heap), 2);
    assert_eq!(lender.borrow_count(&heap), 2);
}

#[test]
fn expired_wait_collects_what_is_there() {
    let mut heap: Memory<u8> = Heap::new();
    let mut lender = Lender::new(&mut heap, 5);
    assert_eq!(
        lender.collect().wait(&mut heap, Turn::Expired),
        Poll::Ready(Ok(&mut 5))
    );
    let borrow = lender.borrow(&mut heap);
    let mut collect = lender.collect();
    assert!(collect.wait(&mut heap, Turn::Wait("owner")).is_pending());
    borrow.drop(&mut heap);
    assert_eq!(
        collect.wait(&mut heap, Turn::Expired),
        Poll::Ready(Ok(&mut 5))
    );
    assert_eq!(
        lender.collect_into().wait(&mut heap, Turn::Expired),
        Poll::Ready(Ok(5))
    );
}

#[test]
fn expired_wait_is_given_up() {
    let mut heap: Memory<u8> = Heap::new();
    let mut lender = Lender::new(&mut heap, 5);
    let first = lender.borrow(&mut heap);
    let mut collect = lender.collect();
    assert!(collect.wait(&mut heap, Turn::Wait("owner")).is_pending());
    match collect.wait(&mut heap, Turn::Expired) {
        Poll::Ready(Err(lender)) => {
            first.drop(&mut heap);
            let second = lender.borrow(&mut heap);
            assert_eq!(second.borrow_count(&heap), 1);
            assert_eq!(lender.borrow_count(&heap), 1);
            second.drop(&mut heap);
        }
        _ => panic!("Expected the owner back"),
    }
    assert_eq!(lender.take_woken(&mut heap).len(), 0);
    let borrow = lender.borrow(&mut heap);
    let mut collect = lender.collect();
    assert!(collect.poll(&mut heap, "owner").is_pending());
    let lender = collect.resolve(&mut heap).unwrap_err();
    borrow.drop(&mut heap);
    assert_eq!(lender.take_woken(&mut heap).len(), 0);
    assert_eq!(*lender.get_mut(&mut heap).unwrap(), 5);
}
