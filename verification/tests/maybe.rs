//! Cells that may be empty.

use suspend::maybe::{checked, unchecked};

#[test]
fn checked_init_read_write() {
    let mut cell = checked::Maybe::new(1);
    assert_eq!(cell.load(), 1);
    cell.store(2);
    assert_eq!(cell.load(), 2);
}

#[test]
fn unchecked_init_read_write() {
    let mut cell = unchecked::Maybe::new(1);
    assert_eq!(cell.load(), 1);
    cell.store(2);
    assert_eq!(cell.load(), 2);
}

#[test]
fn checked_cell_knows_whether_it_is_loaded() {
    let mut cell: checked::Maybe<u8> = checked::Maybe::empty();
    assert!(!cell.is_loaded());
    cell.store(3);
    assert!(cell.is_loaded());
    assert_eq!(cell.replace(4), 3);
    *cell.as_mut() += 1;
    assert_eq!(*cell.as_ref(), 5);
    cell.clear();
    assert!(!cell.is_loaded());
    cell.release();
}

#[test]
fn copies_stay() {
    let mut cell = checked::MaybeCopy::from(9u16);
    assert_eq!(cell.load(), 9);
    assert_eq!(cell.load(), 9);
    assert_eq!(cell.replace(10), 9);
    assert_eq!(cell.load(), 10);
    let mut other = unchecked::MaybeCopy::from(9u16);
    assert_eq!(other.replace(10), 9);
    assert_eq!(other.load(), 10);
}
