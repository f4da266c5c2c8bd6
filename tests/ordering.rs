use pending_operation::h256::H256;
use pending_operation::operation::{OperationRecord, PendingOperation};
use pending_operation::ordering::{compare_operations, same_operation, OperationKey};
use std::cmp::Ordering;

fn id(last: u8) -> H256 {
    let mut b = [0u8; 32];
    b[31] = last;
    H256::from_bytes(b)
}

fn key(next: Option<u64>, origin: u32, priority: u32, last: u8) -> OperationKey {
    OperationKey {
        next_attempt_after: next,
        origin_domain_id: origin,
        priority,
        id: id(last),
    }
}

#[test]
fn ready_operation_precedes_scheduled_one() {
    let ready = key(None, 1, 100, 9);
    let scheduled_early = key(Some(0), 1, 0, 0);
    assert_eq!(ready.compare(&scheduled_early), Ordering::Less);
    assert_eq!(scheduled_early.compare(&ready), Ordering::Greater);
}

#[test]
fn scheduled_operations_go_by_instant() {
    let a = key(Some(5), 1, 9, 9);
    let b = key(Some(7), 2, 0, 0);
    assert_eq!(a.compare(&b), Ordering::Less);
    assert_eq!(b.compare(&a), Ordering::Greater);
}

#[test]
fn same_origin_goes_by_priority_regardless_of_id() {
    let a = key(None, 3, 1, 200);
    let b = key(None, 3, 2, 1);
    assert_eq!(a.compare(&b), Ordering::Less);
    assert_eq!(b.compare(&a), Ordering::Greater);
}

#[test]
fn different_origins_go_by_id() {
    let a = key(None, 3, 50, 1);
    let b = key(None, 4, 1, 2);
    assert_eq!(a.compare(&b), Ordering::Less);
    let mut high = [0u8; 32];
    high[0] = 1;
    let c = OperationKey { id: H256::from_bytes(high), ..a };
    assert_eq!(c.compare(&b), Ordering::Greater);
}

#[test]
fn operation_compares_equal_to_itself() {
    let a = key(None, 3, 50, 1);
    assert_eq!(a.compare(&a), Ordering::Equal);
    let b = key(Some(3), 3, 50, 1);
    assert_eq!(b.compare(&b), Ordering::Equal);
}

#[test]
fn operations_compare_through_their_accessors() {
    let mut a = OperationRecord::new(id(1), 7, 1, "ethereum".to_string(), None);
    let b = OperationRecord::new(id(2), 3, 1, "ethereum".to_string(), None);
    assert_eq!(compare_operations(&a, &b), Ordering::Greater);
    a.set_next_attempt_after(10, 5);
    assert_eq!(a.next_attempt_after(), Some(15));
    assert_eq!(compare_operations(&b, &a), Ordering::Less);
    assert!(!same_operation(&a, &b));
    assert!(same_operation(&a, &a.clone()));
}

#[test]
fn id_compares_big_endian() {
    let mut x = [0u8; 32];
    x[0] = 1;
    let mut y = [0u8; 32];
    y[31] = 255;
    assert_eq!(H256::from_bytes(x).compare(&H256::from_bytes(y)), Ordering::Greater);
    assert_eq!(H256::from_bytes(y).compare(&H256::from_bytes(y)), Ordering::Equal);
}

#[test]
fn same_instant_falls_through_to_id() {
    let a = key(Some(42), 1, 9, 1);
    let b = key(Some(42), 2, 0, 2);
    assert_eq!(a.compare(&b), Ordering::Less);
    assert_eq!(b.compare(&a), Ordering::Greater);
}

#[test]
fn same_origin_and_priority_falls_through_to_id() {
    let a = key(None, 5, 3, 9);
    let b = key(None, 5, 3, 4);
    assert_eq!(a.compare(&b), Ordering::Greater);
    assert_eq!(b.compare(&a), Ordering::Less);
}
