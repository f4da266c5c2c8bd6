//! The order in which queued operations are taken up.
//!
//! An operation that is eligible now comes before one scheduled for later;
//! scheduled ones go by their instant. Among those eligible now, operations
//! from the same origin go by priority, others by identifier. Whatever is
//! still tied goes by identifier, so that only an operation compares equal
//! to itself.

use vstd::prelude::*;
use std::cmp::Ordering;
use crate::h256::{lemma_lex_cmp_antisymmetric, lemma_lex_cmp_equal, lemma_lex_cmp_transitive, lex_cmp, H256};
use crate::operation::PendingOperation;

verus! {

/// What the order reads of an operation.
#[derive(Clone, Copy, Debug, PartialEq, Eq)]
pub struct OperationKey {
    /// The earliest instant of the next attempt; `None` when eligible now.
    pub next_attempt_after: Option<u64>,
    /// The domain the operation originates from.
    pub origin_domain_id: u32,
    /// The priority; lower is more urgent.
    pub priority: u32,
    /// The unique identifier.
    pub id: H256,
}

/// The order of two integers.
pub open spec fn int_cmp(a: int, b: int) -> Ordering {
    if a < b {
        Ordering::Less
    } else if a > b {
        Ordering::Greater
    } else {
        Ordering::Equal
    }
}

/// `first`, or where that is a tie, `then`.
pub open spec fn then_cmp(first: Ordering, then: Ordering) -> Ordering {
    match first {
        Ordering::Equal => then,
        _ => first,
    }
}

/// The order of two operations.
pub open spec fn key_cmp(a: OperationKey, b: OperationKey) -> Ordering {
    let by_id = lex_cmp(a.id.view_bytes(), b.id.view_bytes());
    match (a.next_attempt_after, b.next_attempt_after) {
        (Some(x), Some(y)) => then_cmp(int_cmp(x as int, y as int), by_id),
        (None, Some(_)) => Ordering::Less,
        (Some(_), None) => Ordering::Greater,
        (None, None) => if a.origin_domain_id == b.origin_domain_id {
            then_cmp(int_cmp(a.priority as int, b.priority as int), by_id)
        } else {
            by_id
        },
    }
}

/// The key of an operation as its accessors report it.
pub open spec fn spec_key_of<O: PendingOperation>(op: &O) -> OperationKey {
    OperationKey {
        next_attempt_after: op.spec_next_attempt_after(),
        origin_domain_id: op.spec_origin_domain_id(),
        priority: op.spec_priority(),
        id: op.spec_id(),
    }
}

/// Whether, among those of three operations that are eligible now, the
/// origins are either all the same or all different.
pub open spec fn origins_uniform(a: OperationKey, b: OperationKey, c: OperationKey) -> bool {
    let ready_ab = a.next_attempt_after is None && b.next_attempt_after is None;
    let ready_bc = b.next_attempt_after is None && c.next_attempt_after is None;
    let ready_ac = a.next_attempt_after is None && c.next_attempt_after is None;
    let same_ab = a.origin_domain_id == b.origin_domain_id;
    let same_bc = b.origin_domain_id == c.origin_domain_id;
    let same_ac = a.origin_domain_id == c.origin_domain_id;
    !(ready_ab && ready_bc && ready_ac) || (same_ab && same_bc) || (!same_ab && !same_bc && !same_ac)
}

impl OperationKey {
    /// Compares two operations by the scheduling order.
    pub fn compare(&self, other: &OperationKey) -> (r: Ordering)
        ensures
            r == key_cmp(*self, *other),
    {
        match (self.next_attempt_after, other.next_attempt_after) {
            (Some(a), Some(b)) => {
                if a < b {
                    Ordering::Less
                } else if a > b {
                    Ordering::Greater
                } else {
                    self.id.compare(&other.id)
                }
            },
            (None, Some(_)) => Ordering::Less,
            (Some(_), None) => Ordering::Greater,
            (None, None) => {
                if self.origin_domain_id == other.origin_domain_id {
                    if self.priority < other.priority {
                        Ordering::Less
                    } else if self.priority > other.priority {
                        Ordering::Greater
                    } else {
                        self.id.compare(&other.id)
                    }
                } else {
                    self.id.compare(&other.id)
                }
            },
        }
    }
}

/// The key of an operation.
pub fn key_of<O: PendingOperation>(op: &O) -> (r: OperationKey)
    ensures
        r == spec_key_of(op),
{
    OperationKey {
        next_attempt_after: op.next_attempt_after(),
        origin_domain_id: op.origin_domain_id(),
        priority: op.priority(),
        id: op.id(),
    }
}

/// Compares two operations by the scheduling order.
pub fn compare_operations<O: PendingOperation>(a: &O, b: &O) -> (r: Ordering)
    ensures
        r == key_cmp(spec_key_of(a), spec_key_of(b)),
{
    key_of(a).compare(&key_of(b))
}

/// Operations with the same identifier are the same operation.
pub fn same_operation<O: PendingOperation>(a: &O, b: &O) -> (r: bool)
    ensures
        r == (a.spec_id() == b.spec_id()),
{
    let x = a.id();
    let y = b.id();
    proof {
        lemma_lex_cmp_equal(x.view_bytes(), y.view_bytes());
        if x.view_bytes() == y.view_bytes() {
            H256::lemma_view_bytes_injective(x, y);
        }
    }
    match x.compare(&y) {
        Ordering::Equal => true,
        _ => false,
    }
}

/// Every operation compares equal to itself.
pub proof fn lemma_order_reflexive(a: OperationKey)
    ensures
        key_cmp(a, a) == Ordering::Equal,
{
    lemma_lex_cmp_equal(a.id.view_bytes(), a.id.view_bytes());
}

/// Swapping two operations reverses their order.
pub proof fn lemma_order_antisymmetric(a: OperationKey, b: OperationKey)
    ensures
        (key_cmp(a, b) == Ordering::Less) <==> (key_cmp(b, a) == Ordering::Greater),
        (key_cmp(a, b) == Ordering::Equal) <==> (key_cmp(b, a) == Ordering::Equal),
{
    lemma_lex_cmp_antisymmetric(a.id.view_bytes(), b.id.view_bytes());
    lemma_lex_cmp_antisymmetric(b.id.view_bytes(), a.id.view_bytes());
    lemma_lex_cmp_equal(a.id.view_bytes(), b.id.view_bytes());
    lemma_lex_cmp_equal(b.id.view_bytes(), a.id.view_bytes());
}

/// The order is transitive among operations whose ready members share one
/// origin or all have different origins. (When two of three ready
/// operations share an origin and the third does not, priority and
/// identifier can disagree and form a cycle.)
pub proof fn lemma_order_transitive(a: OperationKey, b: OperationKey, c: OperationKey)
    requires
        origins_uniform(a, b, c),
        key_cmp(a, b) == Ordering::Less,
        key_cmp(b, c) == Ordering::Less,
    ensures
        key_cmp(a, c) == Ordering::Less,
{
    let (x, y, z) = (a.id.view_bytes(), b.id.view_bytes(), c.id.view_bytes());
    lemma_lex_cmp_equal(x, y);
    lemma_lex_cmp_equal(y, z);
    lemma_lex_cmp_equal(x, z);
    if lex_cmp(x, y) == Ordering::Less && lex_cmp(y, z) == Ordering::Less {
        lemma_lex_cmp_transitive(x, y, z);
    }
}

/// Two operations compare equal only when they have the same identifier.
pub proof fn lemma_order_equal_means_same_id(a: OperationKey, b: OperationKey)
    requires
        key_cmp(a, b) == Ordering::Equal,
    ensures
        a.id == b.id,
{
    lemma_lex_cmp_equal(a.id.view_bytes(), b.id.view_bytes());
    H256::lemma_view_bytes_injective(a.id, b.id);
}

/// Two operations with different identifiers are strictly ordered one way
/// or the other.
pub proof fn lemma_order_strict(a: OperationKey, b: OperationKey)
    requires
        a.id != b.id,
    ensures
        key_cmp(a, b) != Ordering::Equal,
        (key_cmp(a, b) == Ordering::Less) != (key_cmp(b, a) == Ordering::Less),
{
    if key_cmp(a, b) == Ordering::Equal {
        lemma_order_equal_means_same_id(a, b);
    }
    lemma_order_antisymmetric(a, b);
    if key_cmp(b, a) == Ordering::Equal {
        lemma_order_equal_means_same_id(b, a);
    }
}

/// An operation eligible now comes before one scheduled for any instant.
pub proof fn lemma_ready_first(a: OperationKey, b: OperationKey)
    requires
        a.next_attempt_after is None,
        b.next_attempt_after is Some,
    ensures
        key_cmp(a, b) == Ordering::Less,
{
}

/// Of two operations eligible now from the same origin, the one with the
/// lower priority value comes first, whatever their identifiers.
pub proof fn lemma_same_origin_by_priority(a: OperationKey, b: OperationKey)
    requires
        a.next_attempt_after is None,
        b.next_attempt_after is None,
        a.origin_domain_id == b.origin_domain_id,
        a.priority < b.priority,
    ensures
        key_cmp(a, b) == Ordering::Less,
{
}

} // verus!
