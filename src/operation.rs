//! The operation contract, a plain operation record that fulfils it, and
//! the transitions that lifecycle results drive.
//!
//! Time is counted in milliseconds on the driver's clock; the driver reads
//! that clock and hands the current reading in.

use vstd::prelude::*;
use crate::h256::H256;
use crate::status::{ConfirmReason, PendingOperationResult, PendingOperationStatus};
use crate::u256::U256;

verus! {

/// Label used for operations without an application context.
pub open spec fn unknown_label() -> Seq<char> {
    "Unknown"@
}

/// The metrics label for an application context.
pub open spec fn label_of(app_context: Option<Seq<char>>) -> Seq<char> {
    match app_context {
        Some(c) => c,
        None => unknown_label(),
    }
}

/// The realized result of a submitted transaction.
#[derive(Clone, Copy, Debug, PartialEq, Eq)]
pub struct TxOutcome {
    /// Whether the transaction executed successfully.
    pub executed: bool,
    /// The gas the transaction used.
    pub gas_used: U256,
}

/// `now + delay`, or the largest instant where that does not fit.
pub open spec fn instant_after(now: u64, delay: u64) -> u64 {
    if now + delay <= u64::MAX {
        (now + delay) as u64
    } else {
        u64::MAX
    }
}

/// Whether `b` has the same identity, routing and labels as `a`: what no
/// lifecycle step changes.
pub open spec fn same_identity<O: PendingOperation>(a: &O, b: &O) -> bool {
    &&& b.spec_id() == a.spec_id()
    &&& b.spec_priority() == a.spec_priority()
    &&& b.spec_origin_domain_id() == a.spec_origin_domain_id()
    &&& b.spec_destination_domain() == a.spec_destination_domain()
    &&& b.spec_app_context() == a.spec_app_context()
}

/// An operation keeps its metrics labels through every step that keeps its
/// identity, as status changes, rescheduling and outcome records do.
pub proof fn lemma_labels_stable<O: PendingOperation>(a: &O, b: &O)
    requires
        same_identity(a, b),
    ensures
        b.spec_destination_domain() == a.spec_destination_domain(),
        label_of(b.spec_app_context()) == label_of(a.spec_app_context()),
{
}

/// A pending operation that will be run by the submitter and cause a
/// transaction to be sent.
///
/// Its lifecycle has three stages: prepare (check that it is still
/// deliverable and build what submission needs), submit (send the
/// transaction), and confirm (check that it is safe from reorgs). The
/// lifecycle calls suspend and are driven from outside this library; their
/// results go through [`apply_result`].
pub trait PendingOperation: Sized {
    /// The unique identifier.
    spec fn spec_id(&self) -> H256;

    /// The priority; lower is more urgent.
    spec fn spec_priority(&self) -> u32;

    /// The domain the operation originates from.
    spec fn spec_origin_domain_id(&self) -> u32;

    /// The name of the destination domain.
    spec fn spec_destination_domain(&self) -> Seq<char>;

    /// The application context, if any.
    spec fn spec_app_context(&self) -> Option<Seq<char>>;

    /// The current status.
    spec fn spec_status(&self) -> PendingOperationStatus;

    /// The earliest instant of the next attempt; `None` when eligible now.
    spec fn spec_next_attempt_after(&self) -> Option<u64>;

    /// The estimated cost of submission; `None` when unknown.
    spec fn spec_tx_cost_estimate(&self) -> Option<U256>;

    /// The outcome of the `submit` call, once recorded.
    spec fn spec_submission_outcome(&self) -> Option<TxOutcome>;

    /// The outcome of the operation and the estimated cost of its
    /// submission, once recorded.
    spec fn spec_operation_outcome(&self) -> Option<(TxOutcome, U256)>;


    /// Get the unique identifier for this operation.
    fn id(&self) -> (r: H256)
        ensures
            r == self.spec_id(),
    ;

    /// A lower value means a higher priority, such as the message nonce.
    /// Only used to order operations when neither has a next attempt time.
    fn priority(&self) -> (r: u32)
        ensures
            r == self.spec_priority(),
    ;

    /// The domain this originates from.
    fn origin_domain_id(&self) -> (r: u32)
        ensures
            r == self.spec_origin_domain_id(),
    ;

    /// The name of the domain this operation will take place on.
    fn destination_domain(&self) -> (r: String)
        ensures
            r@ == self.spec_destination_domain(),
    ;

    /// Label to use for metrics granularity.
    fn app_context(&self) -> (r: Option<String>)
        ensures
            match r {
                Some(c) => self.spec_app_context() == Some(c@),
                None => self.spec_app_context() is None,
            },
    ;

    /// The status of the operation, which explains why it is in the queue.
    fn status(&self) -> (r: PendingOperationStatus)
        ensures
            r == self.spec_status(),
    ;

    /// Set the status of the operation.
    fn set_status(&mut self, status: PendingOperationStatus)
        ensures
            final(self).spec_status() == status,
            final(self).spec_id() == old(self).spec_id(),
            final(self).spec_priority() == old(self).spec_priority(),
            final(self).spec_origin_domain_id() == old(self).spec_origin_domain_id(),
            final(self).spec_destination_domain() == old(self).spec_destination_domain(),
            final(self).spec_app_context() == old(self).spec_app_context(),
            final(self).spec_next_attempt_after() == old(self).spec_next_attempt_after(),
            final(self).spec_tx_cost_estimate() == old(self).spec_tx_cost_estimate(),
    ;

    /// Set the outcome of the `submit` call.
    fn set_submission_outcome(&mut self, outcome: TxOutcome)
        ensures
            final(self).spec_submission_outcome() == Some(outcome),
            final(self).spec_status() == old(self).spec_status(),
            final(self).spec_id() == old(self).spec_id(),
            final(self).spec_priority() == old(self).spec_priority(),
            final(self).spec_origin_domain_id() == old(self).spec_origin_domain_id(),
            final(self).spec_destination_domain() == old(self).spec_destination_domain(),
            final(self).spec_app_context() == old(self).spec_app_context(),
    ;

    /// Get the estimated cost of the `submit` call.
    fn get_tx_cost_estimate(&self) -> (r: Option<U256>)
        ensures
            r == self.spec_tx_cost_estimate(),
    ;

    /// Record the outcome of the operation.
    fn set_operation_outcome(&mut self, submission_outcome: TxOutcome, submission_estimated_cost: U256)
        ensures
            final(self).spec_operation_outcome() == Some((submission_outcome, submission_estimated_cost)),
            final(self).spec_status() == old(self).spec_status(),
            final(self).spec_id() == old(self).spec_id(),
            final(self).spec_priority() == old(self).spec_priority(),
            final(self).spec_origin_domain_id() == old(self).spec_origin_domain_id(),
            final(self).spec_destination_domain() == old(self).spec_destination_domain(),
            final(self).spec_app_context() == old(self).spec_app_context(),
    ;

    /// The earliest instant at which this should next be attempted. Only used
    /// for ordering.
    fn next_attempt_after(&self) -> (r: Option<u64>)
        ensures
            r == self.spec_next_attempt_after(),
    ;

    /// Set the next attempt to `delay` milliseconds after `now`.
    fn set_next_attempt_after(&mut self, now: u64, delay: u64)
        ensures
            final(self).spec_next_attempt_after() == Some(instant_after(now, delay)),
            final(self).spec_status() == old(self).spec_status(),
            final(self).spec_id() == old(self).spec_id(),
            final(self).spec_priority() == old(self).spec_priority(),
            final(self).spec_origin_domain_id() == old(self).spec_origin_domain_id(),
            final(self).spec_destination_domain() == old(self).spec_destination_domain(),
            final(self).spec_app_context() == old(self).spec_app_context(),
    ;

    /// Reset the number of attempts this operation has made, causing it to be
    /// retried immediately.
    fn reset_attempts(&mut self)
        ensures
            final(self).spec_next_attempt_after() is None,
            final(self).spec_status() == old(self).spec_status(),
            final(self).spec_id() == old(self).spec_id(),
            final(self).spec_priority() == old(self).spec_priority(),
            final(self).spec_origin_domain_id() == old(self).spec_origin_domain_id(),
            final(self).spec_destination_domain() == old(self).spec_destination_domain(),
            final(self).spec_app_context() == old(self).spec_app_context(),
    ;
}

/// The metrics labels of an operation: its destination, and its application
/// context or `"Unknown"`.
pub fn get_operation_labels<O: PendingOperation>(op: &O) -> (r: (String, String))
    ensures
        r.0@ == op.spec_destination_domain(),
        r.1@ == label_of(op.spec_app_context()),
{
    let destination = op.destination_domain();
    let app_context = match op.app_context() {
        Some(c) => c,
        None => String::from_str("Unknown"),
    };
    (destination, app_context)
}

/// A plain operation: the data of one undelivered message, with the
/// synchronous part of the operation contract.
#[derive(Clone, Debug)]
pub struct OperationRecord {
    id: H256,
    priority: u32,
    origin_domain_id: u32,
    destination_domain: String,
    app_context: Option<String>,
    status: PendingOperationStatus,
    next_attempt_after: Option<u64>,
    tx_cost_estimate: Option<U256>,
    num_attempts: u32,
    submission_outcome: Option<TxOutcome>,
    operation_outcome: Option<(TxOutcome, U256)>,
}

impl OperationRecord {
    /// A new operation, in status `FirstPrepareAttempt`, eligible now, with
    /// no cost estimate and no outcome.
    pub fn new(
        id: H256,
        priority: u32,
        origin_domain_id: u32,
        destination_domain: String,
        app_context: Option<String>,
    ) -> (r: OperationRecord)
        ensures
            r.spec_id() == id,
            r.spec_priority() == priority,
            r.spec_origin_domain_id() == origin_domain_id,
            r.spec_destination_domain() == destination_domain@,
            r.spec_app_context() == (match app_context {
                Some(c) => Some(c@),
                None => None,
            }),
            r.spec_status() == PendingOperationStatus::FirstPrepareAttempt,
            r.spec_next_attempt_after() is None,
            r.spec_tx_cost_estimate() is None,
            r.spec_submission_outcome() is None,
            r.spec_operation_outcome() is None,
            r.spec_num_attempts() == 0,
    {
        OperationRecord {
            id,
            priority,
            origin_domain_id,
            destination_domain,
            app_context,
            status: PendingOperationStatus::FirstPrepareAttempt,
            next_attempt_after: None,
            tx_cost_estimate: None,
            num_attempts: 0,
            submission_outcome: None,
            operation_outcome: None,
        }
    }

    /// How many attempts have been scheduled since the last reset.
    pub closed spec fn spec_num_attempts(&self) -> nat {
        self.num_attempts as nat
    }

    /// Set the estimated cost of submission.
    pub fn set_tx_cost_estimate(&mut self, estimate: Option<U256>)
        ensures
            final(self).spec_tx_cost_estimate() == estimate,
            final(self).spec_status() == old(self).spec_status(),
            same_identity(&*old(self), &*final(self)),
            final(self).spec_next_attempt_after() == old(self).spec_next_attempt_after(),
    {
        self.tx_cost_estimate = estimate;
    }

    /// How many attempts have been scheduled since the last reset.
    pub fn num_attempts(&self) -> (r: u32)
        ensures
            r as nat == self.spec_num_attempts(),
    {
        self.num_attempts
    }

    /// The outcome of the `submit` call, once recorded.
    pub fn submission_outcome(&self) -> (r: Option<TxOutcome>)
        ensures
            r == self.spec_submission_outcome(),
    {
        self.submission_outcome
    }

    /// The outcome of the operation and the estimated cost of its
    /// submission, once recorded.
    pub fn operation_outcome(&self) -> (r: Option<(TxOutcome, U256)>)
        ensures
            r == self.spec_operation_outcome(),
    {
        self.operation_outcome
    }
}

impl PendingOperation for OperationRecord {
    closed spec fn spec_id(&self) -> H256 {
        self.id
    }

    closed spec fn spec_priority(&self) -> u32 {
        self.priority
    }

    closed spec fn spec_origin_domain_id(&self) -> u32 {
        self.origin_domain_id
    }

    closed spec fn spec_destination_domain(&self) -> Seq<char> {
        self.destination_domain@
    }

    closed spec fn spec_app_context(&self) -> Option<Seq<char>> {
        match self.app_context {
            Some(c) => Some(c@),
            None => None,
        }
    }

    closed spec fn spec_status(&self) -> PendingOperationStatus {
        self.status
    }

    closed spec fn spec_next_attempt_after(&self) -> Option<u64> {
        self.next_attempt_after
    }

    closed spec fn spec_tx_cost_estimate(&self) -> Option<U256> {
        self.tx_cost_estimate
    }

    closed spec fn spec_submission_outcome(&self) -> Option<TxOutcome> {
        self.submission_outcome
    }

    closed spec fn spec_operation_outcome(&self) -> Option<(TxOutcome, U256)> {
        self.operation_outcome
    }

    fn id(&self) -> (r: H256) {
        self.id
    }

    fn priority(&self) -> (r: u32) {
        self.priority
    }

    fn origin_domain_id(&self) -> (r: u32) {
        self.origin_domain_id
    }

    fn destination_domain(&self) -> (r: String) {
        self.destination_domain.clone()
    }

    fn app_context(&self) -> (r: Option<String>) {
        match &self.app_context {
            Some(c) => Some(c.clone()),
            None => None,
        }
    }

    fn status(&self) -> (r: PendingOperationStatus) {
        self.status
    }

    fn set_status(&mut self, status: PendingOperationStatus) {
        self.status = status;
    }

    fn set_submission_outcome(&mut self, outcome: TxOutcome) {
        self.submission_outcome = Some(outcome);
    }

    fn get_tx_cost_estimate(&self) -> (r: Option<U256>) {
        self.tx_cost_estimate
    }

    fn set_operation_outcome(&mut self, submission_outcome: TxOutcome, submission_estimated_cost: U256) {
        self.operation_outcome = Some((submission_outcome, submission_estimated_cost));
    }

    fn next_attempt_after(&self) -> (r: Option<u64>) {
        self.next_attempt_after
    }

    fn set_next_attempt_after(&mut self, now: u64, delay: u64) {
        self.next_attempt_after = Some(now.saturating_add(delay));
        self.num_attempts = self.num_attempts.saturating_add(1);
    }

    fn reset_attempts(&mut self) {
        self.next_attempt_after = None;
        self.num_attempts = 0;
    }
}

} // verus!
