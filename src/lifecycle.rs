//! How the result of a lifecycle call moves an operation on.
//!
//! The status of an operation changes only through these transitions: a
//! lifecycle call returns a [`PendingOperationResult`], and the driver
//! applies it here and then does what the returned [`NextAction`] says.

use vstd::prelude::*;
use crate::operation::{same_identity, PendingOperation};
use crate::status::{ConfirmReason, PendingOperationResult, PendingOperationStatus};

verus! {

/// The lifecycle call whose result is being applied.
#[derive(Clone, Copy, Debug, PartialEq, Eq, Structural)]
pub enum LifecycleStep {
    /// `prepare` returned the result.
    Prepare,
    /// `confirm` returned the result.
    Confirm,
}

/// What the driver does with the operation next.
#[derive(Clone, Copy, Debug, PartialEq, Eq, Structural)]
pub enum NextAction {
    /// Call `submit`.
    Submit,
    /// Call `prepare` again, from scratch.
    Prepare,
    /// Call `confirm`, without submitting.
    Confirm,
    /// Repeat the same call once the operation's next attempt time is due.
    RetryLater,
    /// Discard the operation.
    Drop,
    /// Delivery is complete; remove the operation.
    Delivered,
}

/// The status after `result` was returned by `step` in status `status`.
pub open spec fn next_status(
    status: PendingOperationStatus,
    step: LifecycleStep,
    result: PendingOperationResult,
) -> PendingOperationStatus {
    match result {
        PendingOperationResult::Success => match step {
            LifecycleStep::Prepare => PendingOperationStatus::ReadyToSubmit,
            LifecycleStep::Confirm => status,
        },
        PendingOperationResult::NotReady => status,
        PendingOperationResult::Reprepare(reason) => PendingOperationStatus::Retry(reason),
        PendingOperationResult::Drop => status,
        PendingOperationResult::Confirm(reason) => PendingOperationStatus::Confirm(reason),
    }
}

/// What the driver does after `result` was returned by `step`.
pub open spec fn next_action(step: LifecycleStep, result: PendingOperationResult) -> NextAction {
    match result {
        PendingOperationResult::Success => match step {
            LifecycleStep::Prepare => NextAction::Submit,
            LifecycleStep::Confirm => NextAction::Delivered,
        },
        PendingOperationResult::NotReady => NextAction::RetryLater,
        PendingOperationResult::Reprepare(_) => NextAction::Prepare,
        PendingOperationResult::Drop => NextAction::Drop,
        PendingOperationResult::Confirm(_) => NextAction::Confirm,
    }
}

/// The status and next action after `result` was returned by `step` in
/// status `status`.
pub fn transition(
    status: PendingOperationStatus,
    step: LifecycleStep,
    result: PendingOperationResult,
) -> (r: (PendingOperationStatus, NextAction))
    ensures
        r.0 == next_status(status, step, result),
        r.1 == next_action(step, result),
{
    match result {
        PendingOperationResult::Success => match step {
            LifecycleStep::Prepare => (PendingOperationStatus::ReadyToSubmit, NextAction::Submit),
            LifecycleStep::Confirm => (status, NextAction::Delivered),
        },
        PendingOperationResult::NotReady => (status, NextAction::RetryLater),
        PendingOperationResult::Reprepare(reason) => (PendingOperationStatus::Retry(reason), NextAction::Prepare),
        PendingOperationResult::Drop => (status, NextAction::Drop),
        PendingOperationResult::Confirm(reason) => (PendingOperationStatus::Confirm(reason), NextAction::Confirm),
    }
}

/// Applies the result of a lifecycle call to the operation: sets its
/// status, and on a reprepare resets its attempts so that it can be prepared
/// again at once. Returns what the driver does next.
pub fn apply_result<O: PendingOperation>(
    op: &mut O,
    step: LifecycleStep,
    result: PendingOperationResult,
) -> (r: NextAction)
    ensures
        r == next_action(step, result),
        final(op).spec_status() == next_status(old(op).spec_status(), step, result),
        same_identity(&*old(op), &*final(op)),
        result is Reprepare ==> final(op).spec_next_attempt_after() is None,
{
    let (status, action) = transition(op.status(), step, result);
    op.set_status(status);
    if let PendingOperationResult::Reprepare(_) = result {
        op.reset_attempts();
    }
    action
}

/// Records that the operation was submitted by this relayer: its status
/// becomes `Confirm(SubmittedBySelf)`, and the driver calls `confirm` next.
pub fn mark_submitted<O: PendingOperation>(op: &mut O) -> (r: NextAction)
    ensures
        r == NextAction::Confirm,
        final(op).spec_status() == PendingOperationStatus::Confirm(ConfirmReason::SubmittedBySelf),
        same_identity(&*old(op), &*final(op)),
{
    op.set_status(PendingOperationStatus::Confirm(ConfirmReason::SubmittedBySelf));
    NextAction::Confirm
}

} // verus!
