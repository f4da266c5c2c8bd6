use pending_operation::h256::H256;
use pending_operation::lifecycle::{apply_result, mark_submitted, transition, LifecycleStep, NextAction};
use pending_operation::operation::{get_operation_labels, OperationRecord, PendingOperation, TxOutcome};
use pending_operation::u256::U256;
use pending_operation::status::{
    ConfirmReason, PendingOperationResult, PendingOperationStatus, ReprepareReason,
};

fn op() -> OperationRecord {
    OperationRecord::new(H256::from_bytes([7u8; 32]), 4, 1, "arbitrum".to_string(), Some("app".to_string()))
}

#[test]
fn lifecycle_happy_path() {
    let mut o = op();
    assert_eq!(o.status(), PendingOperationStatus::FirstPrepareAttempt);
    let a = apply_result(&mut o, LifecycleStep::Prepare, PendingOperationResult::Success);
    assert_eq!(a, NextAction::Submit);
    assert_eq!(o.status(), PendingOperationStatus::ReadyToSubmit);
    let a = mark_submitted(&mut o);
    assert_eq!(a, NextAction::Confirm);
    assert_eq!(o.status(), PendingOperationStatus::Confirm(ConfirmReason::SubmittedBySelf));
    let a = apply_result(&mut o, LifecycleStep::Confirm, PendingOperationResult::Success);
    assert_eq!(a, NextAction::Delivered);
}

#[test]
fn reprepare_loop() {
    let mut o = op();
    o.set_next_attempt_after(100, 50);
    assert_eq!(o.num_attempts(), 1);
    let reason = ReprepareReason::ErrorEstimatingGas;
    let a = apply_result(&mut o, LifecycleStep::Prepare, PendingOperationResult::Reprepare(reason));
    assert_eq!(a, NextAction::Prepare);
    assert_eq!(o.status(), PendingOperationStatus::Retry(reason));
    assert_eq!(o.next_attempt_after(), None);
    assert_eq!(o.num_attempts(), 0);
    let a = apply_result(&mut o, LifecycleStep::Prepare, PendingOperationResult::Success);
    assert_eq!(a, NextAction::Submit);
    assert_eq!(o.status(), PendingOperationStatus::ReadyToSubmit);
}

#[test]
fn direct_to_confirm() {
    let mut o = op();
    let c = ConfirmReason::AlreadySubmitted;
    let a = apply_result(&mut o, LifecycleStep::Prepare, PendingOperationResult::Confirm(c));
    assert_eq!(a, NextAction::Confirm);
    assert_eq!(o.status(), PendingOperationStatus::Confirm(c));
}

#[test]
fn confirm_reprepare_restarts() {
    let mut o = op();
    o.set_status(PendingOperationStatus::Confirm(ConfirmReason::SubmittedBySelf));
    let r = ReprepareReason::RevertedOrReorged;
    let a = apply_result(&mut o, LifecycleStep::Confirm, PendingOperationResult::Reprepare(r));
    assert_eq!(a, NextAction::Prepare);
    assert_eq!(o.status(), PendingOperationStatus::Retry(r));
}

#[test]
fn not_ready_and_drop_keep_status() {
    let s = PendingOperationStatus::Retry(ReprepareReason::ErrorBuildingMetadata);
    assert_eq!(
        transition(s, LifecycleStep::Prepare, PendingOperationResult::NotReady),
        (s, NextAction::RetryLater)
    );
    assert_eq!(
        transition(s, LifecycleStep::Prepare, PendingOperationResult::Drop),
        (s, NextAction::Drop)
    );
}

#[test]
fn next_attempt_saturates() {
    let mut o = op();
    o.set_next_attempt_after(u64::MAX - 1, 10);
    assert_eq!(o.next_attempt_after(), Some(u64::MAX));
}

#[test]
fn labels_default_to_unknown() {
    let o = op();
    assert_eq!(get_operation_labels(&o), ("arbitrum".to_string(), "app".to_string()));
    let p = OperationRecord::new(H256::from_bytes([0u8; 32]), 0, 2, "base".to_string(), None);
    assert_eq!(get_operation_labels(&p), ("base".to_string(), "Unknown".to_string()));
}

#[test]
fn outcomes_are_recorded() {
    let mut o = op();
    assert_eq!(o.submission_outcome(), None);
    assert_eq!(o.operation_outcome(), None);
    let out = TxOutcome { executed: true, gas_used: U256::from_u64(21000) };
    o.set_submission_outcome(out);
    assert_eq!(o.submission_outcome(), Some(out));
    o.set_operation_outcome(out, U256::from_u64(30000));
    assert_eq!(o.operation_outcome(), Some((out, U256::from_u64(30000))));
    assert_eq!(o.status(), PendingOperationStatus::FirstPrepareAttempt);
}
