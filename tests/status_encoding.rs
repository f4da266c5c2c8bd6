use pending_operation::status::{
    ConfirmReason, DecodeError, PendingOperationStatus, ReprepareReason,
};

fn every_status() -> Vec<PendingOperationStatus> {
    let mut v = vec![
        PendingOperationStatus::FirstPrepareAttempt,
        PendingOperationStatus::ReadyToSubmit,
    ];
    for r in [
        ReprepareReason::ErrorCheckingDeliveryStatus,
        ReprepareReason::ErrorCheckingIfRecipientIsContract,
        ReprepareReason::ErrorFetchingIsmAddress,
        ReprepareReason::ErrorGettingMetadataBuilder,
        ReprepareReason::ErrorBuildingMetadata,
        ReprepareReason::CouldNotFetchMetadata,
        ReprepareReason::ErrorEstimatingGas,
        ReprepareReason::ErrorCheckingGasRequirement,
        ReprepareReason::GasPaymentRequirementNotMet,
        ReprepareReason::ExceedsMaxGasLimit,
        ReprepareReason::RevertedOrReorged,
    ] {
        v.push(PendingOperationStatus::Retry(r));
    }
    for c in [
        ConfirmReason::SubmittedBySelf,
        ConfirmReason::AlreadySubmitted,
        ConfirmReason::ErrorConfirmingDelivery,
        ConfirmReason::ErrorRecordingProcessSuccess,
    ] {
        v.push(PendingOperationStatus::Confirm(c));
    }
    v
}

#[test]
fn test_encoding_pending_operation_status() {
    let status = PendingOperationStatus::Retry(ReprepareReason::CouldNotFetchMetadata);
    let encoded = status.to_vec();
    let decoded = PendingOperationStatus::read_from(&encoded[..]).unwrap();
    assert_eq!(status, decoded);
}

#[test]
fn every_status_round_trips() {
    let all = every_status();
    assert_eq!(all.len(), 17);
    for s in all {
        let encoded = s.to_vec();
        assert_eq!(PendingOperationStatus::read_from(&encoded), Ok(s));
    }
}

#[test]
fn encodings_are_distinct() {
    let all = every_status();
    for (i, a) in all.iter().enumerate() {
        for (j, b) in all.iter().enumerate() {
            if i != j {
                assert_ne!(a.to_vec(), b.to_vec());
            }
        }
    }
}

#[test]
fn encoding_is_json_text() {
    assert_eq!(
        PendingOperationStatus::ReadyToSubmit.to_vec(),
        b"\"ReadyToSubmit\"".to_vec()
    );
    assert_eq!(
        PendingOperationStatus::FirstPrepareAttempt.to_json(),
        "\"FirstPrepareAttempt\""
    );
    assert_eq!(
        PendingOperationStatus::Retry(ReprepareReason::ErrorEstimatingGas).to_vec(),
        b"{\"Retry\":\"ErrorEstimatingGas\"}".to_vec()
    );
    assert_eq!(
        PendingOperationStatus::Confirm(ConfirmReason::AlreadySubmitted).to_json(),
        "{\"Confirm\":\"AlreadySubmitted\"}"
    );
}

#[test]
fn encoding_matches_serde_json_values() {
    let unit = serde_json::Value::String("ReadyToSubmit".to_string());
    assert_eq!(
        PendingOperationStatus::ReadyToSubmit.to_vec(),
        serde_json::to_vec(&unit).unwrap()
    );
    let mut map = serde_json::Map::new();
    map.insert(
        "Retry".to_string(),
        serde_json::Value::String("RevertedOrReorged".to_string()),
    );
    let object = serde_json::Value::Object(map);
    assert_eq!(
        PendingOperationStatus::Retry(ReprepareReason::RevertedOrReorged).to_vec(),
        serde_json::to_vec(&object).unwrap()
    );
}

#[test]
fn malformed_bytes_are_refused() {
    let cases: Vec<&[u8]> = vec![
        b"",
        b"\"Bogus\"",
        b"ReadyToSubmit",
        b"{\"Retry\":\"NotAReason\"}",
        b"{\"Confirm\":\"ErrorEstimatingGas\"}",
        b"{\"Retry\":\"ErrorEstimatingGas\"",
        b"\"ReadyToSubmit\" ",
        &[0xff, 0xfe],
    ];
    for c in cases {
        assert_eq!(
            PendingOperationStatus::read_from(c),
            Err(DecodeError::Malformed)
        );
    }
}

#[test]
fn status_display_strings() {
    assert_eq!(
        PendingOperationStatus::Retry(ReprepareReason::ErrorEstimatingGas).to_string(),
        "Retry(Error estimating costs for process call)"
    );
    assert_eq!(
        PendingOperationStatus::Confirm(ConfirmReason::SubmittedBySelf).to_string(),
        "Confirm(Submitted by this relayer)"
    );
    assert_eq!(
        PendingOperationStatus::Confirm(ConfirmReason::ErrorConfirmingDelivery).to_string(),
        "Confirm(ErrorConfirmingDelivery)"
    );
    assert_eq!(PendingOperationStatus::ReadyToSubmit.to_string(), "ReadyToSubmit");
    assert_eq!(
        PendingOperationStatus::FirstPrepareAttempt.to_string(),
        "FirstPrepareAttempt"
    );
}

#[test]
fn reason_display_strings() {
    assert_eq!(
        ReprepareReason::ExceedsMaxGasLimit.to_string(),
        "Message delivery estimated gas exceeds max gas limit"
    );
    assert_eq!(
        ReprepareReason::ErrorCheckingIfRecipientIsContract.to_string(),
        "Error checking if message recipient is a contract"
    );
    assert_eq!(
        ConfirmReason::AlreadySubmitted.to_string(),
        "Already submitted, awaiting confirmation"
    );
    assert_eq!(
        ConfirmReason::ErrorRecordingProcessSuccess.to_string(),
        "ErrorRecordingProcessSuccess"
    );
}
