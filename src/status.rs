//! Status of a queued operation, the reasons that explain it, the result
//! vocabulary of the lifecycle calls, and the byte encoding under which a
//! status is persisted.
//!
//! A status is stored as the UTF-8 text of a JSON value: a unit status as a
//! string (`"ReadyToSubmit"`), a status with a reason as a one-entry object
//! (`{"Retry":"ErrorEstimatingGas"}`). Decoding accepts exactly the bytes
//! that encoding produces and rejects everything else.

use vstd::prelude::*;
use vstd::string::*;
use vstd::utf8::*;

verus! {

broadcast use vstd::string::group_string_axioms;

/// Reasons for repreparing an operation.
#[derive(Clone, Copy, Debug, PartialEq, Eq, Structural)]
pub enum ReprepareReason {
    /// Error checking message delivery status
    ErrorCheckingDeliveryStatus,
    /// Error checking if message recipient is a contract
    ErrorCheckingIfRecipientIsContract,
    /// Error fetching ISM address
    ErrorFetchingIsmAddress,
    /// Error getting message metadata builder
    ErrorGettingMetadataBuilder,
    /// Error building metadata
    ErrorBuildingMetadata,
    /// Could not fetch metadata
    CouldNotFetchMetadata,
    /// Error estimating costs for process call
    ErrorEstimatingGas,
    /// Error checking if message meets gas payment requirement
    ErrorCheckingGasRequirement,
    /// Gas payment requirement not met
    GasPaymentRequirementNotMet,
    /// Message delivery estimated gas exceeds max gas limit
    ExceedsMaxGasLimit,
    /// Delivery transaction reverted or reorged
    RevertedOrReorged,
}

/// Reasons for sending an operation to confirmation.
#[derive(Clone, Copy, Debug, PartialEq, Eq, Structural)]
pub enum ConfirmReason {
    /// Submitted by this relayer
    SubmittedBySelf,
    /// Already submitted, awaiting confirmation
    AlreadySubmitted,
    /// Error confirming delivery
    ErrorConfirmingDelivery,
    /// Error storing delivery outcome
    ErrorRecordingProcessSuccess,
}

/// Status of a pending operation.
#[derive(Clone, Copy, Debug, PartialEq, Eq, Structural)]
pub enum PendingOperationStatus {
    /// The operation is ready to be prepared for the first time, or has just
    /// been loaded from storage.
    FirstPrepareAttempt,
    /// The operation is ready to be prepared again, with the given reason.
    Retry(ReprepareReason),
    /// The operation is ready to be submitted.
    ReadyToSubmit,
    /// The operation has been submitted and is awaiting confirmation.
    Confirm(ConfirmReason),
}

/// Possible outcomes of performing an action on a pending operation (such
/// as `prepare`, `submit` or `confirm`).
#[derive(Clone, Copy, Debug, PartialEq, Eq, Structural)]
pub enum PendingOperationResult {
    /// Promote to the next step.
    Success,
    /// This operation is not ready to be attempted again yet.
    NotReady,
    /// Operation needs to be started from scratch again.
    Reprepare(ReprepareReason),
    /// Do not attempt to run the operation again, forget about it.
    Drop,
    /// Send this operation straight to confirmation.
    Confirm(ConfirmReason),
}

/// A persisted status could not be read back.
#[derive(Clone, Copy, Debug, PartialEq, Eq, Structural)]
pub enum DecodeError {
    /// The bytes are not the encoding of any status.
    Malformed,
}

/// Identifier of a reprepare reason in the encoding.
pub open spec fn reprepare_name(r: ReprepareReason) -> Seq<char> {
    match r {
        ReprepareReason::ErrorCheckingDeliveryStatus => "ErrorCheckingDeliveryStatus"@,
        ReprepareReason::ErrorCheckingIfRecipientIsContract => "ErrorCheckingIfRecipientIsContract"@,
        ReprepareReason::ErrorFetchingIsmAddress => "ErrorFetchingIsmAddress"@,
        ReprepareReason::ErrorGettingMetadataBuilder => "ErrorGettingMetadataBuilder"@,
        ReprepareReason::ErrorBuildingMetadata => "ErrorBuildingMetadata"@,
        ReprepareReason::CouldNotFetchMetadata => "CouldNotFetchMetadata"@,
        ReprepareReason::ErrorEstimatingGas => "ErrorEstimatingGas"@,
        ReprepareReason::ErrorCheckingGasRequirement => "ErrorCheckingGasRequirement"@,
        ReprepareReason::GasPaymentRequirementNotMet => "GasPaymentRequirementNotMet"@,
        ReprepareReason::ExceedsMaxGasLimit => "ExceedsMaxGasLimit"@,
        ReprepareReason::RevertedOrReorged => "RevertedOrReorged"@,
    }
}

/// Human-readable explanation of a reprepare reason.
pub open spec fn reprepare_text(r: ReprepareReason) -> Seq<char> {
    match r {
        ReprepareReason::ErrorCheckingDeliveryStatus => "Error checking message delivery status"@,
        ReprepareReason::ErrorCheckingIfRecipientIsContract => "Error checking if message recipient is a contract"@,
        ReprepareReason::ErrorFetchingIsmAddress => "Error fetching ISM address"@,
        ReprepareReason::ErrorGettingMetadataBuilder => "Error getting message metadata builder"@,
        ReprepareReason::ErrorBuildingMetadata => "Error building metadata"@,
        ReprepareReason::CouldNotFetchMetadata => "Could not fetch metadata"@,
        ReprepareReason::ErrorEstimatingGas => "Error estimating costs for process call"@,
        ReprepareReason::ErrorCheckingGasRequirement => "Error checking if message meets gas payment requirement"@,
        ReprepareReason::GasPaymentRequirementNotMet => "Gas payment requirement not met"@,
        ReprepareReason::ExceedsMaxGasLimit => "Message delivery estimated gas exceeds max gas limit"@,
        ReprepareReason::RevertedOrReorged => "Delivery transaction reverted or reorged"@,
    }
}

/// Identifier of a confirm reason in the encoding.
pub open spec fn confirm_name(r: ConfirmReason) -> Seq<char> {
    match r {
        ConfirmReason::SubmittedBySelf => "SubmittedBySelf"@,
        ConfirmReason::AlreadySubmitted => "AlreadySubmitted"@,
        ConfirmReason::ErrorConfirmingDelivery => "ErrorConfirmingDelivery"@,
        ConfirmReason::ErrorRecordingProcessSuccess => "ErrorRecordingProcessSuccess"@,
    }
}

/// Human-readable explanation of a confirm reason.
pub open spec fn confirm_text(r: ConfirmReason) -> Seq<char> {
    match r {
        ConfirmReason::SubmittedBySelf => "Submitted by this relayer"@,
        ConfirmReason::AlreadySubmitted => "Already submitted, awaiting confirmation"@,
        ConfirmReason::ErrorConfirmingDelivery => "ErrorConfirmingDelivery"@,
        ConfirmReason::ErrorRecordingProcessSuccess => "ErrorRecordingProcessSuccess"@,
    }
}

/// Human-readable rendering of a status.
pub open spec fn status_text(s: PendingOperationStatus) -> Seq<char> {
    match s {
        PendingOperationStatus::FirstPrepareAttempt => "FirstPrepareAttempt"@,
        PendingOperationStatus::Retry(r) => "Retry("@ + reprepare_text(r) + ")"@,
        PendingOperationStatus::ReadyToSubmit => "ReadyToSubmit"@,
        PendingOperationStatus::Confirm(c) => "Confirm("@ + confirm_text(c) + ")"@,
    }
}

/// The JSON text under which a status is persisted.
pub open spec fn status_json(s: PendingOperationStatus) -> Seq<char> {
    match s {
        PendingOperationStatus::FirstPrepareAttempt => "\"FirstPrepareAttempt\""@,
        PendingOperationStatus::Retry(r) => "{\"Retry\":\""@ + reprepare_name(r) + "\"}"@,
        PendingOperationStatus::ReadyToSubmit => "\"ReadyToSubmit\""@,
        PendingOperationStatus::Confirm(c) => "{\"Confirm\":\""@ + confirm_name(c) + "\"}"@,
    }
}

/// The bytes under which a status is persisted.
pub open spec fn status_bytes(s: PendingOperationStatus) -> Seq<u8> {
    encode_utf8(status_json(s))
}

impl ReprepareReason {
    /// Identifier of the reason in the encoding.
    pub fn name(&self) -> (r: &'static str)
        ensures
            r@ == reprepare_name(*self),
    {
        match self {
            ReprepareReason::ErrorCheckingDeliveryStatus => "ErrorCheckingDeliveryStatus",
            ReprepareReason::ErrorCheckingIfRecipientIsContract => "ErrorCheckingIfRecipientIsContract",
            ReprepareReason::ErrorFetchingIsmAddress => "ErrorFetchingIsmAddress",
            ReprepareReason::ErrorGettingMetadataBuilder => "ErrorGettingMetadataBuilder",
            ReprepareReason::ErrorBuildingMetadata => "ErrorBuildingMetadata",
            ReprepareReason::CouldNotFetchMetadata => "CouldNotFetchMetadata",
            ReprepareReason::ErrorEstimatingGas => "ErrorEstimatingGas",
            ReprepareReason::ErrorCheckingGasRequirement => "ErrorCheckingGasRequirement",
            ReprepareReason::GasPaymentRequirementNotMet => "GasPaymentRequirementNotMet",
            ReprepareReason::ExceedsMaxGasLimit => "ExceedsMaxGasLimit",
            ReprepareReason::RevertedOrReorged => "RevertedOrReorged",
        }
    }

    /// Human-readable explanation of the reason.
    pub fn text(&self) -> (r: &'static str)
        ensures
            r@ == reprepare_text(*self),
    {
        match self {
            ReprepareReason::ErrorCheckingDeliveryStatus => "Error checking message delivery status",
            ReprepareReason::ErrorCheckingIfRecipientIsContract => "Error checking if message recipient is a contract",
            ReprepareReason::ErrorFetchingIsmAddress => "Error fetching ISM address",
            ReprepareReason::ErrorGettingMetadataBuilder => "Error getting message metadata builder",
            ReprepareReason::ErrorBuildingMetadata => "Error building metadata",
            ReprepareReason::CouldNotFetchMetadata => "Could not fetch metadata",
            ReprepareReason::ErrorEstimatingGas => "Error estimating costs for process call",
            ReprepareReason::ErrorCheckingGasRequirement => "Error checking if message meets gas payment requirement",
            ReprepareReason::GasPaymentRequirementNotMet => "Gas payment requirement not met",
            ReprepareReason::ExceedsMaxGasLimit => "Message delivery estimated gas exceeds max gas limit",
            ReprepareReason::RevertedOrReorged => "Delivery transaction reverted or reorged",
        }
    }

    /// Human-readable explanation of the reason.
    pub fn to_string(&self) -> (r: String)
        ensures
            r@ == reprepare_text(*self),
    {
        String::from_str(self.text())
    }
}

impl ConfirmReason {
    /// Identifier of the reason in the encoding.
    pub fn name(&self) -> (r: &'static str)
        ensures
            r@ == confirm_name(*self),
    {
        match self {
            ConfirmReason::SubmittedBySelf => "SubmittedBySelf",
            ConfirmReason::AlreadySubmitted => "AlreadySubmitted",
            ConfirmReason::ErrorConfirmingDelivery => "ErrorConfirmingDelivery",
            ConfirmReason::ErrorRecordingProcessSuccess => "ErrorRecordingProcessSuccess",
        }
    }

    /// Human-readable explanation of the reason.
    pub fn text(&self) -> (r: &'static str)
        ensures
            r@ == confirm_text(*self),
    {
        match self {
            ConfirmReason::SubmittedBySelf => "Submitted by this relayer",
            ConfirmReason::AlreadySubmitted => "Already submitted, awaiting confirmation",
            ConfirmReason::ErrorConfirmingDelivery => "ErrorConfirmingDelivery",
            ConfirmReason::ErrorRecordingProcessSuccess => "ErrorRecordingProcessSuccess",
        }
    }

    /// Human-readable explanation of the reason.
    pub fn to_string(&self) -> (r: String)
        ensures
            r@ == confirm_text(*self),
    {
        String::from_str(self.text())
    }
}

impl PendingOperationStatus {
    /// Human-readable rendering: the variant's name, with the reason's
    /// explanation in parentheses where there is one.
    pub fn to_string(&self) -> (r: String)
        ensures
            r@ == status_text(*self),
    {
        match self {
            PendingOperationStatus::FirstPrepareAttempt => String::from_str("FirstPrepareAttempt"),
            PendingOperationStatus::Retry(reason) => {
                let mut s = String::from_str("Retry(");
                s.append(reason.text());
                s.append(")");
                s
            },
            PendingOperationStatus::ReadyToSubmit => String::from_str("ReadyToSubmit"),
            PendingOperationStatus::Confirm(reason) => {
                let mut s = String::from_str("Confirm(");
                s.append(reason.text());
                s.append(")");
                s
            },
        }
    }

    /// The JSON text under which the status is persisted.
    pub fn to_json(&self) -> (r: String)
        ensures
            r@ == status_json(*self),
    {
        match self {
            PendingOperationStatus::FirstPrepareAttempt => String::from_str("\"FirstPrepareAttempt\""),
            PendingOperationStatus::Retry(reason) => {
                let mut s = String::from_str("{\"Retry\":\"");
                s.append(reason.name());
                s.append("\"}");
                s
            },
            PendingOperationStatus::ReadyToSubmit => String::from_str("\"ReadyToSubmit\""),
            PendingOperationStatus::Confirm(reason) => {
                let mut s = String::from_str("{\"Confirm\":\"");
                s.append(reason.name());
                s.append("\"}");
                s
            },
        }
    }

    /// The bytes under which the status is persisted.
    pub fn to_vec(&self) -> (r: Vec<u8>)
        ensures
            r@ == status_bytes(*self),
    {
        let text = self.to_json();
        text.as_str().as_bytes_vec()
    }
}

/// The reason whose identifier is `n`, if any.
pub open spec fn reprepare_of_name(n: Seq<char>) -> Option<ReprepareReason> {
    if n == "ErrorCheckingDeliveryStatus"@ {
        Some(ReprepareReason::ErrorCheckingDeliveryStatus)
    } else if n == "ErrorCheckingIfRecipientIsContract"@ {
        Some(ReprepareReason::ErrorCheckingIfRecipientIsContract)
    } else if n == "ErrorFetchingIsmAddress"@ {
        Some(ReprepareReason::ErrorFetchingIsmAddress)
    } else if n == "ErrorGettingMetadataBuilder"@ {
        Some(ReprepareReason::ErrorGettingMetadataBuilder)
    } else if n == "ErrorBuildingMetadata"@ {
        Some(ReprepareReason::ErrorBuildingMetadata)
    } else if n == "CouldNotFetchMetadata"@ {
        Some(ReprepareReason::CouldNotFetchMetadata)
    } else if n == "ErrorEstimatingGas"@ {
        Some(ReprepareReason::ErrorEstimatingGas)
    } else if n == "ErrorCheckingGasRequirement"@ {
        Some(ReprepareReason::ErrorCheckingGasRequirement)
    } else if n == "GasPaymentRequirementNotMet"@ {
        Some(ReprepareReason::GasPaymentRequirementNotMet)
    } else if n == "ExceedsMaxGasLimit"@ {
        Some(ReprepareReason::ExceedsMaxGasLimit)
    } else if n == "RevertedOrReorged"@ {
        Some(ReprepareReason::RevertedOrReorged)
    } else {
        None
    }
}

proof fn lemma_reprepare_name_injective(a: ReprepareReason, b: ReprepareReason)
    requires
        reprepare_name(a) == reprepare_name(b),
    ensures
        a == b,
{
    lemma_reprepare_of_name_inverts(a);
    lemma_reprepare_of_name_inverts(b);
}

proof fn lemma_reprepare_of_name_inverts(r: ReprepareReason)
    ensures
        reprepare_of_name(reprepare_name(r)) == Some(r),
{
    reveal_strlit("ErrorCheckingDeliveryStatus");
    reveal_strlit("ErrorCheckingIfRecipientIsContract");
    reveal_strlit("ErrorFetchingIsmAddress");
    reveal_strlit("ErrorGettingMetadataBuilder");
    reveal_strlit("ErrorBuildingMetadata");
    reveal_strlit("CouldNotFetchMetadata");
    reveal_strlit("ErrorEstimatingGas");
    reveal_strlit("ErrorCheckingGasRequirement");
    reveal_strlit("GasPaymentRequirementNotMet");
    reveal_strlit("ExceedsMaxGasLimit");
    reveal_strlit("RevertedOrReorged");
    match r {
        ReprepareReason::ErrorCheckingDeliveryStatus => {},
        ReprepareReason::ErrorCheckingIfRecipientIsContract => {
            assert("ErrorCheckingIfRecipientIsContract"@.len() != "ErrorCheckingDeliveryStatus"@.len());
        },
        ReprepareReason::ErrorFetchingIsmAddress => {
            assert("ErrorFetchingIsmAddress"@.len() != "ErrorCheckingDeliveryStatus"@.len());
            assert("ErrorFetchingIsmAddress"@.len() != "ErrorCheckingIfRecipientIsContract"@.len());
        },
        ReprepareReason::ErrorGettingMetadataBuilder => {
            assert("ErrorGettingMetadataBuilder"@[5] != "ErrorCheckingDeliveryStatus"@[5]);
            assert("ErrorGettingMetadataBuilder"@.len() != "ErrorCheckingIfRecipientIsContract"@.len());
            assert("ErrorGettingMetadataBuilder"@.len() != "ErrorFetchingIsmAddress"@.len());
        },
        ReprepareReason::ErrorBuildingMetadata => {
            assert("ErrorBuildingMetadata"@.len() != "ErrorCheckingDeliveryStatus"@.len());
            assert("ErrorBuildingMetadata"@.len() != "ErrorCheckingIfRecipientIsContract"@.len());
            assert("ErrorBuildingMetadata"@.len() != "ErrorFetchingIsmAddress"@.len());
            assert("ErrorBuildingMetadata"@.len() != "ErrorGettingMetadataBuilder"@.len());
        },
        ReprepareReason::CouldNotFetchMetadata => {
            assert("CouldNotFetchMetadata"@.len() != "ErrorCheckingDeliveryStatus"@.len());
            assert("CouldNotFetchMetadata"@.len() != "ErrorCheckingIfRecipientIsContract"@.len());
            assert("CouldNotFetchMetadata"@.len() != "ErrorFetchingIsmAddress"@.len());
            assert("CouldNotFetchMetadata"@.len() != "ErrorGettingMetadataBuilder"@.len());
            assert("CouldNotFetchMetadata"@[0] != "ErrorBuildingMetadata"@[0]);
        },
        ReprepareReason::ErrorEstimatingGas => {
            assert("ErrorEstimatingGas"@.len() != "ErrorCheckingDeliveryStatus"@.len());
            assert("ErrorEstimatingGas"@.len() != "ErrorCheckingIfRecipientIsContract"@.len());
            assert("ErrorEstimatingGas"@.len() != "ErrorFetchingIsmAddress"@.len());
            assert("ErrorEstimatingGas"@.len() != "ErrorGettingMetadataBuilder"@.len());
            assert("ErrorEstimatingGas"@.len() != "ErrorBuildingMetadata"@.len());
            assert("ErrorEstimatingGas"@.len() != "CouldNotFetchMetadata"@.len());
        },
        ReprepareReason::ErrorCheckingGasRequirement => {
            assert("ErrorCheckingGasRequirement"@[13] != "ErrorCheckingDeliveryStatus"@[13]);
            assert("ErrorCheckingGasRequirement"@.len() != "ErrorCheckingIfRecipientIsContract"@.len());
            assert("ErrorCheckingGasRequirement"@.len() != "ErrorFetchingIsmAddress"@.len());
            assert("ErrorCheckingGasRequirement"@[5] != "ErrorGettingMetadataBuilder"@[5]);
            assert("ErrorCheckingGasRequirement"@.len() != "ErrorBuildingMetadata"@.len());
            assert("ErrorCheckingGasRequirement"@.len() != "CouldNotFetchMetadata"@.len());
            assert("ErrorCheckingGasRequirement"@.len() != "ErrorEstimatingGas"@.len());
        },
        ReprepareReason::GasPaymentRequirementNotMet => {
            assert("GasPaymentRequirementNotMet"@[0] != "ErrorCheckingDeliveryStatus"@[0]);
            assert("GasPaymentRequirementNotMet"@.len() != "ErrorCheckingIfRecipientIsContract"@.len());
            assert("GasPaymentRequirementNotMet"@.len() != "ErrorFetchingIsmAddress"@.len());
            assert("GasPaymentRequirementNotMet"@[0] != "ErrorGettingMetadataBuilder"@[0]);
            assert("GasPaymentRequirementNotMet"@.len() != "ErrorBuildingMetadata"@.len());
            assert("GasPaymentRequirementNotMet"@.len() != "CouldNotFetchMetadata"@.len());
            assert("GasPaymentRequirementNotMet"@.len() != "ErrorEstimatingGas"@.len());
            assert("GasPaymentRequirementNotMet"@[0] != "ErrorCheckingGasRequirement"@[0]);
        },
        ReprepareReason::ExceedsMaxGasLimit => {
            assert("ExceedsMaxGasLimit"@.len() != "ErrorCheckingDeliveryStatus"@.len());
            assert("ExceedsMaxGasLimit"@.len() != "ErrorCheckingIfRecipientIsContract"@.len());
            assert("ExceedsMaxGasLimit"@.len() != "ErrorFetchingIsmAddress"@.len());
            assert("ExceedsMaxGasLimit"@.len() != "ErrorGettingMetadataBuilder"@.len());
            assert("ExceedsMaxGasLimit"@.len() != "ErrorBuildingMetadata"@.len());
            assert("ExceedsMaxGasLimit"@.len() != "CouldNotFetchMetadata"@.len());
            assert("ExceedsMaxGasLimit"@[1] != "ErrorEstimatingGas"@[1]);
            assert("ExceedsMaxGasLimit"@.len() != "ErrorCheckingGasRequirement"@.len());
            assert("ExceedsMaxGasLimit"@.len() != "GasPaymentRequirementNotMet"@.len());
        },
        ReprepareReason::RevertedOrReorged => {
            assert("RevertedOrReorged"@.len() != "ErrorCheckingDeliveryStatus"@.len());
            assert("RevertedOrReorged"@.len() != "ErrorCheckingIfRecipientIsContract"@.len());
            assert("RevertedOrReorged"@.len() != "ErrorFetchingIsmAddress"@.len());
            assert("RevertedOrReorged"@.len() != "ErrorGettingMetadataBuilder"@.len());
            assert("RevertedOrReorged"@.len() != "ErrorBuildingMetadata"@.len());
            assert("RevertedOrReorged"@.len() != "CouldNotFetchMetadata"@.len());
            assert("RevertedOrReorged"@.len() != "ErrorEstimatingGas"@.len());
            assert("RevertedOrReorged"@.len() != "ErrorCheckingGasRequirement"@.len());
            assert("RevertedOrReorged"@.len() != "GasPaymentRequirementNotMet"@.len());
            assert("RevertedOrReorged"@.len() != "ExceedsMaxGasLimit"@.len());
        },
    }
}

/// The reason whose identifier is `n`, if any.
pub open spec fn confirm_of_name(n: Seq<char>) -> Option<ConfirmReason> {
    if n == "SubmittedBySelf"@ {
        Some(ConfirmReason::SubmittedBySelf)
    } else if n == "AlreadySubmitted"@ {
        Some(ConfirmReason::AlreadySubmitted)
    } else if n == "ErrorConfirmingDelivery"@ {
        Some(ConfirmReason::ErrorConfirmingDelivery)
    } else if n == "ErrorRecordingProcessSuccess"@ {
        Some(ConfirmReason::ErrorRecordingProcessSuccess)
    } else {
        None
    }
}

proof fn lemma_confirm_name_injective(a: ConfirmReason, b: ConfirmReason)
    requires
        confirm_name(a) == confirm_name(b),
    ensures
        a == b,
{
    lemma_confirm_of_name_inverts(a);
    lemma_confirm_of_name_inverts(b);
}

proof fn lemma_confirm_of_name_inverts(r: ConfirmReason)
    ensures
        confirm_of_name(confirm_name(r)) == Some(r),
{
    reveal_strlit("SubmittedBySelf");
    reveal_strlit("AlreadySubmitted");
    reveal_strlit("ErrorConfirmingDelivery");
    reveal_strlit("ErrorRecordingProcessSuccess");
    match r {
        ConfirmReason::SubmittedBySelf => {},
        ConfirmReason::AlreadySubmitted => {
            assert("AlreadySubmitted"@.len() != "SubmittedBySelf"@.len());
        },
        ConfirmReason::ErrorConfirmingDelivery => {
            assert("ErrorConfirmingDelivery"@.len() != "SubmittedBySelf"@.len());
            assert("ErrorConfirmingDelivery"@.len() != "AlreadySubmitted"@.len());
        },
        ConfirmReason::ErrorRecordingProcessSuccess => {
            assert("ErrorRecordingProcessSuccess"@.len() != "SubmittedBySelf"@.len());
            assert("ErrorRecordingProcessSuccess"@.len() != "AlreadySubmitted"@.len());
            assert("ErrorRecordingProcessSuccess"@.len() != "ErrorConfirmingDelivery"@.len());
        },
    }
}

/// Distinct statuses have distinct JSON texts.
proof fn lemma_status_json_injective(a: PendingOperationStatus, b: PendingOperationStatus)
    requires
        status_json(a) == status_json(b),
    ensures
        a == b,
{
    reveal_strlit("\"FirstPrepareAttempt\"");
    reveal_strlit("\"ReadyToSubmit\"");
    reveal_strlit("{\"Retry\":\"");
    reveal_strlit("{\"Confirm\":\"");
    reveal_strlit("\"}");
    let t = status_json(a);
    assert(t[0] == status_json(b)[0]);
    assert(t.len() == status_json(b).len());
    match a {
        PendingOperationStatus::Retry(ra) => {
            assert(reprepare_name(ra) =~= t.subrange(10, t.len() - 2));
            assert(t[2] == status_json(b)[2]);
            if let PendingOperationStatus::Retry(rb) = b {
                assert(reprepare_name(rb) =~= t.subrange(10, t.len() - 2));
                lemma_reprepare_name_injective(ra, rb);
            }
        },
        PendingOperationStatus::Confirm(ca) => {
            assert(confirm_name(ca) =~= t.subrange(12, t.len() - 2));
            assert(t[2] == status_json(b)[2]);
            if let PendingOperationStatus::Confirm(cb) = b {
                assert(confirm_name(cb) =~= t.subrange(12, t.len() - 2));
                lemma_confirm_name_injective(ca, cb);
            }
        },
        _ => {},
    }
}

/// Distinct statuses are persisted as distinct bytes.
pub proof fn lemma_status_bytes_injective(a: PendingOperationStatus, b: PendingOperationStatus)
    requires
        status_bytes(a) == status_bytes(b),
    ensures
        a == b,
{
    encode_utf8_decode_utf8(status_json(a));
    encode_utf8_decode_utf8(status_json(b));
    lemma_status_json_injective(a, b);
}

/// Decoding what encoding produced gives back the same status: no other
/// status is persisted as the same bytes.
pub proof fn lemma_decode_encode(s: PendingOperationStatus)
    ensures
        forall|t: PendingOperationStatus| status_bytes(t) == status_bytes(s) <==> t == s,
{
    assert forall|t: PendingOperationStatus| status_bytes(t) == status_bytes(s) implies t == s by {
        lemma_status_bytes_injective(t, s);
    }
}

/// Every status, each once.
fn all_statuses() -> (v: Vec<PendingOperationStatus>)
    ensures
        forall|s: PendingOperationStatus| v@.contains(s),
{
    let v = vec![
        PendingOperationStatus::FirstPrepareAttempt,
        PendingOperationStatus::Retry(ReprepareReason::ErrorCheckingDeliveryStatus),
        PendingOperationStatus::Retry(ReprepareReason::ErrorCheckingIfRecipientIsContract),
        PendingOperationStatus::Retry(ReprepareReason::ErrorFetchingIsmAddress),
        PendingOperationStatus::Retry(ReprepareReason::ErrorGettingMetadataBuilder),
        PendingOperationStatus::Retry(ReprepareReason::ErrorBuildingMetadata),
        PendingOperationStatus::Retry(ReprepareReason::CouldNotFetchMetadata),
        PendingOperationStatus::Retry(ReprepareReason::ErrorEstimatingGas),
        PendingOperationStatus::Retry(ReprepareReason::ErrorCheckingGasRequirement),
        PendingOperationStatus::Retry(ReprepareReason::GasPaymentRequirementNotMet),
        PendingOperationStatus::Retry(ReprepareReason::ExceedsMaxGasLimit),
        PendingOperationStatus::Retry(ReprepareReason::RevertedOrReorged),
        PendingOperationStatus::ReadyToSubmit,
        PendingOperationStatus::Confirm(ConfirmReason::SubmittedBySelf),
        PendingOperationStatus::Confirm(ConfirmReason::AlreadySubmitted),
        PendingOperationStatus::Confirm(ConfirmReason::ErrorConfirmingDelivery),
        PendingOperationStatus::Confirm(ConfirmReason::ErrorRecordingProcessSuccess),
    ];
    assert forall|s: PendingOperationStatus| v@.contains(s) by {
        match s {
            PendingOperationStatus::Retry(r) => match r {
                ReprepareReason::ErrorCheckingDeliveryStatus => assert(v@[1] == s),
                ReprepareReason::ErrorCheckingIfRecipientIsContract => assert(v@[2] == s),
                ReprepareReason::ErrorFetchingIsmAddress => assert(v@[3] == s),
                ReprepareReason::ErrorGettingMetadataBuilder => assert(v@[4] == s),
                ReprepareReason::ErrorBuildingMetadata => assert(v@[5] == s),
                ReprepareReason::CouldNotFetchMetadata => assert(v@[6] == s),
                ReprepareReason::ErrorEstimatingGas => assert(v@[7] == s),
                ReprepareReason::ErrorCheckingGasRequirement => assert(v@[8] == s),
                ReprepareReason::GasPaymentRequirementNotMet => assert(v@[9] == s),
                ReprepareReason::ExceedsMaxGasLimit => assert(v@[10] == s),
                ReprepareReason::RevertedOrReorged => assert(v@[11] == s),
            },
            PendingOperationStatus::Confirm(c) => match c {
                ConfirmReason::SubmittedBySelf => assert(v@[13] == s),
                ConfirmReason::AlreadySubmitted => assert(v@[14] == s),
                ConfirmReason::ErrorConfirmingDelivery => assert(v@[15] == s),
                ConfirmReason::ErrorRecordingProcessSuccess => assert(v@[16] == s),
            },
            PendingOperationStatus::FirstPrepareAttempt => assert(v@[0] == s),
            PendingOperationStatus::ReadyToSubmit => assert(v@[12] == s),
        }
    }
    v
}

fn bytes_equal(a: &[u8], b: &[u8]) -> (r: bool)
    ensures
        r == (a@ == b@),
{
    if a.len() != b.len() {
        return false;
    }
    let mut i: usize = 0;
    while i < a.len()
        invariant
            a@.len() == b@.len(),
            i <= a@.len(),
            forall|j: int| 0 <= j < i ==> a@[j] == b@[j],
        decreases a@.len() - i,
    {
        if a[i] != b[i] {
            return false;
        }
        i = i + 1;
    }
    assert(a@ =~= b@);
    true
}

impl PendingOperationStatus {
    /// Reads a status back from the bytes under which it was persisted.
    /// Any other bytes are refused; no variant is assumed in their place.
    pub fn read_from(bytes: &[u8]) -> (r: Result<PendingOperationStatus, DecodeError>)
        ensures
            forall|s: PendingOperationStatus| r == Ok::<PendingOperationStatus, DecodeError>(s) <==> status_bytes(s) == bytes@,
            r is Err <==> forall|s: PendingOperationStatus| status_bytes(s) != bytes@,
            r is Err ==> r == Err::<PendingOperationStatus, DecodeError>(DecodeError::Malformed),
    {
        let candidates = all_statuses();
        let mut i: usize = 0;
        while i < candidates.len()
            invariant
                i <= candidates@.len(),
                forall|s: PendingOperationStatus| candidates@.contains(s),
                forall|j: int| 0 <= j < i ==> status_bytes(#[trigger] candidates@[j]) != bytes@,
            decreases candidates@.len() - i,
        {
            let encoded = candidates[i].to_vec();
            if bytes_equal(encoded.as_slice(), bytes) {
                let found = candidates[i];
                proof {
                    lemma_decode_encode(found);
                }
                return Ok(found);
            }
            i = i + 1;
        }
        assert forall|s: PendingOperationStatus| status_bytes(s) != bytes@ by {
            assert(candidates@.contains(s));
        }
        Err(DecodeError::Malformed)
    }
}

} // verus!
