use tendermint_proto::text::{bytes_eq, str_eq};
use tendermint_proto::tendermint::privval::Errors;
use tendermint_proto::v0_34::abci::response_apply_snapshot_chunk::Result as ApplyChunkResult;
use tendermint_proto::v0_34::abci::response_offer_snapshot::Result as OfferSnapshotResult;
use tendermint_proto::v0_34::abci::{CheckTxType, EvidenceType};
use tendermint_proto::v1_0::abci::response_process_proposal::ProposalStatus;
use tendermint_proto::v1_0::abci::MisbehaviorType;

#[test]
fn check_tx_type_names() {
    assert_eq!(CheckTxType::New.as_str_name(), "NEW");
    assert_eq!(CheckTxType::Recheck.as_str_name(), "RECHECK");
    assert_eq!(CheckTxType::from_str_name("RECHECK"), Some(CheckTxType::Recheck));
    assert_eq!(CheckTxType::from_str_name("NEW"), Some(CheckTxType::New));
    assert_eq!(CheckTxType::from_str_name("new"), None);
    assert_eq!(CheckTxType::from_str_name(""), None);
    assert_eq!(CheckTxType::from_str_name("NEWS"), None);
}

#[test]
fn evidence_type_names_roundtrip() {
    for t in [
        EvidenceType::Unknown,
        EvidenceType::DuplicateVote,
        EvidenceType::LightClientAttack,
    ] {
        assert_eq!(EvidenceType::from_str_name(t.as_str_name()), Some(t));
    }
    assert_eq!(EvidenceType::LightClientAttack.as_str_name(), "LIGHT_CLIENT_ATTACK");
    assert_eq!(EvidenceType::from_str_name("DUPLICATE_VOTE "), None);
}

#[test]
fn offer_snapshot_result_names() {
    let all = [
        (OfferSnapshotResult::Unknown, "UNKNOWN"),
        (OfferSnapshotResult::Accept, "ACCEPT"),
        (OfferSnapshotResult::Abort, "ABORT"),
        (OfferSnapshotResult::Reject, "REJECT"),
        (OfferSnapshotResult::RejectFormat, "REJECT_FORMAT"),
        (OfferSnapshotResult::RejectSender, "REJECT_SENDER"),
    ];
    for (v, n) in all {
        assert_eq!(v.as_str_name(), n);
        assert_eq!(OfferSnapshotResult::from_str_name(n), Some(v));
    }
    assert_eq!(OfferSnapshotResult::from_str_name("RETRY"), None);
}

#[test]
fn apply_snapshot_chunk_result_names() {
    let all = [
        (ApplyChunkResult::Unknown, "UNKNOWN"),
        (ApplyChunkResult::Accept, "ACCEPT"),
        (ApplyChunkResult::Abort, "ABORT"),
        (ApplyChunkResult::Retry, "RETRY"),
        (ApplyChunkResult::RetrySnapshot, "RETRY_SNAPSHOT"),
        (ApplyChunkResult::RejectSnapshot, "REJECT_SNAPSHOT"),
    ];
    for (v, n) in all {
        assert_eq!(v.as_str_name(), n);
        assert_eq!(ApplyChunkResult::from_str_name(n), Some(v));
    }
    assert_eq!(ApplyChunkResult::from_str_name("REJECT"), None);
}

#[test]
fn proposal_status_and_misbehavior_names() {
    assert_eq!(ProposalStatus::Accept.as_str_name(), "ACCEPT");
    assert_eq!(ProposalStatus::from_str_name("REJECT"), Some(ProposalStatus::Reject));
    assert_eq!(ProposalStatus::from_str_name("Reject"), None);
    assert_eq!(MisbehaviorType::DuplicateVote.as_str_name(), "DUPLICATE_VOTE");
    assert_eq!(
        MisbehaviorType::from_str_name("LIGHT_CLIENT_ATTACK"),
        Some(MisbehaviorType::LightClientAttack)
    );
    assert_eq!(MisbehaviorType::from_str_name("UNKNOWN"), Some(MisbehaviorType::Unknown));
}

#[test]
fn privval_error_names() {
    assert_eq!(Errors::Unknown.as_str_name(), "ERRORS_UNKNOWN");
    assert_eq!(Errors::NoConnection.as_str_name(), "ERRORS_NO_CONNECTION");
    assert_eq!(Errors::WriteTimeout.as_str_name(), "ERRORS_WRITE_TIMEOUT");
}

#[test]
fn string_equality() {
    assert!(str_eq("ÄBC", "ÄBC"));
    assert!(!str_eq("ÄBC", "ABC"));
    assert!(!str_eq("AB", "ABC"));
    assert!(str_eq("", ""));
    assert!(bytes_eq(&[1, 2, 3], &[1, 2, 3]));
    assert!(!bytes_eq(&[1, 2, 3], &[1, 2, 4]));
}
