use tendermint_proto::google::protobuf::Any;
use tendermint_proto::probe::error::Error as ProbeError;
use tendermint_proto::probe::utils;
use tendermint_proto::tendermint::types::{BlockIdFlag, SignedMsgType};
use tendermint_proto::Error;

#[test]
fn error_try_from_message() {
    let e = Error::try_from("bad hash".to_string());
    assert_eq!(
        e.message(),
        "error converting message type into domain type: bad hash"
    );
    assert_eq!(
        Error::DecodeMessage("x".to_string()).message(),
        "error decoding buffer into message"
    );
}

#[test]
fn enumerations_numbers() {
    assert_eq!(SignedMsgType::from_i32(32), Some(SignedMsgType::Proposal));
    assert_eq!(SignedMsgType::Proposal.as_i32(), 32);
    assert_eq!(SignedMsgType::from_i32(3), None);
    assert!(!SignedMsgType::is_valid(3));
    assert_eq!(BlockIdFlag::from_i32(3), Some(BlockIdFlag::Nil));
    assert!(BlockIdFlag::is_valid(0));
    assert!(!BlockIdFlag::is_valid(4));
    assert_eq!(BlockIdFlag::Commit.as_i32(), 2);
}

#[test]
fn any_json_fields() {
    let any = Any { type_url: String::new(), value: vec![] };
    assert_eq!(any.json_fields(), (None, None));
    let any = Any { type_url: "/google.protobuf.Duration".to_string(), value: vec![1, 2, 3] };
    assert_eq!(
        any.json_fields(),
        (Some("/google.protobuf.Duration".to_string()), Some("AQID".to_string()))
    );
    assert_eq!(Any::value_from_base64("AQID"), Ok(vec![1, 2, 3]));
}

#[test]
fn probe_utils() {
    assert_eq!(utils::hex_string("test-commit"), "746573742d636f6d6d6974");
    assert_eq!(utils::encode_kvpair("test-commit", "commit"), "dGVzdC1jb21taXQ9Y29tbWl0");
    let id = utils::uuid_v4().unwrap();
    assert_eq!(id.len(), 36);
    assert_eq!(&id[14..15], "4");
    assert!(matches!(&id[19..20], "8" | "9" | "a" | "b"));
}

#[test]
fn probe_error_messages() {
    assert_eq!(
        ProbeError::Failed("block".to_string(), "oops".to_string()).message(),
        "block request failed: oops"
    );
    assert_eq!(
        ProbeError::from_send_error("closed").message(),
        "an internal error occurred: failed to send to channel: closed"
    );
}
