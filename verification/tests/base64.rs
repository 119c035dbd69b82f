use tendermint_proto::encoding::{base64_decode_would_panic, EncodingError};
use tendermint_proto::google::protobuf::any::{AnyFields, same_message_type, type_name_of_url, type_url_mismatch_message};
use tendermint_proto::google::protobuf::Any;
use tendermint_proto::rpc_abci::transaction::Transaction;

#[test]
fn base64_inputs_the_decoder_panics_on() {
    for s in ["AB=C", "AB=!", "AAAAAB=C", "=AAA", "AAAA="] {
        assert!(base64_decode_would_panic(s.as_bytes()), "{}", s);
    }
    for s in ["", "AB==", "ABC=", "A=BC", "A!=C", "AB=C ", "AAAA", "AB", "AAAAA===", "A=AAAAAA", "ABC=D"] {
        assert!(!base64_decode_would_panic(s.as_bytes()), "{}", s);
    }
}

#[test]
fn base64_errors_without_panic() {
    assert_eq!(Transaction::from_base64("A=BC"), Err(EncodingError::EncodingInvalid));
    assert_eq!(Transaction::from_base64("AAAAA==="), Err(EncodingError::EncodingInvalid));
    assert_eq!(Transaction::from_base64("AQID "), Err(EncodingError::TrailingWhitespace));
}

#[test]
fn transaction_base64_roundtrip() {
    for bytes in [vec![], vec![0u8], vec![1, 2], vec![0xff, 0xfe, 0xfd], vec![9; 10]] {
        let t = Transaction::from(bytes);
        let text = t.to_base64();
        assert!(!base64_decode_would_panic(text.as_bytes()));
        assert_eq!(Transaction::from_base64(&text), Ok(t));
    }
}

#[test]
fn any_json_fields_roundtrip() {
    for (url, value) in [("", vec![]), ("a/b.C", vec![1, 2, 3, 4]), ("", vec![7]), ("x/y", vec![])] {
        let a = Any { type_url: url.to_string(), value };
        let (u, v) = a.json_fields();
        let mut fields = AnyFields::new();
        if let Some(u) = u {
            fields.read_type_url(u).unwrap();
        }
        if let Some(v) = v {
            fields.read_value(&v).unwrap();
        }
        assert_eq!(fields.finish(), a);
    }
}

#[test]
fn type_urls() {
    assert_eq!(type_name_of_url("foo.bar.com/x/y.z"), Some("y.z"));
    assert_eq!(type_name_of_url("/google.protobuf.Duration"), Some("google.protobuf.Duration"));
    assert_eq!(type_name_of_url("google.protobuf.Duration"), None);
    assert_eq!(type_name_of_url("a/.b"), None);
    assert_eq!(type_name_of_url("a/"), Some(""));
    assert!(same_message_type(
        "/google.protobuf.Duration",
        "type.googleapis.com/google.protobuf.Duration"
    ));
    assert!(!same_message_type("/google.protobuf.Duration", "/google.protobuf.Timestamp"));
    assert!(!same_message_type("nothing", "nothing"));
    assert_eq!(
        type_url_mismatch_message("/a.B", "/c.D"),
        "expected type URL: \"/a.B\" (got: \"/c.D\")"
    );
}
