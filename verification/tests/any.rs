use tendermint_proto::encoding::EncodingError;
use tendermint_proto::google::protobuf::any::{AnyField, AnyFields, AnyJsonError};
use tendermint_proto::google::protobuf::Any;

#[test]
fn any_field_keys() {
    assert_eq!(AnyField::from_key("typeUrl"), Ok(AnyField::TypeUrl));
    assert_eq!(AnyField::from_key("type_url"), Ok(AnyField::TypeUrl));
    assert_eq!(AnyField::from_key("value"), Ok(AnyField::Value));
    assert_eq!(
        AnyField::from_key("typeurl"),
        Err(AnyJsonError::UnknownField("typeurl".to_string()))
    );
    assert_eq!(AnyField::keys(), ["type_url", "typeUrl", "value"]);
    for f in [AnyField::TypeUrl, AnyField::Value] {
        assert_eq!(AnyField::from_key(f.json_name()), Ok(f));
    }
}

#[test]
fn any_fields_read_in_any_order() {
    let mut fields = AnyFields::new();
    assert_eq!(fields.read_value("Cg0KB2NvcnA="), Ok(()));
    assert_eq!(
        fields.read_type_url("type.googleapis.com/google.protobuf.Duration".to_string()),
        Ok(())
    );
    let any = fields.finish();
    assert_eq!(any.type_url, "type.googleapis.com/google.protobuf.Duration");
    assert_eq!(any.value, vec![0x0a, 0x0d, 0x0a, 0x07, 0x63, 0x6f, 0x72, 0x70]);
}

#[test]
fn any_fields_refuse_duplicates_and_bad_base64() {
    let mut fields = AnyFields::new();
    assert_eq!(fields.read_type_url("a/b".to_string()), Ok(()));
    assert_eq!(
        fields.read_type_url("c/d".to_string()),
        Err(AnyJsonError::DuplicateField(AnyField::TypeUrl))
    );
    assert_eq!(fields.type_url, Some("a/b".to_string()));
    assert_eq!(
        fields.read_value("A!=="),
        Err(AnyJsonError::Base64(EncodingError::EncodingInvalid))
    );
    assert_eq!(fields.value, None);
    assert_eq!(fields.read_value("AQID"), Ok(()));
    assert_eq!(
        fields.read_value("AQID"),
        Err(AnyJsonError::DuplicateField(AnyField::Value))
    );
}

#[test]
fn any_fields_missing_fields_are_empty() {
    let any = AnyFields::new().finish();
    assert_eq!(any, Any::default());
    let mut fields = AnyFields::new();
    fields.read_value("").unwrap();
    assert_eq!(fields.finish().value, Vec::<u8>::new());
}

#[test]
fn any_fields_expect_new() {
    let mut fields = AnyFields::new();
    assert_eq!(fields.expect_new(AnyField::TypeUrl), Ok(()));
    fields.read_type_url("a/b".to_string()).unwrap();
    assert_eq!(
        fields.expect_new(AnyField::TypeUrl),
        Err(AnyJsonError::DuplicateField(AnyField::TypeUrl))
    );
    assert_eq!(fields.expect_new(AnyField::Value), Ok(()));
}
