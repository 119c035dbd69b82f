use tendermint_proto::decimal::IntErrorKind;
use tendermint_proto::encoding::EncodingError;
use tendermint_proto::serializers::{part_set_header_total, time_duration, txs};

#[test]
fn part_set_header_total_reads_string_or_integer() {
    assert_eq!(part_set_header_total::visit_u64(5), Ok(5));
    assert_eq!(
        part_set_header_total::visit_u64(1 << 32),
        Err("part_set_header.total out of range integral type conversion attempted".to_string())
    );
    assert_eq!(part_set_header_total::visit_str("42"), Ok(42));
    assert_eq!(part_set_header_total::visit_str("+42"), Ok(42));
    assert_eq!(
        part_set_header_total::visit_str("-1"),
        Err("part_set_header.total invalid digit found in string".to_string())
    );
    assert_eq!(
        part_set_header_total::visit_str("4294967296"),
        Err("part_set_header.total number too large to fit in target type".to_string())
    );
    assert_eq!(
        part_set_header_total::visit_str(""),
        Err("part_set_header.total cannot parse integer from empty string".to_string())
    );
}

#[test]
fn time_duration_nanos() {
    assert_eq!(time_duration::deserialize("1500"), Ok(1500));
    assert_eq!(time_duration::deserialize("x"), Err(IntErrorKind::InvalidDigit));
    assert_eq!(time_duration::serialize(1_500_000_000), "1500000000");
    assert_eq!(time_duration::serialize(0), "0");
}

#[test]
fn txs_hex_strings() {
    assert_eq!(txs::serialize(&[]), None);
    assert_eq!(
        txs::serialize(&[vec![0xab, 0x01], vec![]]),
        Some(vec!["AB01".to_string(), "".to_string()])
    );
    assert_eq!(txs::deserialize(None), Ok(vec![]));
    assert_eq!(txs::deserialize(Some(vec![])), Ok(vec![]));
    assert_eq!(
        txs::deserialize(Some(vec!["AB01".to_string(), "ab02".to_string()])),
        Ok(vec![vec![0xab, 0x01], vec![0xab, 0x02]])
    );
    assert_eq!(
        txs::deserialize(Some(vec!["aB".to_string()])),
        Err(EncodingError::EncodingInvalid)
    );
    assert_eq!(
        txs::deserialize(Some(vec!["ABC".to_string()])),
        Err(EncodingError::LengthInvalid)
    );
}

#[test]
fn txs_roundtrip() {
    let txs = vec![vec![0x00, 0xff, 0x10], vec![], vec![0x7f; 5]];
    assert_eq!(txs::deserialize(txs::serialize(&txs)), Ok(txs));
    let none: Vec<Vec<u8>> = vec![];
    assert_eq!(txs::deserialize(txs::serialize(&none)), Ok(none));
}

#[test]
fn time_duration_roundtrip() {
    for n in [0u64, 1, 9, 10, 1_000_000_007, u64::MAX] {
        assert_eq!(time_duration::deserialize(&time_duration::serialize(n as u128)), Ok(n));
    }
    // A number of nanoseconds beyond `u64` is written but not read back.
    let big = u64::MAX as u128 + 1;
    assert_eq!(time_duration::serialize(big), "18446744073709551616");
    assert_eq!(
        time_duration::deserialize(&time_duration::serialize(big)),
        Err(IntErrorKind::PosOverflow)
    );
}

#[test]
fn hex_length_is_checked_before_whitespace() {
    assert_eq!(
        txs::deserialize(Some(vec!["ab ".to_string()])),
        Err(EncodingError::LengthInvalid)
    );
    assert_eq!(
        txs::deserialize(Some(vec![" ".to_string()])),
        Err(EncodingError::LengthInvalid)
    );
    assert_eq!(
        txs::deserialize(Some(vec!["abc ".to_string()])),
        Err(EncodingError::TrailingWhitespace)
    );
}
