use tendermint_proto::rpc_abci::transaction::{Data, Transaction};
use tendermint_proto::tendermint::types::Data as RawData;

#[test]
fn upper_hex_serialization() {
    let tx = Transaction::from(vec![0xFF, 0x01, 0xFE, 0x02]);
    let tx_hex = tx.to_upper_hex();
    assert_eq!(&tx_hex, "FF01FE02");
}

#[test]
fn upper_hex_of_empty_transaction_is_empty() {
    let tx = Transaction::from(vec![]);
    assert_eq!(tx.to_upper_hex(), "");
    let tx = Transaction::from(vec![0x0a, 0xb0]);
    assert_eq!(tx.to_upper_hex(), "0AB0");
}

#[test]
fn transaction_bytes_round_trip() {
    let tx = Transaction::from(vec![1, 2, 3]);
    assert_eq!(tx.as_bytes(), &[1, 2, 3]);
    let bytes: Vec<u8> = tx.into();
    assert_eq!(bytes, vec![1, 2, 3]);
}

#[test]
fn transaction_base64_round_trip() {
    let tx = Transaction::from(b"test-commit=commit".to_vec());
    let text = tx.to_base64();
    assert_eq!(text, "dGVzdC1jb21taXQ9Y29tbWl0");
    let back = Transaction::from_base64(&text).unwrap();
    assert_eq!(back, tx);
}

#[test]
fn transaction_base64_rejects_bad_text() {
    assert!(Transaction::from_base64("!!!!").is_err());
    assert!(Transaction::from_base64("AAA ").is_err());
}

#[test]
fn raw_data_round_trip() {
    let raw = RawData { txs: vec![vec![1], vec![2, 3]] };
    let data = Data::from_raw(raw.clone());
    assert_eq!(data.iter().len(), 2);
    assert_eq!(data.iter()[1].as_bytes(), &[2, 3]);
    assert_eq!(data.into_raw(), raw);
}

#[test]
fn empty_raw_data_is_default() {
    let data = Data::from_raw(RawData { txs: vec![] });
    assert_eq!(data, Data::default());
    assert_eq!(data.iter().len(), 0);
    assert_eq!(data.into_raw(), RawData { txs: vec![] });
}
