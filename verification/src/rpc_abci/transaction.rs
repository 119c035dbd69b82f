//! Transactions

use vstd::prelude::*;

use crate::encoding::{
    ascii_chars, ascii_to_string, base64_decode, base64_decode_panics, base64_decode_spec,
    base64_decodes_to, base64_encode, base64_encode_spec, lemma_ascii_chars_bytes, hex_digit, EncodingError,
};
use crate::tendermint::types::Data as RawData;
use crate::text::string_from_chars;
use vstd::string::StringSliceAdditionalSpecFns;
use vstd::utf8::encode_utf8;

verus! {

/// Transactions are arbitrary byte arrays whose contents are validated by the
/// underlying Tendermint application.
#[derive(Clone, Debug, PartialEq, Eq)]
pub struct Transaction(Vec<u8>);

impl View for Transaction {
    type V = Seq<u8>;

    closed spec fn view(&self) -> Seq<u8> {
        self.0@
    }
}

impl From<Vec<u8>> for Transaction {
    fn from(value: Vec<u8>) -> (r: Self)
        ensures
            r@ == value@,
    {
        Transaction(value)
    }
}

impl vstd::std_specs::convert::FromSpecImpl<Vec<u8>> for Transaction {
    open spec fn obeys_from_spec() -> bool {
        true
    }

    closed spec fn from_spec(v: Vec<u8>) -> Self {
        Transaction(v)
    }
}

impl From<Transaction> for Vec<u8> {
    fn from(value: Transaction) -> (r: Self)
        ensures
            r@ == value@,
    {
        value.0
    }
}

impl vstd::std_specs::convert::FromSpecImpl<Transaction> for Vec<u8> {
    open spec fn obeys_from_spec() -> bool {
        true
    }

    closed spec fn from_spec(v: Transaction) -> Self {
        v.0
    }
}

/// Two upper-case hexadecimal digits for each byte, as `{:02X}` writes a byte.
pub open spec fn upper_hex_chars(b: Seq<u8>) -> Seq<char> {
    Seq::new(
        2 * b.len(),
        |i: int|
            if i % 2 == 0 {
                hex_digit((b[i / 2] / 16) as int, true) as char
            } else {
                hex_digit((b[i / 2] % 16) as int, true) as char
            },
    )
}

/// The upper-case hexadecimal digit of a value below 16.
fn upper_digit(v: u8) -> (c: char)
    requires
        v < 16,
    ensures
        c == hex_digit(v as int, true) as char,
{
    if v < 10 {
        (v + 48) as char
    } else {
        (v + 55) as char
    }
}

impl Transaction {
    /// Borrow the contents of this transaction as a byte slice
    pub fn as_bytes(&self) -> (r: &[u8])
        ensures
            r@ == self@,
    {
        self.0.as_slice()
    }

    /// The transaction in upper-case hexadecimal, two digits per byte (what
    /// `{:X}` writes for it).
    pub fn to_upper_hex(&self) -> (r: String)
        ensures
            r@ == upper_hex_chars(self@),
    {
        let bytes = self.as_bytes();
        let mut out: Vec<char> = Vec::new();
        let mut i: usize = 0;
        while i < bytes.len()
            invariant
                i <= bytes@.len(),
                bytes@ == self@,
                out@ =~= upper_hex_chars(bytes@.take(i as int)),
            decreases bytes@.len() - i,
        {
            let byte = bytes[i];
            out.push(upper_digit(byte / 16));
            out.push(upper_digit(byte % 16));
            proof {
                assert(bytes@.take(i + 1).drop_last() =~= bytes@.take(i as int));
            }
            i = i + 1;
        }
        assert(bytes@.take(bytes@.len() as int) =~= bytes@);
        string_from_chars(out)
    }

    /// The transaction as Base64 text, as it is serialized. The text reads
    /// back, by [`Transaction::from_base64`], as the same transaction.
    pub fn to_base64(&self) -> (r: String)
        ensures
            r@ == ascii_chars(base64_encode_spec(self@)),
            !base64_decode_panics(encode_utf8(r@)),
            base64_decodes_to(encode_utf8(r@), self@),
    {
        let encoded = base64_encode(self.as_bytes());
        proof {
            lemma_ascii_chars_bytes(encoded@);
        }
        ascii_to_string(&encoded)
    }

    /// Reads a transaction from its Base64 text, as it is deserialized.
    pub fn from_base64(s: &str) -> (r: Result<Transaction, EncodingError>)
        requires
            !base64_decode_panics(s.spec_bytes()),
        ensures
            match base64_decode_spec(s.spec_bytes()) {
                Ok(b) => r matches Ok(t) && t@ == b,
                Err(e) => r == Err::<Transaction, EncodingError>(e),
            },
    {
        match base64_decode(s.as_bytes()) {
            Ok(bytes) => Ok(Transaction::from(bytes)),
            Err(e) => Err(e),
        }
    }
}

/// A copy of a byte string.
fn clone_bytes(v: &Vec<u8>) -> (r: Vec<u8>)
    ensures
        r@ == v@,
{
    let r = v.clone();
    assert(r@ =~= v@);
    r
}

/// Transaction data is a wrapper for a list of transactions, where
/// transactions are arbitrary byte arrays.
#[derive(Clone, Debug, Default, PartialEq, Eq)]
pub struct Data {
    txs: Option<Vec<Transaction>>,
}

/// The bytes of each transaction.
pub open spec fn tx_bytes(txs: Seq<Transaction>) -> Seq<Seq<u8>> {
    Seq::new(txs.len(), |i: int| txs[i]@)
}

impl View for Data {
    type V = Option<Seq<Seq<u8>>>;

    closed spec fn view(&self) -> Option<Seq<Seq<u8>>> {
        match self.txs {
            None => None,
            Some(v) => Some(tx_bytes(v@)),
        }
    }
}

/// The bytes of each transaction of raw block data.
pub open spec fn raw_view(raw: RawData) -> Seq<Seq<u8>> {
    Seq::new(raw.txs@.len(), |i: int| raw.txs@[i]@)
}

impl Data {
    /// The transactions in the collection (none when it holds none).
    pub open spec fn transactions(self) -> Seq<Seq<u8>> {
        match self@ {
            None => Seq::empty(),
            Some(t) => t,
        }
    }

    /// The transactions in the collection, in order.
    pub fn iter(&self) -> (r: &[Transaction])
        ensures
            tx_bytes(r@) == self.transactions(),
    {
        match &self.txs {
            Some(v) => v.as_slice(),
            None => &[],
        }
    }
}

impl Data {
    /// Converts raw block data: no transactions become an empty collection
    /// (`None`), and otherwise each byte string becomes a transaction.
    pub fn from_raw(value: RawData) -> (r: Data)
        ensures
            r@ == data_view_of_raw(value),
    {
        if value.txs.len() == 0 {
            return Data { txs: None };
        }
        let mut txs: Vec<Transaction> = Vec::new();
        let mut i: usize = 0;
        while i < value.txs.len()
            invariant
                i <= value.txs@.len(),
                tx_bytes(txs@) =~= raw_view(value).take(i as int),
            decreases value.txs@.len() - i,
        {
            let ghost before = txs@;
            let t = Transaction::from(clone_bytes(&value.txs[i]));
            txs.push(t);
            assert(tx_bytes(txs@) =~= tx_bytes(before).push(raw_view(value)[i as int]));
            assert(raw_view(value).take(i + 1) =~= raw_view(value).take(i as int).push(
                raw_view(value)[i as int],
            ));
            i = i + 1;
        }
        assert(raw_view(value).take(value.txs@.len() as int) =~= raw_view(value));
        Data { txs: Some(txs) }
    }

    /// Converts to raw block data: the transactions' bytes, in order (none
    /// for an empty collection).
    pub fn into_raw(self) -> (r: RawData)
        ensures
            raw_view(r) == self.transactions(),
    {
        match self.txs {
            None => RawData { txs: Vec::new() },
            Some(txs) => {
                let mut out: Vec<Vec<u8>> = Vec::new();
                let mut i: usize = 0;
                while i < txs.len()
                    invariant
                        i <= txs@.len(),
                        Seq::new(out@.len(), |j: int| out@[j]@) =~= tx_bytes(txs@).take(i as int),
                    decreases txs@.len() - i,
                {
                    let ghost before = out@;
                    let b = clone_bytes(&txs[i].0);
                    out.push(b);
                    assert(Seq::new(out@.len(), |j: int| out@[j]@) =~= Seq::new(
                        before.len(),
                        |j: int| before[j]@,
                    ).push(tx_bytes(txs@)[i as int]));
                    assert(tx_bytes(txs@).take(i + 1) =~= tx_bytes(txs@).take(i as int).push(
                        tx_bytes(txs@)[i as int],
                    ));
                    i = i + 1;
                }
                assert(tx_bytes(txs@).take(txs@.len() as int) =~= tx_bytes(txs@));
                let r = RawData { txs: out };
                assert(raw_view(r) =~= tx_bytes(txs@));
                r
            },
        }
    }
}

/// The spec of [`Data::from_raw`]: what the collection's view is after the conversion.
pub open spec fn data_view_of_raw(raw: RawData) -> Option<Seq<Seq<u8>>> {
    if raw_view(raw).len() == 0 {
        None
    } else {
        Some(raw_view(raw))
    }
}

/// Converting raw block data to a collection of transactions and back gives
/// the same byte strings.
pub proof fn lemma_raw_roundtrip(raw: RawData, d: Data)
    requires
        d@ == data_view_of_raw(raw),
    ensures
        d.transactions() == raw_view(raw),
{
}

/// Converting a collection of transactions to raw block data and back gives
/// the same collection, except that a collection holding no transactions
/// comes back as an empty one.
pub proof fn lemma_data_roundtrip(d: Data, raw: RawData)
    requires
        raw_view(raw) == d.transactions(),
    ensures
        data_view_of_raw(raw) == (if d@ == Some(Seq::<Seq<u8>>::empty()) {
            None
        } else {
            d@
        }),
{
    if let Some(t) = d@ {
        if t.len() == 0 {
            assert(t =~= Seq::<Seq<u8>>::empty());
        }
    }
}

} // verus!
