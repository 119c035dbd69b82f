//! Transactions as a list of hexadecimal strings.

use vstd::prelude::*;
use vstd::utf8::{encode_utf8, is_ascii_chars, is_ascii_chars_encode_utf8};

use crate::encoding::{
    ascii_chars, ascii_to_string, hex_decode_lower, hex_decode_spec, hex_decode_upper,
    hex_encode_spec, hex_encode_upper, is_ascii_bytes, lemma_hex_roundtrip, EncodingError,
};

verus! {

/// The bytes that one hexadecimal transaction denotes: upper-case digits,
/// or else lower-case digits; the error is that of the lower-case reading.
pub open spec fn tx_from_hex(s: Seq<u8>) -> Result<Seq<u8>, EncodingError> {
    match hex_decode_spec(s, true) {
        Ok(b) => Ok(b),
        Err(_) => hex_decode_spec(s, false),
    }
}

/// Reads each text in order; the first that cannot be read gives its error.
pub open spec fn txs_from_hex(list: Seq<Seq<u8>>) -> Result<Seq<Seq<u8>>, EncodingError>
    decreases list.len(),
{
    if list.len() == 0 {
        Ok(Seq::empty())
    } else {
        match txs_from_hex(list.drop_last()) {
            Err(e) => Err(e),
            Ok(prefix) => match tx_from_hex(list.last()) {
                Err(e) => Err(e),
                Ok(b) => Ok(prefix.push(b)),
            },
        }
    }
}

/// The UTF-8 bytes of each string.
pub open spec fn strings_bytes(list: Seq<String>) -> Seq<Seq<u8>> {
    Seq::new(list.len(), |i: int| encode_utf8(list[i]@))
}

/// The bytes of each byte string.
pub open spec fn vecs_view(list: Seq<Vec<u8>>) -> Seq<Seq<u8>> {
    Seq::new(list.len(), |i: int| list[i]@)
}

/// Reads a list of hexadecimal strings into transactions: a missing or
/// empty list gives no transactions; otherwise each string is read as
/// [`txs_from_hex`] says.
pub fn deserialize(value: Option<Vec<String>>) -> (r: Result<Vec<Vec<u8>>, EncodingError>)
    ensures
        match value {
            None => r matches Ok(v) && v@.len() == 0,
            Some(list) => match txs_from_hex(strings_bytes(list@)) {
                Ok(txs) => r matches Ok(v) && vecs_view(v@) == txs,
                Err(e) => r == Err::<Vec<Vec<u8>>, EncodingError>(e),
            },
        },
{
    let list = match value {
        None => return Ok(Vec::new()),
        Some(list) => list,
    };
    let ghost all = strings_bytes(list@);
    let mut out: Vec<Vec<u8>> = Vec::new();
    let mut i: usize = 0;
    assert(all.take(0) =~= Seq::<Seq<u8>>::empty());
    assert(vecs_view(out@) =~= Seq::<Seq<u8>>::empty());
    while i < list.len()
        invariant
            value == Some(list),
            i <= list@.len(),
            all == strings_bytes(list@),
            txs_from_hex(all.take(i as int)) == Ok::<Seq<Seq<u8>>, EncodingError>(vecs_view(out@)),
        decreases list@.len() - i,
    {
        let bytes = list[i].as_str().as_bytes();
        proof {
            assert(all.take(i + 1).drop_last() =~= all.take(i as int));
            assert(all.take(i + 1).last() == bytes@);
        }
        let decoded = match hex_decode_upper(bytes) {
            Ok(v) => v,
            Err(_) => match hex_decode_lower(bytes) {
                Ok(v) => v,
                Err(e) => {
                    proof {
                        assert(tx_from_hex(bytes@) == Err::<Seq<u8>, EncodingError>(e));
                        assert(txs_from_hex(all.take(i + 1)) == Err::<Seq<Seq<u8>>, EncodingError>(e));
                        lemma_txs_prefix_error(all, i + 1, all.len() as int);
                        assert(all.take(all.len() as int) =~= all);
                    }
                    return Err(e);
                },
            },
        };
        let ghost before = out@;
        out.push(decoded);
        assert(vecs_view(out@) =~= vecs_view(before).push(decoded@));
        i = i + 1;
    }
    assert(all.take(list@.len() as int) =~= all);
    Ok(out)
}

/// Once a prefix of the list fails, the whole list fails with the same error.
proof fn lemma_txs_prefix_error(list: Seq<Seq<u8>>, mid: int, hi: int)
    requires
        0 <= mid <= hi <= list.len(),
        txs_from_hex(list.take(mid)) is Err,
    ensures
        txs_from_hex(list.take(hi)) == txs_from_hex(list.take(mid)),
    decreases hi - mid,
{
    if hi > mid {
        lemma_txs_prefix_error(list, mid, hi - 1);
        assert(list.take(hi).drop_last() =~= list.take(hi - 1));
    }
}

/// Writes transactions as upper-case hexadecimal strings; no transactions
/// are written as nothing (`None`, a JSON `null`).
pub fn serialize(value: &[Vec<u8>]) -> (r: Option<Vec<String>>)
    ensures
        value@.len() == 0 ==> r is None,
        value@.len() > 0 ==> (r matches Some(list) && list@.len() == value@.len() && forall|i: int|
            0 <= i < value@.len() ==> #[trigger] list@[i]@ == ascii_chars(
                hex_encode_spec(value@[i]@, true),
            )),
{
    if value.len() == 0 {
        return None;
    }
    let mut out: Vec<String> = Vec::new();
    let mut i: usize = 0;
    while i < value.len()
        invariant
            i <= value@.len(),
            out@.len() == i,
            forall|j: int| 0 <= j < i ==> #[trigger] out@[j]@ == ascii_chars(
                hex_encode_spec(value@[j]@, true),
            ),
        decreases value@.len() - i,
    {
        let hex = hex_encode_upper(value[i].as_slice());
        proof {
            lemma_hex_ascii(value@[i as int]@, true);
        }
        let s = ascii_to_string(&hex);
        out.push(s);
        i = i + 1;
    }
    Some(out)
}

/// Hexadecimal text is ASCII.
pub proof fn lemma_hex_ascii(b: Seq<u8>, upper: bool)
    ensures
        is_ascii_bytes(hex_encode_spec(b, upper)),
{
    assert forall|i: int| 0 <= i < hex_encode_spec(b, upper).len() implies #[trigger] hex_encode_spec(
        b,
        upper,
    )[i] < 128 by {
        let x = b[i / 2];
        assert(x / 16 < 16 && x % 16 < 16);
    }
}

/// The upper-case hexadecimal texts of some transactions read back as those
/// transactions.
proof fn lemma_hex_texts_read_back(w: Seq<Seq<u8>>)
    ensures
        txs_from_hex(Seq::new(w.len(), |i: int| hex_encode_spec(w[i], true))) == Ok::<
            Seq<Seq<u8>>,
            EncodingError,
        >(w),
    decreases w.len(),
{
    let texts = Seq::new(w.len(), |i: int| hex_encode_spec(w[i], true));
    if w.len() > 0 {
        lemma_hex_texts_read_back(w.drop_last());
        assert(texts.drop_last() =~= Seq::new(
            w.drop_last().len(),
            |i: int| hex_encode_spec(w.drop_last()[i], true),
        ));
        lemma_hex_roundtrip(w.last(), true);
        assert(w.drop_last().push(w.last()) =~= w);
    } else {
        assert(w =~= Seq::<Seq<u8>>::empty());
    }
}

/// Transactions that [`serialize`] writes as hexadecimal strings are read
/// back by [`deserialize`] as themselves.
pub proof fn lemma_txs_roundtrip(list: Seq<String>, v: Seq<Vec<u8>>)
    requires
        list.len() == v.len(),
        forall|i: int| 0 <= i < v.len() ==> #[trigger] list[i]@ == ascii_chars(
            hex_encode_spec(v[i]@, true),
        ),
    ensures
        txs_from_hex(strings_bytes(list)) == Ok::<Seq<Seq<u8>>, EncodingError>(vecs_view(v)),
{
    let w = vecs_view(v);
    assert forall|i: int| 0 <= i < list.len() implies #[trigger] strings_bytes(list)[i]
        == hex_encode_spec(w[i], true) by {
        let h = hex_encode_spec(w[i], true);
        lemma_hex_ascii(w[i], true);
        let c = ascii_chars(h);
        assert(list[i]@ == c);
        assert(is_ascii_chars(c));
        is_ascii_chars_encode_utf8(c);
        assert(encode_utf8(c) =~= h);
    }
    assert(strings_bytes(list) =~= Seq::new(w.len(), |i: int| hex_encode_spec(w[i], true)));
    lemma_hex_texts_read_back(w);
}

} // verus!
