//! Durations as their number of nanoseconds in a string.

use vstd::prelude::*;
use vstd::string::StringSliceAdditionalSpecFns;

use vstd::utf8::{encode_utf8, is_ascii_chars_encode_utf8};

use crate::decimal::{
    ascii_bytes, dec_chars, lemma_dec_chars_ascii, lemma_dec_chars_value, lemma_parse_all_digits,
    parse_integer, parse_unsigned, push_dec, IntErrorKind,
};
use crate::text::string_from_chars;

verus! {

/// Reads the nanoseconds of a duration from a string, as `str::parse::<u64>` reads them.
pub fn deserialize(s: &str) -> (r: Result<u64, IntErrorKind>)
    ensures
        match parse_integer(s.spec_bytes(), false, u64::MAX as int) {
            Ok(n) => r == Ok::<u64, IntErrorKind>(n as u64),
            Err(e) => r == Err::<u64, IntErrorKind>(e),
        },
{
    let b = s.as_bytes();
    assert(b@.subrange(0, b@.len() as int) =~= b@);
    parse_unsigned(b, 0, b.len(), 0xffff_ffff_ffff_ffff)
}

/// Writes the nanoseconds of a duration in decimal.
pub fn serialize(nanos: u128) -> (r: String)
    ensures
        r@ == dec_chars(nanos as nat),
{
    let mut out: Vec<char> = Vec::new();
    push_dec(&mut out, nanos);
    string_from_chars(out)
}

/// The nanoseconds that [`serialize`] writes are read back by
/// [`deserialize`] as the same number, for every number that fits in a
/// `u64`.
pub proof fn lemma_nanos_roundtrip(n: nat)
    requires
        n <= u64::MAX,
    ensures
        parse_integer(encode_utf8(dec_chars(n)), false, u64::MAX as int) == Ok::<int, IntErrorKind>(
            n as int,
        ),
{
    let c = dec_chars(n);
    lemma_dec_chars_ascii(n);
    lemma_dec_chars_value(n);
    is_ascii_chars_encode_utf8(c);
    assert(encode_utf8(c) =~= ascii_bytes(c));
    lemma_parse_all_digits(ascii_bytes(c), u64::MAX as int, IntErrorKind::PosOverflow);
}

} // verus!
