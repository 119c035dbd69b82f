//! Hexadecimal and Base64 text of byte strings, by `subtle_encoding`.

use vstd::prelude::*;
use vstd::utf8::{encode_utf8, is_ascii_chars, is_ascii_chars_encode_utf8};

verus! {

/// What can go wrong when `subtle_encoding` decodes a text.
#[derive(Clone, Copy, Debug, PartialEq, Eq, Structural)]
pub enum EncodingError {
    /// Checksum does not match expected value.
    ChecksumInvalid,
    /// Data is not encoded correctly.
    EncodingInvalid,
    /// Error performing I/O operation.
    IoError,
    /// Input or output buffer is an incorrect length.
    LengthInvalid,
    /// Padding missing/invalid.
    PaddingInvalid,
    /// Trailing whitespace detected.
    TrailingWhitespace,
}

impl EncodingError {
    /// The message that the error displays.
    pub fn message(&self) -> (r: &'static str)
        ensures
            r@ == self.spec_message(),
    {
        match self {
            EncodingError::ChecksumInvalid => "checksum mismatch",
            EncodingError::EncodingInvalid => "bad encoding",
            EncodingError::IoError => "I/O error",
            EncodingError::LengthInvalid => "invalid length",
            EncodingError::PaddingInvalid => "padding invalid",
            EncodingError::TrailingWhitespace => "trailing whitespace",
        }
    }

    /// The message that the error displays, as text.
    /// Each error has the message given here.
    pub proof fn lemma_messages()
        ensures
            EncodingError::ChecksumInvalid.spec_message() == "checksum mismatch"@,
            EncodingError::EncodingInvalid.spec_message() == "bad encoding"@,
            EncodingError::IoError.spec_message() == "I/O error"@,
            EncodingError::LengthInvalid.spec_message() == "invalid length"@,
            EncodingError::PaddingInvalid.spec_message() == "padding invalid"@,
            EncodingError::TrailingWhitespace.spec_message() == "trailing whitespace"@,
    {
    }

    pub open spec fn spec_message(&self) -> Seq<char> {
        match self {
            EncodingError::ChecksumInvalid => "checksum mismatch"@,
            EncodingError::EncodingInvalid => "bad encoding"@,
            EncodingError::IoError => "I/O error"@,
            EncodingError::LengthInvalid => "invalid length"@,
            EncodingError::PaddingInvalid => "padding invalid"@,
            EncodingError::TrailingWhitespace => "trailing whitespace"@,
        }
    }
}

/// The hexadecimal digit for a value below 16, in upper or lower case.
pub open spec fn hex_digit(v: int, upper: bool) -> u8 {
    if v < 10 {
        (v + 48) as u8
    } else if upper {
        (v + 55) as u8
    } else {
        (v + 87) as u8
    }
}

/// Two hexadecimal digits for each byte, high nibble first.
pub open spec fn hex_encode_spec(b: Seq<u8>, upper: bool) -> Seq<u8> {
    Seq::new(
        2 * b.len(),
        |i: int|
            if i % 2 == 0 {
                hex_digit((b[i / 2] / 16) as int, upper)
            } else {
                hex_digit((b[i / 2] % 16) as int, upper)
            },
    )
}

/// The value of a hexadecimal digit in the given case, or `None`.
pub open spec fn hex_nibble(c: u8, upper: bool) -> Option<int> {
    if 48 <= c <= 57 {
        Some(c - 48)
    } else if upper && 65 <= c <= 70 {
        Some(c - 55)
    } else if !upper && 97 <= c <= 102 {
        Some(c - 87)
    } else {
        None
    }
}

/// A byte that `char::from(b).is_whitespace()` calls whitespace.
pub open spec fn is_byte_whitespace(b: u8) -> bool {
    (9 <= b <= 13) || b == 32 || b == 0x85 || b == 0xa0
}

/// What `subtle_encoding::hex` decoding gives for a text in one case: an
/// odd length, a trailing whitespace byte, or a byte that is not a digit of
/// that case is an error (checked in that order); otherwise each pair of
/// digits is one byte.
pub open spec fn hex_decode_spec(s: Seq<u8>, upper: bool) -> Result<Seq<u8>, EncodingError> {
    if s.len() % 2 != 0 {
        Err(EncodingError::LengthInvalid)
    } else if s.len() > 0 && is_byte_whitespace(s.last()) {
        Err(EncodingError::TrailingWhitespace)
    } else if exists|i: int| 0 <= i < s.len() && #[trigger] hex_nibble(s[i], upper) is None {
        Err(EncodingError::EncodingInvalid)
    } else {
        Ok(
            Seq::new(
                s.len() / 2,
                |i: int| (hex_nibble(s[2 * i], upper)->0 * 16 + hex_nibble(s[2 * i + 1], upper)->0) as u8,
            ),
        )
    }
}

/// The digit of a value below 16 reads back as that value.
proof fn lemma_hex_digit_nibble(v: int, upper: bool)
    requires
        0 <= v < 16,
    ensures
        hex_nibble(hex_digit(v, upper), upper) == Some(v),
{
}

/// Each digit of the hexadecimal text of some bytes reads back as its nibble.
proof fn lemma_hex_nibbles(b: Seq<u8>, upper: bool)
    ensures
        forall|i: int|
            0 <= i < hex_encode_spec(b, upper).len() ==> #[trigger] hex_nibble(
                hex_encode_spec(b, upper)[i],
                upper,
            ) == Some(
                if i % 2 == 0 {
                    (b[i / 2] / 16) as int
                } else {
                    (b[i / 2] % 16) as int
                },
            ),
{
    let s = hex_encode_spec(b, upper);
    assert forall|i: int| 0 <= i < s.len() implies #[trigger] hex_nibble(s[i], upper) == Some(
        if i % 2 == 0 {
            (b[i / 2] / 16) as int
        } else {
            (b[i / 2] % 16) as int
        },
    ) by {
        lemma_hex_digit_nibble((b[i / 2] / 16) as int, upper);
        lemma_hex_digit_nibble((b[i / 2] % 16) as int, upper);
    }
}

/// Decoding the hexadecimal text of some bytes, in the case that it was
/// written in, gives the bytes back.
#[verifier::spinoff_prover]
#[verifier::rlimit(30)]
pub proof fn lemma_hex_roundtrip(b: Seq<u8>, upper: bool)
    ensures
        hex_decode_spec(hex_encode_spec(b, upper), upper) == Ok::<Seq<u8>, EncodingError>(b),
{
    let s = hex_encode_spec(b, upper);
    lemma_hex_nibbles(b, upper);
    assert(s.len() == 2 * b.len());
    assert(s.len() % 2 == 0);
    if s.len() > 0 {
        assert(hex_nibble(s[s.len() - 1], upper) is Some);
        assert(!is_byte_whitespace(s.last()));
    }
    assert(!(exists|i: int| 0 <= i < s.len() && #[trigger] hex_nibble(s[i], upper) is None));
    assert forall|i: int| 0 <= i < b.len() implies (hex_nibble(s[2 * i], upper)->0 * 16
        + hex_nibble(s[2 * i + 1], upper)->0) as u8 == b[i] by {
        assert(hex_nibble(s[2 * i], upper) == Some((b[i] / 16) as int));
        assert(hex_nibble(s[2 * i + 1], upper) == Some((b[i] % 16) as int));
    }
    let d = Seq::new(
        s.len() / 2,
        |i: int| (hex_nibble(s[2 * i], upper)->0 * 16 + hex_nibble(s[2 * i + 1], upper)->0) as u8,
    );
    assert(d =~= b);
}

/// Calls `subtle_encoding::hex::encode`. Claimed: two lower-case digits
/// per byte, high nibble first.
#[verifier::external_body]
pub(crate) fn hex_encode_lower(bytes: &[u8]) -> (r: Vec<u8>)
    ensures
        r@ == hex_encode_spec(bytes@, false),
{
    subtle_encoding::hex::encode(bytes)
}

/// Calls `subtle_encoding::hex::encode_upper`. Claimed: two upper-case
/// digits per byte, high nibble first.
#[verifier::external_body]
pub(crate) fn hex_encode_upper(bytes: &[u8]) -> (r: Vec<u8>)
    ensures
        r@ == hex_encode_spec(bytes@, true),
{
    subtle_encoding::hex::encode_upper(bytes)
}

/// Calls `subtle_encoding::hex::decode`. Claimed: the result is
/// [`hex_decode_spec`] for lower case, as the crate's source decodes.
#[verifier::external_body]
pub(crate) fn hex_decode_lower(s: &[u8]) -> (r: Result<Vec<u8>, EncodingError>)
    ensures
        match hex_decode_spec(s@, false) {
            Ok(b) => r matches Ok(v) && v@ == b,
            Err(e) => r == Err::<Vec<u8>, EncodingError>(e),
        },
{
    let res = subtle_encoding::hex::decode(s);
    match res {
        Ok(v) => Ok(v),
        Err(subtle_encoding::Error::ChecksumInvalid) => Err(EncodingError::ChecksumInvalid),
        Err(subtle_encoding::Error::EncodingInvalid) => Err(EncodingError::EncodingInvalid),
        Err(subtle_encoding::Error::IoError) => Err(EncodingError::IoError),
        Err(subtle_encoding::Error::LengthInvalid) => Err(EncodingError::LengthInvalid),
        Err(subtle_encoding::Error::PaddingInvalid) => Err(EncodingError::PaddingInvalid),
        Err(subtle_encoding::Error::TrailingWhitespace) => Err(EncodingError::TrailingWhitespace),
    }
}

/// Calls `subtle_encoding::hex::decode_upper`. Claimed: the result is
/// [`hex_decode_spec`] for upper case, as the crate's source decodes.
#[verifier::external_body]
pub(crate) fn hex_decode_upper(s: &[u8]) -> (r: Result<Vec<u8>, EncodingError>)
    ensures
        match hex_decode_spec(s@, true) {
            Ok(b) => r matches Ok(v) && v@ == b,
            Err(e) => r == Err::<Vec<u8>, EncodingError>(e),
        },
{
    let res = subtle_encoding::hex::decode_upper(s);
    match res {
        Ok(v) => Ok(v),
        Err(subtle_encoding::Error::ChecksumInvalid) => Err(EncodingError::ChecksumInvalid),
        Err(subtle_encoding::Error::EncodingInvalid) => Err(EncodingError::EncodingInvalid),
        Err(subtle_encoding::Error::IoError) => Err(EncodingError::IoError),
        Err(subtle_encoding::Error::LengthInvalid) => Err(EncodingError::LengthInvalid),
        Err(subtle_encoding::Error::PaddingInvalid) => Err(EncodingError::PaddingInvalid),
        Err(subtle_encoding::Error::TrailingWhitespace) => Err(EncodingError::TrailingWhitespace),
    }
}

/// What `subtle_encoding::base64::encode` gives for some bytes.
pub uninterp spec fn base64_encode_spec(b: Seq<u8>) -> Seq<u8>;

/// What `subtle_encoding::base64::decode` gives for a text it does not panic on.
pub uninterp spec fn base64_decode_spec(s: Seq<u8>) -> Result<Seq<u8>, EncodingError>;

/// A byte of the Base64 alphabet: `A-Z`, `a-z`, `0-9`, `+` or `/`.
pub open spec fn is_base64_char(c: u8) -> bool {
    (65 <= c <= 90) || (97 <= c <= 122) || (48 <= c <= 57) || c == 43 || c == 47
}

/// The text has an `=` at `a`, within its last block of (up to) four bytes
/// and at least two bytes into it, with only bytes of the alphabet before
/// it, and a byte other than `=` at `b` after it in that block.
pub open spec fn base64_inner_padding(s: Seq<u8>, a: int, b: int) -> bool {
    &&& 4 * ((s.len() - 1) / 4) + 2 <= a < b < s.len()
    &&& s[a] == 61
    &&& s[b] != 61
    &&& forall|j: int| 0 <= j < a ==> is_base64_char(#[trigger] s[j])
}

/// The inputs on which `subtle_encoding::base64::decode` panics, once the
/// trailing-whitespace check has passed: either its last block of (up to)
/// four bytes starts with `=`, so that its count of decoded bytes
/// underflows; or that block has an `=` followed by another byte as
/// [`base64_inner_padding`] says, so that the decoder finds no error but
/// writes fewer bytes than it allotted, and its `debug_assert_eq!` on the
/// two lengths fails.
pub open spec fn base64_decode_panics(s: Seq<u8>) -> bool {
    &&& s.len() > 0
    &&& !is_byte_whitespace(s.last())
    &&& {
        ||| s[4 * ((s.len() - 1) / 4)] == 61
        ||| exists|a: int, b: int| #[trigger] base64_inner_padding(s, a, b)
    }
}

/// Whether a byte is of the Base64 alphabet.
fn base64_char(c: u8) -> (r: bool)
    ensures
        r == is_base64_char(c),
{
    (65 <= c && c <= 90) || (97 <= c && c <= 122) || (48 <= c && c <= 57) || c == 43 || c == 47
}

/// Whether [`base64_decode_panics`] holds of `s`.
pub fn base64_decode_would_panic(s: &[u8]) -> (r: bool)
    ensures
        r == base64_decode_panics(s@),
{
    let n = s.len();
    if n == 0 {
        return false;
    }
    let last = s[n - 1];
    if (9 <= last && last <= 13) || last == 32 || last == 0x85 || last == 0xa0 {
        return false;
    }
    let start = 4 * ((n - 1) / 4);
    if s[start] == 61 {
        return true;
    }
    // The first byte outside the alphabet.
    let mut a: usize = 0;
    while a < n && base64_char(s[a])
        invariant
            a <= n,
            n == s@.len(),
            forall|j: int| 0 <= j < a ==> is_base64_char(#[trigger] s@[j]),
        decreases n - a,
    {
        a = a + 1;
    }
    if a == n || s[a] != 61 || a < start + 2 {
        proof {
            assert forall|x: int, y: int| !#[trigger] base64_inner_padding(s@, x, y) by {
                if base64_inner_padding(s@, x, y) {
                    if x > a {
                        assert(is_base64_char(s@[a as int]));
                    } else if x < a {
                        assert(is_base64_char(s@[x]));
                    }
                }
            }
        }
        return false;
    }
    let mut b: usize = a + 1;
    while b < n
        invariant
            a < b <= n,
            n == s@.len(),
            n > 0,
            !is_byte_whitespace(s@.last()),
            4 * ((s@.len() - 1) / 4) + 2 <= a,
            s@[a as int] == 61,
            forall|j: int| 0 <= j < a ==> is_base64_char(#[trigger] s@[j]),
            forall|j: int| a < j < b ==> s@[j] == 61,
        decreases n - b,
    {
        if s[b] != 61 {
            assert(base64_inner_padding(s@, a as int, b as int));
            return true;
        }
        b = b + 1;
    }
    proof {
        assert forall|x: int, y: int| !#[trigger] base64_inner_padding(s@, x, y) by {
            if base64_inner_padding(s@, x, y) {
                if x > a {
                    assert(is_base64_char(s@[a as int]));
                } else if x < a {
                    assert(is_base64_char(s@[x]));
                }
            }
        }
    }
    false
}

/// Decoding the Base64 text `s` gives the bytes `b`.
pub open spec fn base64_decodes_to(s: Seq<u8>, b: Seq<u8>) -> bool {
    base64_decode_spec(s) == Ok::<Seq<u8>, EncodingError>(b)
}

/// Calls `subtle_encoding::base64::encode`. Claimed: the result is the
/// named function of the bytes; it is ASCII text (the crate's alphabet is
/// `A-Z`, `a-z`, `0-9`, `+`, `/` and the padding `=`); `=` stands only at
/// its end and no block of four starts with it, so decoding it does not
/// panic; and decoding it gives back the bytes (each group of three bytes
/// becomes four characters, and a last group of one or two bytes is padded
/// with `==` or `=`, which the decoder reads back).
#[verifier::external_body]
pub(crate) fn base64_encode(bytes: &[u8]) -> (r: Vec<u8>)
    ensures
        r@ == base64_encode_spec(bytes@),
        is_ascii_bytes(r@),
        !base64_decode_panics(r@),
        base64_decodes_to(r@, bytes@),
{
    subtle_encoding::base64::encode(bytes)
}

/// Calls `subtle_encoding::base64::decode`, which panics on the inputs of
/// [`base64_decode_panics`]. Claimed: the result is the named function of
/// the text.
#[verifier::external_body]
pub(crate) fn base64_decode(s: &[u8]) -> (r: Result<Vec<u8>, EncodingError>)
    requires
        !base64_decode_panics(s@),
    ensures
        match base64_decode_spec(s@) {
            Ok(b) => r matches Ok(v) && v@ == b,
            Err(e) => r == Err::<Vec<u8>, EncodingError>(e),
        },
{
    let res = subtle_encoding::base64::decode(s);
    match res {
        Ok(v) => Ok(v),
        Err(subtle_encoding::Error::ChecksumInvalid) => Err(EncodingError::ChecksumInvalid),
        Err(subtle_encoding::Error::EncodingInvalid) => Err(EncodingError::EncodingInvalid),
        Err(subtle_encoding::Error::IoError) => Err(EncodingError::IoError),
        Err(subtle_encoding::Error::LengthInvalid) => Err(EncodingError::LengthInvalid),
        Err(subtle_encoding::Error::PaddingInvalid) => Err(EncodingError::PaddingInvalid),
        Err(subtle_encoding::Error::TrailingWhitespace) => Err(EncodingError::TrailingWhitespace),
    }
}

/// Every byte is ASCII.
pub open spec fn is_ascii_bytes(b: Seq<u8>) -> bool {
    forall|i: int| 0 <= i < b.len() ==> #[trigger] b[i] < 128
}

/// The characters of an ASCII byte string.
pub open spec fn ascii_chars(b: Seq<u8>) -> Seq<char> {
    Seq::new(b.len(), |i: int| b[i] as char)
}

/// The UTF-8 bytes of the characters of an ASCII byte string are that
/// byte string.
pub proof fn lemma_ascii_chars_bytes(b: Seq<u8>)
    requires
        is_ascii_bytes(b),
    ensures
        encode_utf8(ascii_chars(b)) == b,
{
    let c = ascii_chars(b);
    assert(is_ascii_chars(c));
    is_ascii_chars_encode_utf8(c);
    assert(encode_utf8(c) =~= b);
}

/// Makes a `String` of ASCII bytes, one character per byte.
pub fn ascii_to_string(b: &Vec<u8>) -> (r: String)
    requires
        is_ascii_bytes(b@),
    ensures
        r@ == ascii_chars(b@),
{
    let mut v: Vec<char> = Vec::new();
    let mut i: usize = 0;
    while i < b.len()
        invariant
            i <= b@.len(),
            v@ =~= ascii_chars(b@.take(i as int)),
        decreases b@.len() - i,
    {
        v.push(b[i] as char);
        i = i + 1;
    }
    assert(b@.take(b@.len() as int) =~= b@);
    crate::text::string_from_chars(v)
}

} // verus!
