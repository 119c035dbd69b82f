//! Utility methods.

use vstd::prelude::*;
use vstd::string::StringExecFns;
use vstd::string::StringSliceAdditionalSpecFns;
use vstd::utf8::encode_utf8;

use crate::encoding::{
    ascii_chars, ascii_to_string, base64_encode, base64_encode_spec, hex_encode_lower,
    hex_encode_spec,
};
use crate::serializers::txs::lemma_hex_ascii;

verus! {

/// The bytes of a version 4 (random) UUID made of 16 random bytes: the
/// version nibble set to 4 and the variant bits to RFC 4122.
pub open spec fn uuid_v4_bytes(b: Seq<u8>) -> Seq<u8> {
    b.update(6, (b[6] & 0x0f) | 0x40).update(8, (b[8] & 0x3f) | 0x80)
}

/// The lower-case hexadecimal text of some bytes.
pub open spec fn lower_hex(b: Seq<u8>) -> Seq<char> {
    ascii_chars(hex_encode_spec(b, false))
}

/// The hyphenated text of a UUID: groups of 4, 2, 2, 2 and 6 bytes in
/// lower-case hexadecimal, separated by `-`.
pub open spec fn uuid_hyphenated(b: Seq<u8>) -> Seq<char> {
    lower_hex(b.subrange(0, 4)) + seq!['-'] + lower_hex(b.subrange(4, 6)) + seq!['-'] + lower_hex(
        b.subrange(6, 8),
    ) + seq!['-'] + lower_hex(b.subrange(8, 10)) + seq!['-'] + lower_hex(b.subrange(10, 16))
}

/// The text of some version 4 UUID.
pub open spec fn is_uuid_v4_text(s: Seq<char>) -> bool {
    exists|b: Seq<u8>| b.len() == 16 && s == uuid_hyphenated(uuid_v4_bytes(b))
}

/// Fills 16 bytes by `getrandom::getrandom`. Claimed: nothing of the
/// bytes, which come from the operating system's random source; `None`
/// where it reports an error.
#[verifier::external_body]
fn random_bytes() -> (r: Option<[u8; 16]>) {
    let mut bytes = [0u8; 16];
    match getrandom::getrandom(&mut bytes) {
        Ok(()) => Some(bytes),
        Err(_) => None,
    }
}

/// Builds a UUID of the bytes by `uuid::Builder::from_bytes`, setting the
/// RFC 4122 variant and the random version, and writes it by `to_string`.
/// Claimed: the text is the hyphenated lower-case form of the bytes with
/// the version and variant bits set, as the crate's source sets them.
#[verifier::external_body]
fn uuid_v4_text(bytes: [u8; 16]) -> (r: String)
    ensures
        r@ == uuid_hyphenated(uuid_v4_bytes(bytes@)),
{
    uuid::Builder::from_bytes(bytes).set_variant(uuid::Variant::RFC4122).set_version(
        uuid::Version::Random,
    ).build().to_string()
}

/// A random (version 4) UUID, as text; `None` where the random source fails.
pub fn uuid_v4() -> (r: Option<String>)
    ensures
        r matches Some(s) ==> is_uuid_v4_text(s@),
{
    match random_bytes() {
        None => None,
        Some(bytes) => {
            let s = uuid_v4_text(bytes);
            assert(bytes@.len() == 16 && s@ == uuid_hyphenated(uuid_v4_bytes(bytes@)));
            Some(s)
        },
    }
}

/// The `key=value` pair of a key-value store transaction, in Base64.
pub fn encode_kvpair(key: &str, value: &str) -> (r: String)
    ensures
        r@ == ascii_chars(base64_encode_spec(encode_utf8(key@ + "="@ + value@))),
{
    let mut kvpair = key.to_owned();
    kvpair.append("=");
    kvpair.append(value);
    let encoded = base64_encode(kvpair.as_str().as_bytes());
    ascii_to_string(&encoded)
}

/// The bytes of a string in lower-case hexadecimal.
pub fn hex_string(s: &str) -> (r: String)
    ensures
        r@ == lower_hex(encode_utf8(s@)),
{
    let encoded = hex_encode_lower(s.as_bytes());
    proof {
        lemma_hex_ascii(s.spec_bytes(), false);
    }
    ascii_to_string(&encoded)
}

} // verus!
