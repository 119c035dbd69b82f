//! `google.protobuf.Any`: a serialized message with the URL of its type.

use vstd::prelude::*;
use vstd::string::{StringExecFns, StringSliceAdditionalSpecFns};
use vstd::utf8::encode_utf8;

use crate::text::str_eq;
use crate::encoding::{
    ascii_chars, ascii_to_string, base64_decode, base64_decode_panics, base64_decode_spec,
    base64_decodes_to, base64_encode, base64_encode_spec, lemma_ascii_chars_bytes, EncodingError,
};

verus! {

/// `Any` contains an arbitrary serialized protocol buffer message along with a
/// URL that describes the type of the serialized message.
///
/// In JSON, an `Any` is an object with two fields, each present only when
/// not empty: `typeUrl`, the type URL of the message, and `value`, the
/// Base64-encoded serialized message.
#[derive(Clone, Debug, PartialEq, Eq, Default)]
pub struct Any {
    /// A URL/resource name that uniquely identifies the type of the serialized
    /// protocol buffer message. This string must contain at least
    /// one "/" character. The last segment of the URL's path must represent
    /// the fully qualified name of the type (as in
    /// `path/google.protobuf.Duration`).
    pub type_url: String,
    /// Must be a valid serialized protocol buffer of the above specified type.
    pub value: Vec<u8>,
}

impl Any {
    /// The fields of the JSON object: the type URL unless it is empty, and
    /// the Base64 text of the value unless it is empty.
    pub fn json_fields(&self) -> (r: (Option<String>, Option<String>))
        ensures
            self.type_url@.len() == 0 ==> r.0 is None,
            self.type_url@.len() > 0 ==> (r.0 matches Some(u) && u@ == self.type_url@),
            self.value@.len() == 0 ==> r.1 is None,
            self.value@.len() > 0 ==> (r.1 matches Some(v) && v@ == ascii_chars(
                base64_encode_spec(self.value@),
            )),
            r.1 matches Some(v) ==> !base64_decode_panics(encode_utf8(v@)) && base64_decodes_to(
                encode_utf8(v@),
                self.value@,
            ),
    {
        let type_url = if self.type_url.as_str().is_empty() {
            None
        } else {
            Some(self.type_url.clone())
        };
        let value = if self.value.len() == 0 {
            None
        } else {
            let encoded = base64_encode(self.value.as_slice());
            proof {
                lemma_ascii_chars_bytes(encoded@);
            }
            Some(ascii_to_string(&encoded))
        };
        (type_url, value)
    }

    /// Reads the value from the Base64 text of the JSON `value` field.
    pub fn value_from_base64(s: &str) -> (r: Result<Vec<u8>, EncodingError>)
        requires
            !base64_decode_panics(s.spec_bytes()),
        ensures
            match base64_decode_spec(s.spec_bytes()) {
                Ok(b) => r matches Ok(v) && v@ == b,
                Err(e) => r == Err::<Vec<u8>, EncodingError>(e),
            },
    {
        base64_decode(s.as_bytes())
    }
}

/// A field of the JSON object of an [`Any`].
#[derive(Clone, Copy, Debug, PartialEq, Eq, Structural)]
pub enum AnyField {
    /// `typeUrl`, also read as `type_url`.
    TypeUrl,
    /// `value`.
    Value,
}

/// Why the JSON object of an [`Any`] cannot be read.
#[derive(Clone, Debug, PartialEq, Eq)]
pub enum AnyJsonError {
    /// A key that names no field; the key.
    UnknownField(String),
    /// A field that occurs twice.
    DuplicateField(AnyField),
    /// The `value` field is not Base64 text.
    Base64(EncodingError),
}

/// The field that a JSON key names, if any.
pub open spec fn any_field_of_key(key: Seq<char>) -> Option<AnyField> {
    if key == "typeUrl"@ || key == "type_url"@ {
        Some(AnyField::TypeUrl)
    } else if key == "value"@ {
        Some(AnyField::Value)
    } else {
        None
    }
}

/// The JSON keys are those of the protobuf JSON mapping: the type URL is
/// written as `typeUrl` and read as `typeUrl` or `type_url`, and the value
/// is written and read as `value`; no other key names a field.
pub proof fn lemma_any_field_keys()
    ensures
        AnyField::TypeUrl.spec_json_name() == "typeUrl"@,
        AnyField::Value.spec_json_name() == "value"@,
        any_field_of_key("typeUrl"@) == Some(AnyField::TypeUrl),
        any_field_of_key("type_url"@) == Some(AnyField::TypeUrl),
        any_field_of_key("value"@) == Some(AnyField::Value),
        forall|k: Seq<char>|
            k != "typeUrl"@ && k != "type_url"@ && k != "value"@ ==> #[trigger] any_field_of_key(k)
                is None,
{
    lemma_any_field_name_roundtrip(AnyField::TypeUrl);
    lemma_any_field_name_roundtrip(AnyField::Value);
    reveal_strlit("type_url");
    reveal_strlit("value");
    assert("type_url"@.len() != "value"@.len());
}

/// The name under which a field is written is read as that field.
pub proof fn lemma_any_field_name_roundtrip(f: AnyField)
    ensures
        any_field_of_key(f.spec_json_name()) == Some(f),
{
    reveal_strlit("typeUrl");
    reveal_strlit("type_url");
    reveal_strlit("value");
    assert("value"@.len() != "typeUrl"@.len());
    assert("value"@.len() != "type_url"@.len());
}

impl AnyField {
    /// The keys that name a field: `type_url`, `typeUrl` and `value`.
    pub fn keys() -> (r: [&'static str; 3])
        ensures
            r[0]@ == "type_url"@,
            r[1]@ == "typeUrl"@,
            r[2]@ == "value"@,
    {
        ["type_url", "typeUrl", "value"]
    }

    /// The name under which the field is written.
    pub open spec fn spec_json_name(self) -> Seq<char> {
        match self {
            AnyField::TypeUrl => "typeUrl"@,
            AnyField::Value => "value"@,
        }
    }

    /// The name under which the field is written.
    pub fn json_name(self) -> (r: &'static str)
        ensures
            r@ == self.spec_json_name(),
    {
        match self {
            AnyField::TypeUrl => "typeUrl",
            AnyField::Value => "value",
        }
    }

    /// The field that a JSON key names, or the error for an unknown key.
    pub fn from_key(key: &str) -> (r: Result<AnyField, AnyJsonError>)
        ensures
            match any_field_of_key(key@) {
                Some(f) => r == Ok::<AnyField, AnyJsonError>(f),
                None => r matches Err(AnyJsonError::UnknownField(k)) && k@ == key@,
            },
    {
        if str_eq(key, "typeUrl") || str_eq(key, "type_url") {
            Ok(AnyField::TypeUrl)
        } else if str_eq(key, "value") {
            Ok(AnyField::Value)
        } else {
            Err(AnyJsonError::UnknownField(key.to_string()))
        }
    }
}

/// The fields of the JSON object of an [`Any`] that have been read so far.
#[derive(Clone, Debug, PartialEq, Eq, Default)]
pub struct AnyFields {
    /// The type URL, once read.
    pub type_url: Option<String>,
    /// The value, once read and decoded.
    pub value: Option<Vec<u8>>,
}

impl AnyFields {
    /// No field read yet.
    pub fn new() -> (r: AnyFields)
        ensures
            r.type_url is None,
            r.value is None,
    {
        AnyFields { type_url: None, value: None }
    }

    /// Whether a field may still be read: refused if it was read before.
    /// This is checked before the field's value is read.
    pub fn expect_new(&self, field: AnyField) -> (r: Result<(), AnyJsonError>)
        ensures
            (match field {
                AnyField::TypeUrl => self.type_url is Some,
                AnyField::Value => self.value is Some,
            }) ==> r == Err::<(), AnyJsonError>(AnyJsonError::DuplicateField(field)),
            (match field {
                AnyField::TypeUrl => self.type_url is None,
                AnyField::Value => self.value is None,
            }) ==> r is Ok,
    {
        let seen = match field {
            AnyField::TypeUrl => self.type_url.is_some(),
            AnyField::Value => self.value.is_some(),
        };
        if seen {
            Err(AnyJsonError::DuplicateField(field))
        } else {
            Ok(())
        }
    }

    /// Takes the `typeUrl` field; refused if it was read before, and then
    /// nothing changes.
    pub fn read_type_url(&mut self, url: String) -> (r: Result<(), AnyJsonError>)
        ensures
            old(self).type_url is Some ==> r == Err::<(), AnyJsonError>(
                AnyJsonError::DuplicateField(AnyField::TypeUrl),
            ) && *final(self) == *old(self),
            old(self).type_url is None ==> r is Ok && final(self).type_url == Some(url)
                && final(self).value == old(self).value,
    {
        if self.type_url.is_some() {
            return Err(AnyJsonError::DuplicateField(AnyField::TypeUrl));
        }
        self.type_url = Some(url);
        Ok(())
    }

    /// Takes the `value` field, given as Base64 text; refused if it was read
    /// before or if the text does not decode, and then nothing changes.
    pub fn read_value(&mut self, text: &str) -> (r: Result<(), AnyJsonError>)
        requires
            !base64_decode_panics(text.spec_bytes()),
        ensures
            old(self).value is Some ==> r == Err::<(), AnyJsonError>(
                AnyJsonError::DuplicateField(AnyField::Value),
            ) && *final(self) == *old(self),
            old(self).value is None ==> match base64_decode_spec(text.spec_bytes()) {
                Ok(b) => {
                    &&& r is Ok
                    &&& final(self).value matches Some(v) && v@ == b
                    &&& final(self).type_url == old(self).type_url
                },
                Err(e) => r == Err::<(), AnyJsonError>(AnyJsonError::Base64(e))
                    && *final(self) == *old(self),
            },
    {
        if self.value.is_some() {
            return Err(AnyJsonError::DuplicateField(AnyField::Value));
        }
        match base64_decode(text.as_bytes()) {
            Ok(v) => {
                self.value = Some(v);
                Ok(())
            },
            Err(e) => Err(AnyJsonError::Base64(e)),
        }
    }

    /// The `Any` of the fields read, with an empty type URL or value for a
    /// field that was not there.
    pub fn finish(self) -> (r: Any)
        ensures
            r.type_url@ == (match self.type_url {
                Some(u) => u@,
                None => Seq::<char>::empty(),
            }),
            r.value@ == (match self.value {
                Some(v) => v@,
                None => Seq::<u8>::empty(),
            }),
    {
        let type_url = match self.type_url {
            Some(u) => u,
            None => String::new(),
        };
        let value = match self.value {
            Some(v) => v,
            None => Vec::new(),
        };
        Any { type_url, value }
    }
}


/// Index of the last `/` in `s`, or -1 where there is none.
pub open spec fn last_slash(s: Seq<char>) -> int
    decreases s.len(),
{
    if s.len() == 0 {
        -1
    } else if s.last() == '/' {
        s.len() - 1
    } else {
        last_slash(s.drop_last())
    }
}

/// The fully qualified name of the message type that a type URL names: the
/// last segment of its path, after the last `/`. There is none where the URL
/// has no `/`, or where the name is not canonical because it starts with `.`.
pub open spec fn type_url_name(url: Seq<char>) -> Option<Seq<char>> {
    let k = last_slash(url);
    if k < 0 {
        None
    } else {
        let name = url.skip(k + 1);
        if name.len() > 0 && name[0] == '.' {
            None
        } else {
            Some(name)
        }
    }
}

/// The last `/` is at `k` when no `/` follows it.
proof fn lemma_last_slash(s: Seq<char>, k: int)
    requires
        -1 <= k < s.len(),
        k >= 0 ==> s[k] == '/',
        forall|j: int| k < j < s.len() ==> s[j] != '/',
    ensures
        last_slash(s) == k,
    decreases s.len(),
{
    if s.len() > 0 && s.last() != '/' {
        lemma_last_slash(s.drop_last(), k);
    }
}

/// The fully qualified name of the message type that a type URL names, as
/// [`type_url_name`] says.
pub fn type_name_of_url(url: &str) -> (r: Option<&str>)
    ensures
        match type_url_name(url@) {
            Some(n) => r matches Some(x) && x@ == n,
            None => r is None,
        },
{
    let n = url.unicode_len();
    let mut i: usize = n;
    while i > 0 && url.get_char(i - 1) != '/'
        invariant
            i <= n,
            n == url@.len(),
            forall|j: int| i <= j < n ==> url@[j] != '/',
        decreases i,
    {
        i = i - 1;
    }
    proof {
        lemma_last_slash(url@, i - 1);
    }
    if i == 0 {
        return None;
    }
    let name = url.substring_char(i, n);
    assert(name@ =~= url@.skip(i as int));
    if name.unicode_len() > 0 && name.get_char(0) == '.' {
        return None;
    }
    Some(name)
}

/// Whether an `Any` with type URL `actual` holds a message of the type that
/// the type URL `expected` names: both name a type, and the same one.
pub fn same_message_type(expected: &str, actual: &str) -> (r: bool)
    ensures
        r == (type_url_name(expected@) is Some && type_url_name(expected@) == type_url_name(
            actual@,
        )),
{
    match (type_name_of_url(expected), type_name_of_url(actual)) {
        (Some(e), Some(a)) => str_eq(e, a),
        _ => false,
    }
}

/// The message of the error for an `Any` whose type URL names another type.
pub fn type_url_mismatch_message(expected: &str, actual: &str) -> (r: String)
    ensures
        r@ == "expected type URL: \""@ + expected@ + "\" (got: \""@ + actual@ + "\")"@,
{
    let mut m = "expected type URL: \"".to_owned();
    m.append(expected);
    m.append("\" (got: \"");
    m.append(actual);
    m.append("\")");
    m
}

} // verus!
