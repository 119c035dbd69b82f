//! Optional timestamps as RFC 3339 text, read and written through `chrono`.

use chrono::{Datelike, TimeZone, Timelike};
use vstd::prelude::*;

use crate::decimal::{padded_dec, push_padded};
use crate::google::protobuf::Timestamp;
use crate::decimal::{digit_char, pow10};
use crate::serializers::timestamp::{
    date_time_text, decimal_field, digits_at, lemma_date_time_fields, lemma_fraction_digits,
    lemma_trim_end_concat, lemma_zero_fraction_digits, pop_trailing, trim_end, UtcFields,
};
use crate::text::string_from_chars;

verus! {

/// The UTC calendar fields of `chrono::Utc.timestamp_opt(secs, nanos)`, or
/// `None` where it gives no time.
pub uninterp spec fn chrono_utc_fields(secs: i64, nanos: u32) -> Option<(i32, u8, u8, u8, u8, u8, u32)>;

/// What `chrono::DateTime::parse_from_rfc3339` gives for a text: the parse
/// error's message, or the Unix timestamp and its sub-second nanoseconds.
pub uninterp spec fn chrono_rfc3339_parse(s: Seq<char>) -> Result<(i64, u32), Seq<char>>;

/// Calls `chrono::Utc.timestamp_opt(secs, nanos)` and reads the calendar
/// fields of the single time it gives. Claimed: the result is the named
/// function of the arguments; `Utc` never gives an ambiguous time (its
/// source maps every instant to one time or none); the nanosecond field is
/// the `nanos` argument, which the source only accepts below `2 * 10^9`.
#[verifier::external_body]
fn chrono_fields(secs: i64, nanos: u32) -> (r: Option<UtcFields>)
    ensures
        match chrono_utc_fields(secs, nanos) {
            None => r is None,
            Some(f) => r == Some(
                UtcFields {
                    year: f.0,
                    month: f.1,
                    day: f.2,
                    hour: f.3,
                    minute: f.4,
                    second: f.5,
                    nanosecond: f.6,
                },
            ),
        },
        r matches Some(f) ==> f.nanosecond == nanos && nanos < 2_000_000_000,
{
    match chrono::Utc.timestamp_opt(secs, nanos) {
        chrono::LocalResult::Single(t) => Some(
            UtcFields {
                year: t.year(),
                month: t.month() as u8,
                day: t.day() as u8,
                hour: t.hour() as u8,
                minute: t.minute() as u8,
                second: t.second() as u8,
                nanosecond: t.nanosecond(),
            },
        ),
        _ => None,
    }
}

/// Calls `chrono::DateTime::parse_from_rfc3339` and reads the Unix
/// timestamp and sub-second nanoseconds of the result. Claimed: the result
/// is the named function of the text (the error as its message); the
/// nanoseconds are below `2 * 10^9`, as chrono documents for leap seconds.
#[verifier::external_body]
fn chrono_parse(s: &str) -> (r: Result<(i64, u32), String>)
    ensures
        match r {
            Ok(v) => chrono_rfc3339_parse(s@) == Ok::<(i64, u32), Seq<char>>(v),
            Err(m) => chrono_rfc3339_parse(s@) == Err::<(i64, u32), Seq<char>>(m@),
        },
        r matches Ok(v) ==> v.1 < 2_000_000_000,
{
    match chrono::DateTime::parse_from_rfc3339(s) {
        Err(e) => Err(e.to_string()),
        Ok(t) => Ok((t.timestamp(), t.timestamp_subsec_nanos())),
    }
}

/// Why an optional timestamp has no text, or a text is not a timestamp.
#[derive(Clone, Debug, PartialEq, Eq)]
pub enum OptionTimestampError {
    /// There is no timestamp to write.
    NoTime,
    /// The nanoseconds are negative.
    InvalidNanoseconds,
    /// The instant lies outside the range of the date-time library.
    InvalidTime,
    /// The text is not an RFC 3339 date-time; the message is the parser's.
    Parse(String),
}

impl OptionTimestampError {
    /// The message of the error, as the serializer reports it.
    /// Each error has the message given here.
    pub proof fn lemma_messages()
        ensures
            OptionTimestampError::NoTime.spec_message() == "no time found"@,
            OptionTimestampError::InvalidNanoseconds.spec_message() == "invalid nanoseconds in time"@,
            OptionTimestampError::InvalidTime.spec_message() == "invalid time"@,
            forall|m: String| #[trigger] (OptionTimestampError::Parse(m)).spec_message() == m@,
    {
    }

    pub open spec fn spec_message(&self) -> Seq<char> {
        match self {
            OptionTimestampError::NoTime => "no time found"@,
            OptionTimestampError::InvalidNanoseconds => "invalid nanoseconds in time"@,
            OptionTimestampError::InvalidTime => "invalid time"@,
            OptionTimestampError::Parse(m) => m@,
        }
    }

    /// The message of the error, as the serializer reports it.
    pub fn message(&self) -> (r: String)
        ensures
            r@ == self.spec_message(),
    {
        match self {
            OptionTimestampError::NoTime => "no time found".to_owned(),
            OptionTimestampError::InvalidNanoseconds => "invalid nanoseconds in time".to_owned(),
            OptionTimestampError::InvalidTime => "invalid time".to_owned(),
            OptionTimestampError::Parse(m) => m.clone(),
        }
    }
}

/// The fraction that [`to_rfc3999`] writes, as Go's `time.RFC3339Nano` does:
/// `.` and the nanoseconds in decimal padded to nine digits, without
/// trailing zeros, and without the `.` if nothing is left.
pub open spec fn rfc3999_fraction(nanos: nat) -> Seq<char> {
    trim_end(trim_end(seq!['.'] + padded_dec(nanos, 9), '0'), '.')
}

/// The text that [`to_rfc3999`] writes for a date-time.
pub open spec fn rfc3999_text(t: UtcFields) -> Seq<char> {
    date_time_text(t) + rfc3999_fraction(t.nanosecond as nat) + seq!['Z']
}

/// Writes a date-time in UTC as Go's `time.RFC3339Nano` writes it:
/// `yyyy-mm-ddThh:mm:ss`, the nanoseconds padded to nine digits after a `.`
/// with trailing zeros removed (and the `.` too if nothing is left), and `Z`.
pub fn to_rfc3999(t: &UtcFields) -> (r: String)
    ensures
        r@ == rfc3999_text(*t),
{
    let mut nanos: Vec<char> = Vec::new();
    nanos.push('.');
    push_padded(&mut nanos, t.nanosecond as u128, 9);
    pop_trailing(&mut nanos, '0');
    pop_trailing(&mut nanos, '.');
    let mut out: Vec<char> = Vec::new();
    crate::serializers::timestamp::push_date_time(&mut out, t);
    let ghost head = out@;
    let mut i: usize = 0;
    while i < nanos.len()
        invariant
            i <= nanos.len(),
            out@ =~= head + nanos@.take(i as int),
        decreases nanos.len() - i,
    {
        out.push(nanos[i]);
        i = i + 1;
    }
    out.push('Z');
    assert(nanos@.take(nanos.len() as int) =~= nanos@);
    assert(out@ =~= rfc3999_text(*t));
    string_from_chars(out)
}

/// Serialize from an optional Timestamp into its text.
pub fn serialize(value: &Option<Timestamp>) -> (r: Result<String, OptionTimestampError>)
    ensures
        match value {
            None => r == Err::<String, OptionTimestampError>(OptionTimestampError::NoTime),
            Some(v) => if v.nanos < 0 {
                r == Err::<String, OptionTimestampError>(OptionTimestampError::InvalidNanoseconds)
            } else {
                match chrono_utc_fields(v.seconds, v.nanos as u32) {
                    None => r == Err::<String, OptionTimestampError>(
                        OptionTimestampError::InvalidTime,
                    ),
                    Some(f) => r matches Ok(s) && s@ == rfc3999_text(
                        crate::serializers::timestamp::utc_fields_of(f),
                    ),
                }
            },
        },
{
    let value = match value {
        Some(v) => v,
        None => return Err(OptionTimestampError::NoTime),
    };
    if value.nanos < 0 {
        return Err(OptionTimestampError::InvalidNanoseconds);
    }
    match chrono_fields(value.seconds, value.nanos as u32) {
        None => Err(OptionTimestampError::InvalidTime),
        Some(t) => Ok(to_rfc3999(&t)),
    }
}

/// Deserialize an RFC 3339 text into an optional Timestamp (never `None`).
pub fn deserialize(s: &str) -> (r: Result<Option<Timestamp>, OptionTimestampError>)
    ensures
        match chrono_rfc3339_parse(s@) {
            Err(m) => r matches Err(OptionTimestampError::Parse(e)) && e@ == m,
            Ok(p) => r == Ok::<Option<Timestamp>, OptionTimestampError>(
                Some(Timestamp { seconds: p.0, nanos: p.1 as i32 }),
            ),
        },
{
    match chrono_parse(s) {
        Err(e) => Err(OptionTimestampError::Parse(e)),
        Ok((seconds, nanos)) => Ok(Some(Timestamp { seconds, nanos: nanos as i32 })),
    }
}

/// The text that [`to_rfc3999`] writes shows the fields of the date-time:
/// the year in four digits (after a `-` for a negative year), then `-`, the
/// month and the day in two digits each, `T`, the hour, the minute and the
/// second in two digits each with `:` between them; then, for a fraction
/// that is not zero, `.` and one to nine digits without trailing zeros whose
/// value, scaled to nine digits, is the fraction; and `Z` at the end.
pub proof fn lemma_rfc3999_text_fields(t: UtcFields)
    requires
        -999 <= t.year <= 9999,
        t.month < 100,
        t.day < 100,
        t.hour < 100,
        t.minute < 100,
        t.second < 100,
        t.nanosecond < 1_000_000_000,
    ensures
        ({
            let s = rfc3999_text(t);
            &&& s.len() >= 20
            &&& t.year >= 0 ==> digits_at(s, 0, 4) && decimal_field(s, 0, 4) == t.year
            &&& t.year < 0 ==> s[0] == '-' && digits_at(s, 1, 4) && decimal_field(s, 1, 4) == -t.year
            &&& s[4] == '-' && s[7] == '-' && s[10] == 'T' && s[13] == ':' && s[16] == ':'
            &&& digits_at(s, 5, 7) && decimal_field(s, 5, 7) == t.month
            &&& digits_at(s, 8, 10) && decimal_field(s, 8, 10) == t.day
            &&& digits_at(s, 11, 13) && decimal_field(s, 11, 13) == t.hour
            &&& digits_at(s, 14, 16) && decimal_field(s, 14, 16) == t.minute
            &&& digits_at(s, 17, 19) && decimal_field(s, 17, 19) == t.second
            &&& s.last() == 'Z'
            &&& t.nanosecond == 0 ==> s.len() == 20
            &&& t.nanosecond != 0 ==> {
                &&& 21 <= s.len() <= 30
                &&& s[19] == '.'
                &&& s[s.len() - 2] != '0'
                &&& digits_at(s, 20, s.len() - 1)
                &&& decimal_field(s, 20, s.len() - 1) * pow10((30 - s.len()) as nat) == t.nanosecond
            }
        }),
{
    lemma_date_time_fields(t);
    let dt = date_time_text(t);
    let s = rfc3999_text(t);
    let n = t.nanosecond as nat;
    let p = padded_dec(n, 9);
    let f = trim_end(p, '0');
    lemma_trim_end_concat(seq!['.'], p, '0');
    if n != 0 {
        lemma_fraction_digits(n);
        let inner = seq!['.'] + f;
        let d = choose|d: int| 0 <= d < 10 && f.last() == digit_char(d);
        assert(inner.last() == f.last());
        assert(inner.last() != '.');
        assert(rfc3999_fraction(n) == inner);
        assert(s =~= dt + inner + seq!['Z']);
        assert(s.subrange(20, s.len() - 1) =~= f);
    } else {
        lemma_zero_fraction_digits();
        assert(trim_end(seq!['.'], '0') == seq!['.']);
        assert(seq!['.'].drop_last() =~= Seq::<char>::empty());
        assert(trim_end(seq!['.'], '.') == trim_end(Seq::<char>::empty(), '.'));
        assert(rfc3999_fraction(n) =~= Seq::<char>::empty());
        assert(s =~= dt + seq!['Z']);
    }
    assert(s.subrange(0, 19) =~= dt);
    assert forall|lo: int, hi: int| 0 <= lo <= hi <= 19 implies #[trigger] s.subrange(lo, hi)
        == dt.subrange(lo, hi) by {
        assert(s.subrange(lo, hi) =~= dt.subrange(lo, hi));
    }
    assert forall|i: int| 0 <= i < 19 implies #[trigger] s[i] == dt[i] by {
        assert(s.subrange(0, 19)[i] == s[i]);
    }
}

} // verus!
