//! Timestamps as RFC 3339 text with nanoseconds, the way Go's
//! `time.RFC3339Nano` writes them.

use vstd::prelude::*;

use crate::decimal::{
    all_digits, ascii_bytes, digits_value, lemma_digits_value_nonneg, lemma_padded_dec_value,
    padded_dec, pow10, push_padded, push_signed_padded, signed_padded,
};
use crate::google::protobuf::Timestamp;
use crate::text::string_from_chars;

verus! {

/// A point in time as calendar fields in UTC: what the date-time library
/// reports for a Unix timestamp.
#[derive(Clone, Copy, Debug, PartialEq, Eq, Structural)]
pub struct UtcFields {
    /// Year (proleptic Gregorian; may be zero or negative).
    pub year: i32,
    /// Month, `1..=12`.
    pub month: u8,
    /// Day of the month, `1..=31`.
    pub day: u8,
    /// Hour, `0..24`.
    pub hour: u8,
    /// Minute, `0..60`.
    pub minute: u8,
    /// Second, `0..60`.
    pub second: u8,
    /// Nanoseconds within the second.
    pub nanosecond: u32,
}

/// The UTC calendar fields that `time::OffsetDateTime::from_unix_timestamp_nanos`
/// gives for a number of nanoseconds since the Unix epoch, or `None` where
/// that function reports the instant out of its range.
pub uninterp spec fn time_utc_fields(nanos: int) -> Option<(i32, u8, u8, u8, u8, u8, u32)>;

/// What `time::OffsetDateTime::parse` with the `Rfc3339` format gives for a
/// text: the parse error's message, or the date-time converted to UTC by
/// `checked_to_offset` (`None` where that conversion leaves the supported
/// range of years) as its year, Unix timestamp and nanosecond.
pub uninterp spec fn time_rfc3339_parse(s: Seq<char>) -> Result<Option<(i32, i64, u32)>, Seq<char>>;

/// Calls `time::OffsetDateTime::from_unix_timestamp_nanos` and reads the
/// UTC calendar fields of the result. Claimed: the result is the named
/// function of the argument; the fields lie in their calendar ranges; the
/// nanosecond is the argument's remainder modulo `10^9` (as the library's
/// source computes it with `rem_euclid`).
#[verifier::external_body]
fn utc_fields_from_unix_nanos(total: i128) -> (r: Option<UtcFields>)
    ensures
        match time_utc_fields(total as int) {
            None => r is None,
            Some(f) => r == Some(
                UtcFields {
                    year: f.0,
                    month: f.1,
                    day: f.2,
                    hour: f.3,
                    minute: f.4,
                    second: f.5,
                    nanosecond: f.6,
                },
            ),
        },
        r matches Some(f) ==> 1 <= f.month <= 12 && 1 <= f.day <= 31 && f.hour < 24 && f.minute
            < 60 && f.second < 60 && f.nanosecond == total % 1_000_000_000,
{
    match time::OffsetDateTime::from_unix_timestamp_nanos(total) {
        Err(_) => None,
        Ok(t) => Some(
            UtcFields {
                year: t.year(),
                month: t.month() as u8,
                day: t.day(),
                hour: t.hour(),
                minute: t.minute(),
                second: t.second(),
                nanosecond: t.nanosecond(),
            },
        ),
    }
}

/// Calls `time::OffsetDateTime::parse` with the RFC 3339 format, then
/// `checked_to_offset(UtcOffset::UTC)`, and reads the year, Unix timestamp
/// and nanosecond of the result. Claimed: the result is the named function
/// of the text (the error as its message); the nanosecond is below `10^9`,
/// as the library's `nanosecond` documents.
#[verifier::external_body]
fn parse_rfc3339_utc(s: &str) -> (r: Result<Option<(i32, i64, u32)>, String>)
    ensures
        match r {
            Ok(v) => time_rfc3339_parse(s@) == Ok::<Option<(i32, i64, u32)>, Seq<char>>(v),
            Err(m) => time_rfc3339_parse(s@) == Err::<Option<(i32, i64, u32)>, Seq<char>>(m@),
        },
        r matches Ok(Some(v)) ==> v.2 < 1_000_000_000,
{
    match time::OffsetDateTime::parse(s, &time::format_description::well_known::Rfc3339) {
        Err(e) => Err(e.to_string()),
        Ok(t) => Ok(
            t.checked_to_offset(time::UtcOffset::UTC).map(
                |u| (u.year(), u.unix_timestamp(), u.nanosecond()),
            ),
        ),
    }
}

/// `s` with every `c` at its end removed.
pub open spec fn trim_end(s: Seq<char>, c: char) -> Seq<char>
    decreases s.len(),
{
    if s.len() > 0 && s.last() == c {
        trim_end(s.drop_last(), c)
    } else {
        s
    }
}

/// Removes every `c` at the end of `v`.
pub fn pop_trailing(v: &mut Vec<char>, c: char)
    ensures
        final(v)@ == trim_end(old(v)@, c),
{
    while v.len() > 0 && v[v.len() - 1] == c
        invariant
            trim_end(v@, c) == trim_end(old(v)@, c),
        decreases v.len(),
    {
        let ghost before = v@;
        v.pop();
        assert(v@ =~= before.drop_last());
    }
}

/// The text of a date-time in UTC as Go's `time.RFC3339Nano` writes it:
/// `yyyy-mm-ddThh:mm:ss`, then `.` and the nine-digit fraction without its
/// trailing zeros if the fraction is not zero, then `Z`.
pub open spec fn rfc3339_nanos_text(t: UtcFields) -> Seq<char> {
    let frac = if t.nanosecond == 0 {
        Seq::<char>::empty()
    } else {
        seq!['.'] + trim_end(padded_dec(t.nanosecond as nat, 9), '0')
    };
    date_time_text(t) + frac + seq!['Z']
}

/// `yyyy-mm-ddThh:mm:ss` for the fields of `t`.
pub open spec fn date_time_text(t: UtcFields) -> Seq<char> {
    date_text(t) + seq!['T'] + time_text(t)
}

/// `yyyy-mm-dd` for the fields of `t`.
pub open spec fn date_text(t: UtcFields) -> Seq<char> {
    signed_padded(t.year as int, 4) + seq!['-'] + padded_dec(t.month as nat, 2) + seq!['-']
        + padded_dec(t.day as nat, 2)
}

/// `hh:mm:ss` for the fields of `t`.
pub open spec fn time_text(t: UtcFields) -> Seq<char> {
    padded_dec(t.hour as nat, 2) + seq![':'] + padded_dec(t.minute as nat, 2) + seq![':']
        + padded_dec(t.second as nat, 2)
}

/// Appends `yyyy-mm-dd` for the fields of `t`.
fn push_date(f: &mut Vec<char>, t: &UtcFields)
    ensures
        final(f)@ == old(f)@ + date_text(*t),
{
    push_signed_padded(f, t.year as i64, 4);
    f.push('-');
    push_padded(f, t.month as u128, 2);
    f.push('-');
    push_padded(f, t.day as u128, 2);
    assert(f@ =~= old(f)@ + date_text(*t));
}

/// Appends `hh:mm:ss` for the fields of `t`.
fn push_time(f: &mut Vec<char>, t: &UtcFields)
    ensures
        final(f)@ == old(f)@ + time_text(*t),
{
    push_padded(f, t.hour as u128, 2);
    f.push(':');
    push_padded(f, t.minute as u128, 2);
    f.push(':');
    push_padded(f, t.second as u128, 2);
    assert(f@ =~= old(f)@ + time_text(*t));
}

/// Appends `yyyy-mm-ddThh:mm:ss` for the fields of `t`.
pub fn push_date_time(f: &mut Vec<char>, t: &UtcFields)
    ensures
        final(f)@ == old(f)@ + date_time_text(*t),
{
    push_date(f, t);
    f.push('T');
    push_time(f, t);
    assert(f@ =~= old(f)@ + date_time_text(*t));
}

/// Serialization helper for converting a date-time to a string.
///
/// This reproduces the behavior of Go's `time.RFC3339Nano` format,
/// ie. a RFC3339 date-time with left-padded subsecond digits without
///     trailing zeros and no trailing dot.
pub fn to_rfc3339_nanos(t: &UtcFields) -> (r: String)
    ensures
        r@ == rfc3339_nanos_text(*t),
{
    let mut buf: Vec<char> = Vec::new();
    fmt_as_rfc3339_nanos(t, &mut buf);
    string_from_chars(buf)
}

/// Helper for formatting a date-time value: appends its text as Go's
/// `time.RFC3339Nano` format writes it.
pub fn fmt_as_rfc3339_nanos(t: &UtcFields, f: &mut Vec<char>)
    ensures
        final(f)@ == old(f)@ + rfc3339_nanos_text(*t),
{
    push_date_time(f, t);
    let ghost head = f@;
    if t.nanosecond != 0 {
        f.push('.');
        let mut frac: Vec<char> = Vec::new();
        push_padded(&mut frac, t.nanosecond as u128, 9);
        pop_trailing(&mut frac, '0');
        let mut i: usize = 0;
        let ghost before = f@;
        while i < frac.len()
            invariant
                i <= frac.len(),
                f@ =~= before + frac@.take(i as int),
            decreases frac.len() - i,
        {
            f.push(frac[i]);
            i = i + 1;
        }
        assert(frac@.take(frac.len() as int) =~= frac@);
    }
    f.push('Z');
    assert(f@ =~= old(f)@ + rfc3339_nanos_text(*t));
}

/// Why a timestamp has no RFC 3339 text, or a text is not a timestamp.
#[derive(Clone, Debug, PartialEq, Eq)]
pub enum TimestampJsonError {
    /// The nanoseconds lie outside `0..=999_999_999`.
    InvalidNanoseconds,
    /// The instant lies outside the range of the date-time library.
    InvalidTime,
    /// The text is not an RFC 3339 date-time; the message is the parser's.
    Parse(String),
    /// The year of the date-time in UTC lies outside `1..=9999`.
    DateOutOfRange,
}

impl TimestampJsonError {
    /// The message of the error, as the serializer reports it.
    /// Each error has the message given here.
    pub proof fn lemma_messages()
        ensures
            TimestampJsonError::InvalidNanoseconds.spec_message() == "invalid nanoseconds in time"@,
            TimestampJsonError::InvalidTime.spec_message() == "invalid time"@,
            forall|m: String| #[trigger] (TimestampJsonError::Parse(m)).spec_message() == m@,
            TimestampJsonError::DateOutOfRange.spec_message() == "date is out of range"@,
    {
    }

    pub open spec fn spec_message(&self) -> Seq<char> {
        match self {
            TimestampJsonError::InvalidNanoseconds => "invalid nanoseconds in time"@,
            TimestampJsonError::InvalidTime => "invalid time"@,
            TimestampJsonError::Parse(m) => m@,
            TimestampJsonError::DateOutOfRange => "date is out of range"@,
        }
    }

    /// The message of the error, as the serializer reports it.
    pub fn message(&self) -> (r: String)
        ensures
            r@ == self.spec_message(),
    {
        match self {
            TimestampJsonError::InvalidNanoseconds => "invalid nanoseconds in time".to_owned(),
            TimestampJsonError::InvalidTime => "invalid time".to_owned(),
            TimestampJsonError::Parse(m) => m.clone(),
            TimestampJsonError::DateOutOfRange => "date is out of range".to_owned(),
        }
    }
}

/// The UTC fields of the named result, as a struct.
pub open spec fn utc_fields_of(f: (i32, u8, u8, u8, u8, u8, u32)) -> UtcFields {
    UtcFields {
        year: f.0,
        month: f.1,
        day: f.2,
        hour: f.3,
        minute: f.4,
        second: f.5,
        nanosecond: f.6,
    }
}

/// Serialize from Timestamp into its RFC 3339 text: the nanoseconds must
/// lie in `0..=999_999_999`, and the instant in the date-time library's range.
pub fn serialize(value: &Timestamp) -> (r: Result<String, TimestampJsonError>)
    ensures
        !(0 <= value.nanos <= 999_999_999) ==> r == Err::<String, TimestampJsonError>(
            TimestampJsonError::InvalidNanoseconds,
        ),
        0 <= value.nanos <= 999_999_999 ==> match time_utc_fields(value.total_nanos()) {
            None => r == Err::<String, TimestampJsonError>(TimestampJsonError::InvalidTime),
            Some(f) => r matches Ok(s) && s@ == rfc3339_nanos_text(utc_fields_of(f)),
        },
{
    if value.nanos < 0 || value.nanos > 999_999_999 {
        return Err(TimestampJsonError::InvalidNanoseconds);
    }
    let total_nanos: i128 = value.seconds as i128 * 1_000_000_000 + value.nanos as i128;
    match utc_fields_from_unix_nanos(total_nanos) {
        None => Err(TimestampJsonError::InvalidTime),
        Some(datetime) => Ok(to_rfc3339_nanos(&datetime)),
    }
}

/// The timestamp that the RFC 3339 reader makes of a parsed date-time in
/// UTC: its Unix seconds and nanoseconds, provided its year lies in `1..=9999`.
pub open spec fn timestamp_from_utc(year: i32, unix: i64, nanos: u32) -> Result<
    Timestamp,
    TimestampJsonError,
> {
    if !(1 <= year <= 9999) {
        Err(TimestampJsonError::DateOutOfRange)
    } else {
        Ok(Timestamp { seconds: unix, nanos: nanos as i32 })
    }
}

/// Makes a timestamp of a date-time read in UTC, as [`timestamp_from_utc`] says.
pub fn from_utc_parts(year: i32, unix: i64, nanos: u32) -> (r: Result<Timestamp, TimestampJsonError>)
    requires
        nanos < 1_000_000_000,
    ensures
        r == timestamp_from_utc(year, unix, nanos),
{
    if !(1 <= year && year <= 9999) {
        return Err(TimestampJsonError::DateOutOfRange);
    }
    // Safe to convert to i32 because the nanosecond is below 10^9.
    Ok(Timestamp { seconds: unix, nanos: nanos as i32 })
}

/// The conversion of the parsed date-time to UTC stays in range.
pub open spec fn rfc3339_converts(s: Seq<char>) -> bool {
    time_rfc3339_parse(s) != Ok::<Option<(i32, i64, u32)>, Seq<char>>(None)
}

/// Deserialize an RFC 3339 text into Timestamp.
pub fn deserialize(s: &str) -> (r: Result<Timestamp, TimestampJsonError>)
    requires
        rfc3339_converts(s@),
    ensures
        match time_rfc3339_parse(s@) {
            Err(m) => r matches Err(TimestampJsonError::Parse(e)) && e@ == m,
            Ok(None) => false,
            Ok(Some(p)) => r == timestamp_from_utc(p.0, p.1, p.2),
        },
{
    match parse_rfc3339_utc(s) {
        Err(e) => Err(TimestampJsonError::Parse(e)),
        Ok(None) => Err(TimestampJsonError::InvalidTime),
        Ok(Some((year, unix, nanos))) => from_utc_parts(year, unix, nanos),
    }
}

/// Deserializes like [`deserialize`], where the text's date-time can be
/// converted to UTC within the supported range of years; `None` where it
/// cannot.
pub fn try_deserialize(s: &str) -> (r: Option<Result<Timestamp, TimestampJsonError>>)
    ensures
        match time_rfc3339_parse(s@) {
            Err(m) => r matches Some(Err(TimestampJsonError::Parse(e))) && e@ == m,
            Ok(None) => r is None,
            Ok(Some(p)) => r == Some(timestamp_from_utc(p.0, p.1, p.2)),
        },
{
    match parse_rfc3339_utc(s) {
        Ok(None) => None,
        _ => Some(deserialize(s)),
    }
}

/// Helper struct to serialize and deserialize Timestamp into an
/// RFC3339-compatible string.
#[derive(Clone, Copy, Debug, PartialEq, Eq, Structural)]
pub struct Rfc3339(pub Timestamp);

impl From<Timestamp> for Rfc3339 {
    fn from(value: Timestamp) -> (r: Self)
        ensures
            r == Rfc3339(value),
    {
        Rfc3339(value)
    }
}

impl vstd::std_specs::convert::FromSpecImpl<Timestamp> for Rfc3339 {
    open spec fn obeys_from_spec() -> bool {
        true
    }

    open spec fn from_spec(v: Timestamp) -> Self {
        Rfc3339(v)
    }
}

impl From<Rfc3339> for Timestamp {
    fn from(value: Rfc3339) -> (r: Self)
        ensures
            r == value.0,
    {
        value.0
    }
}

impl vstd::std_specs::convert::FromSpecImpl<Rfc3339> for Timestamp {
    open spec fn obeys_from_spec() -> bool {
        true
    }

    open spec fn from_spec(v: Rfc3339) -> Self {
        v.0
    }
}

/// The number that the decimal digits of `s[lo..hi]` denote.
pub open spec fn decimal_field(s: Seq<char>, lo: int, hi: int) -> int {
    digits_value(ascii_bytes(s.subrange(lo, hi)))
}

/// `s[lo..hi]` is made of decimal digits.
pub open spec fn digits_at(s: Seq<char>, lo: int, hi: int) -> bool {
    all_digits(ascii_bytes(s.subrange(lo, hi)))
}

/// The bytes of all but the last character.
proof fn lemma_ascii_bytes_drop_last(c: Seq<char>)
    requires
        c.len() > 0,
    ensures
        ascii_bytes(c.drop_last()) == ascii_bytes(c).drop_last(),
        ascii_bytes(c).last() == c.last() as u8,
{
    assert(ascii_bytes(c.drop_last()) =~= ascii_bytes(c).drop_last());
}

/// Removing the trailing zeros of a run of digits leaves a prefix of it,
/// whose value times a power of ten (one for each zero removed) is the
/// value of the run.
pub proof fn lemma_trim_zeros_value(c: Seq<char>)
    requires
        all_digits(ascii_bytes(c)),
    ensures
        trim_end(c, '0').len() <= c.len(),
        trim_end(c, '0').len() > 0 ==> trim_end(c, '0').last() != '0',
        trim_end(c, '0') == c.subrange(0, trim_end(c, '0').len() as int),
        digits_value(ascii_bytes(trim_end(c, '0'))) * pow10((c.len() - trim_end(c, '0').len()) as nat)
            == digits_value(ascii_bytes(c)),
    decreases c.len(),
{
    let t = trim_end(c, '0');
    if c.len() > 0 && c.last() == '0' {
        let d = c.drop_last();
        lemma_ascii_bytes_drop_last(c);
        assert(all_digits(ascii_bytes(d))) by {
            assert forall|i: int| 0 <= i < ascii_bytes(d).len() implies crate::decimal::is_digit_byte(
                #[trigger] ascii_bytes(d)[i],
            ) by {
                assert(ascii_bytes(d)[i] == ascii_bytes(c)[i]);
            }
        }
        lemma_trim_zeros_value(d);
        assert(t == trim_end(d, '0'));
        let k = (d.len() - t.len()) as nat;
        assert(c.len() - t.len() == k + 1);
        assert(pow10(k + 1) == 10 * pow10(k));
        assert(pow10((c.len() - t.len()) as nat) == 10 * pow10(k));
        let v = digits_value(ascii_bytes(t));
        assert(v * pow10(k) == digits_value(ascii_bytes(d)));
        assert(ascii_bytes(c).last() == 48u8);
        assert(digits_value(ascii_bytes(c)) == digits_value(ascii_bytes(c).drop_last()) * 10 + (
        ascii_bytes(c).last() - 48));
        assert(digits_value(ascii_bytes(c)) == digits_value(ascii_bytes(d)) * 10);
        assert(v * (10 * pow10(k)) == (v * pow10(k)) * 10) by (nonlinear_arith);
        assert(v * pow10((c.len() - t.len()) as nat) == digits_value(ascii_bytes(c)));
        assert(t =~= c.subrange(0, t.len() as int));
    } else {
        assert(t == c);
        assert(c.subrange(0, c.len() as int) =~= c);
        assert(pow10(0) == 1);
        assert((c.len() - t.len()) as nat == 0nat);
        assert(pow10((c.len() - t.len()) as nat) == 1);
        assert(digits_value(ascii_bytes(t)) * pow10((c.len() - t.len()) as nat) == digits_value(
            ascii_bytes(c),
        ));
    }
}

/// Trimming the end of a concatenation trims the second part, and the first
/// one too where the second trims away entirely.
pub proof fn lemma_trim_end_concat(pre: Seq<char>, c: Seq<char>, x: char)
    ensures
        trim_end(pre + c, x) == (if trim_end(c, x).len() > 0 {
            pre + trim_end(c, x)
        } else {
            trim_end(pre, x)
        }),
    decreases c.len(),
{
    if c.len() == 0 {
        assert(pre + c =~= pre);
    } else if c.last() == x {
        assert((pre + c).drop_last() =~= pre + c.drop_last());
        lemma_trim_end_concat(pre, c.drop_last(), x);
    } else {
        assert((pre + c).last() == c.last());
    }
}

/// Digits that end in a digit other than zero denote at least one.
proof fn lemma_nonzero_digits_value(c: Seq<char>)
    requires
        c.len() > 0,
        c.last() != '0',
        exists|d: int| 0 <= d < 10 && c.last() == crate::decimal::digit_char(d),
        all_digits(ascii_bytes(c)),
    ensures
        digits_value(ascii_bytes(c)) >= 1,
{
    lemma_ascii_bytes_drop_last(c);
    assert(all_digits(ascii_bytes(c.drop_last()))) by {
        assert forall|i: int| 0 <= i < ascii_bytes(c.drop_last()).len() implies crate::decimal::is_digit_byte(
            #[trigger] ascii_bytes(c.drop_last())[i],
        ) by {
            assert(ascii_bytes(c.drop_last())[i] == ascii_bytes(c)[i]);
        }
    }
    lemma_digits_value_nonneg(ascii_bytes(c.drop_last()));
    assert(crate::decimal::is_digit_byte(ascii_bytes(c)[c.len() - 1]));
    let d = choose|d: int| 0 <= d < 10 && c.last() == crate::decimal::digit_char(d);
    assert(d != 0);
    assert(ascii_bytes(c).last() == d + 48);
}

/// Every character of a padded decimal text is a digit.
proof fn lemma_padded_dec_digit_chars(n: nat, w: nat)
    ensures
        forall|i: int|
            0 <= i < padded_dec(n, w).len() ==> exists|d: int|
                0 <= d < 10 && #[trigger] padded_dec(n, w)[i] == crate::decimal::digit_char(d),
{
    crate::decimal::lemma_dec_chars_digits(n);
    let c = crate::decimal::dec_chars(n);
    let p = padded_dec(n, w);
    assert forall|i: int| 0 <= i < p.len() implies exists|d: int|
        0 <= d < 10 && #[trigger] p[i] == crate::decimal::digit_char(d) by {
        if c.len() >= w {
            assert(p[i] == c[i]);
        } else if i < w - c.len() {
            assert(p[i] == '0');
            assert(crate::decimal::digit_char(0) == '0');
        } else {
            assert(p[i] == c[i - (w - c.len())]);
        }
    }
}

/// A zero fraction has no digits left once its zeros are trimmed.
pub proof fn lemma_zero_fraction_digits()
    ensures
        trim_end(padded_dec(0, 9), '0').len() == 0,
{
    let p = padded_dec(0, 9);
    assert(pow10(9) == 1_000_000_000) by {
        reveal_with_fuel(pow10, 10);
    }
    lemma_padded_dec_value(0, 9);
    lemma_trim_zeros_value(p);
    let f = trim_end(p, '0');
    if f.len() > 0 {
        assert(all_digits(ascii_bytes(f))) by {
            assert forall|i: int| 0 <= i < ascii_bytes(f).len() implies crate::decimal::is_digit_byte(
                #[trigger] ascii_bytes(f)[i],
            ) by {
                assert(ascii_bytes(f)[i] == ascii_bytes(p)[i]);
            }
        }
        lemma_padded_dec_digit_chars(0, 9);
        assert(f.last() == p[f.len() - 1]);
        lemma_nonzero_digits_value(f);
        crate::decimal::lemma_pow10_mono(0, (9 - f.len()) as nat);
        assert(pow10(0) == 1);
        let v = digits_value(ascii_bytes(f));
        let w = pow10((9 - f.len()) as nat);
        assert(v * w >= 1) by (nonlinear_arith)
            requires
                v >= 1,
                w >= 1,
        ;
    }
}

/// Trimming the zeros off nine digits of a non-zero fraction leaves one to
/// nine digits that end in a digit other than zero, and whose value, scaled
/// back to nine digits, is the fraction.
#[verifier::spinoff_prover]
pub proof fn lemma_fraction_digits(n: nat)
    requires
        0 < n < 1_000_000_000,
    ensures
        ({
            let f = trim_end(padded_dec(n, 9), '0');
            &&& 1 <= f.len() <= 9
            &&& f.last() != '0'
            &&& exists|d: int| 0 <= d < 10 && f.last() == crate::decimal::digit_char(d)
            &&& all_digits(ascii_bytes(f))
            &&& digits_value(ascii_bytes(f)) * pow10((9 - f.len()) as nat) == n
        }),
{
    let p = padded_dec(n, 9);
    assert(pow10(9) == 1_000_000_000) by {
        reveal_with_fuel(pow10, 10);
    }
    lemma_padded_dec_value(n, 9);
    lemma_trim_zeros_value(p);
    let f = trim_end(p, '0');
    assert(p.len() == 9);
    assert(f == p.subrange(0, f.len() as int));
    lemma_padded_dec_digit_chars(n, 9);
    if f.len() > 0 {
        assert(f.last() == p[f.len() - 1]);
    }
    assert(all_digits(ascii_bytes(f))) by {
        assert forall|i: int| 0 <= i < ascii_bytes(f).len() implies crate::decimal::is_digit_byte(
            #[trigger] ascii_bytes(f)[i],
        ) by {
            assert(ascii_bytes(f)[i] == ascii_bytes(p)[i]);
        }
    }
    if f.len() == 0 {
        assert(ascii_bytes(f) =~= Seq::<u8>::empty());
        assert(digits_value(ascii_bytes(f)) == 0);
        assert(0 * pow10((9 - f.len()) as nat) == 0);
        assert(false);
    }
}

/// The RFC 3339 text of a date-time shows its fields: the year in four
/// digits (after a `-` for a negative year), then `-`, the month and the
/// day in two digits each, `T`, the hour, the minute and the second in two
/// digits each with `:` between them; then, for a fraction that is not zero,
/// `.` and one to nine digits without trailing zeros whose value, scaled to
/// nine digits, is the fraction; and `Z` at the end.
pub proof fn lemma_rfc3339_text_fields(t: UtcFields)
    requires
        -999 <= t.year <= 9999,
        t.month < 100,
        t.day < 100,
        t.hour < 100,
        t.minute < 100,
        t.second < 100,
        t.nanosecond < 1_000_000_000,
    ensures
        ({
            let s = rfc3339_nanos_text(t);
            &&& s.len() >= 20
            &&& t.year >= 0 ==> digits_at(s, 0, 4) && decimal_field(s, 0, 4) == t.year
            &&& t.year < 0 ==> s[0] == '-' && digits_at(s, 1, 4) && decimal_field(s, 1, 4) == -t.year
            &&& s[4] == '-' && s[7] == '-' && s[10] == 'T' && s[13] == ':' && s[16] == ':'
            &&& digits_at(s, 5, 7) && decimal_field(s, 5, 7) == t.month
            &&& digits_at(s, 8, 10) && decimal_field(s, 8, 10) == t.day
            &&& digits_at(s, 11, 13) && decimal_field(s, 11, 13) == t.hour
            &&& digits_at(s, 14, 16) && decimal_field(s, 14, 16) == t.minute
            &&& digits_at(s, 17, 19) && decimal_field(s, 17, 19) == t.second
            &&& s.last() == 'Z'
            &&& t.nanosecond == 0 ==> s.len() == 20
            &&& t.nanosecond != 0 ==> {
                &&& 21 <= s.len() <= 30
                &&& s[19] == '.'
                &&& s[s.len() - 2] != '0'
                &&& digits_at(s, 20, s.len() - 1)
                &&& decimal_field(s, 20, s.len() - 1) * pow10((30 - s.len()) as nat) == t.nanosecond
            }
        }),
{
    lemma_date_time_fields(t);
    let s = rfc3339_nanos_text(t);
    let dt = date_time_text(t);
    if t.nanosecond != 0 {
        lemma_fraction_digits(t.nanosecond as nat);
        let f = trim_end(padded_dec(t.nanosecond as nat, 9), '0');
        assert(s == dt + (seq!['.'] + f) + seq!['Z']);
        assert(s.subrange(20, s.len() - 1) =~= f);
    } else {
        assert(s =~= dt + seq!['Z']);
    }
    assert(s.subrange(0, 19) =~= dt);
    lemma_date_time_prefix(s, dt);
}

/// A text that starts with the date-time text of `t` shows the same fields
/// in the same places.
proof fn lemma_date_time_prefix(s: Seq<char>, dt: Seq<char>)
    requires
        dt.len() == 19,
        s.len() >= 19,
        s.subrange(0, 19) == dt,
    ensures
        forall|lo: int, hi: int| 0 <= lo <= hi <= 19 ==> #[trigger] s.subrange(lo, hi) == dt.subrange(lo, hi),
        forall|i: int| 0 <= i < 19 ==> #[trigger] s[i] == dt[i],
{
    assert forall|lo: int, hi: int| 0 <= lo <= hi <= 19 implies #[trigger] s.subrange(lo, hi) == dt.subrange(lo, hi) by {
        assert(s.subrange(lo, hi) =~= dt.subrange(lo, hi));
    }
    assert forall|i: int| 0 <= i < 19 implies #[trigger] s[i] == dt[i] by {
        assert(s.subrange(0, 19)[i] == s[i]);
    }
}

/// The date-time text of `t` shows its fields in fixed places.
pub proof fn lemma_date_time_fields(t: UtcFields)
    requires
        -999 <= t.year <= 9999,
        t.month < 100,
        t.day < 100,
        t.hour < 100,
        t.minute < 100,
        t.second < 100,
    ensures
        ({
            let s = date_time_text(t);
            &&& s.len() == 19
            &&& t.year >= 0 ==> digits_at(s, 0, 4) && decimal_field(s, 0, 4) == t.year
            &&& t.year < 0 ==> s[0] == '-' && digits_at(s, 1, 4) && decimal_field(s, 1, 4) == -t.year
            &&& s[4] == '-' && s[7] == '-' && s[10] == 'T' && s[13] == ':' && s[16] == ':'
            &&& digits_at(s, 5, 7) && decimal_field(s, 5, 7) == t.month
            &&& digits_at(s, 8, 10) && decimal_field(s, 8, 10) == t.day
            &&& digits_at(s, 11, 13) && decimal_field(s, 11, 13) == t.hour
            &&& digits_at(s, 14, 16) && decimal_field(s, 14, 16) == t.minute
            &&& digits_at(s, 17, 19) && decimal_field(s, 17, 19) == t.second
        }),
{
    reveal_with_fuel(pow10, 5);
    let y = signed_padded(t.year as int, 4);
    let mo = padded_dec(t.month as nat, 2);
    let d = padded_dec(t.day as nat, 2);
    let h = padded_dec(t.hour as nat, 2);
    let mi = padded_dec(t.minute as nat, 2);
    let se = padded_dec(t.second as nat, 2);
    lemma_padded_dec_value(t.month as nat, 2);
    lemma_padded_dec_value(t.day as nat, 2);
    lemma_padded_dec_value(t.hour as nat, 2);
    lemma_padded_dec_value(t.minute as nat, 2);
    lemma_padded_dec_value(t.second as nat, 2);
    if t.year >= 0 {
        lemma_padded_dec_value(t.year as nat, 4);
        assert(y.len() == 4);
    } else {
        lemma_padded_dec_value((-t.year) as nat, 3);
        assert(y == seq!['-'] + padded_dec((-t.year) as nat, 3));
        assert(y.len() == 4);
        assert(y.subrange(1, 4) =~= padded_dec((-t.year) as nat, 3));
    }
    let s = date_time_text(t);
    assert(s =~= y + seq!['-'] + mo + seq!['-'] + d + seq!['T'] + h + seq![':'] + mi + seq![':'] + se);
    assert(s.subrange(0, 4) =~= y);
    assert(s.subrange(1, 4) =~= y.subrange(1, 4));
    assert(s.subrange(5, 7) =~= mo);
    assert(s.subrange(8, 10) =~= d);
    assert(s.subrange(11, 13) =~= h);
    assert(s.subrange(14, 16) =~= mi);
    assert(s.subrange(17, 19) =~= se);
}

} // verus!
