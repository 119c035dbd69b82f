//! `google.protobuf.Duration`: a signed span of time at nanosecond resolution.

use vstd::prelude::*;

use crate::arith::{lemma_i32_split, lemma_tdiv_props, lemma_tdiv_unique, tdiv, trem};
use crate::decimal::{
    all_digits, ascii_bytes, dec_chars, digits_value, is_digit_byte, lemma_ascii_bytes_concat,
    lemma_dec_chars_ascii, lemma_dec_chars_value, lemma_dec_len, lemma_digits_value_concat,
    lemma_padded_dec_ascii, lemma_padded_dec_value, lemma_parse_all_digits,
    lemma_parse_unsigned_pow, lemma_pow10_39, lemma_pow10_add, padded_dec, parse_i64,
    parse_integer, parse_unsigned, pow10, pow10_u32, push_padded, push_signed_dec, signed_dec,
    IntErrorKind,
};
use vstd::utf8::{encode_utf8, is_ascii_chars, is_ascii_chars_encode_utf8};
use crate::text::string_from_chars;
use vstd::string::StringSliceAdditionalSpecFns;

verus! {

/// A Duration represents a signed, fixed-length span of time represented
/// as a count of seconds and fractions of seconds at nanosecond
/// resolution. It is independent of any calendar and concepts like "day"
/// or "month". It is related to Timestamp in that the difference between
/// two Timestamp values is a Duration and it can be added or subtracted
/// from a Timestamp. Range is approximately +-10,000 years.
#[derive(Clone, Copy, Debug, PartialEq, Eq, Structural, Default)]
pub struct Duration {
    /// Signed seconds of the span of time.
    pub seconds: i64,
    /// Signed fractions of a second at nanosecond resolution of the span
    /// of time. Durations less than one second are represented with a 0
    /// `seconds` field and a positive or negative `nanos` field. For durations
    /// of one second or more, a non-zero value for the `nanos` field must be
    /// of the same sign as the `seconds` field.
    pub nanos: i32,
}

const NANOS_PER_SECOND: i32 = 1_000_000_000;

const NANOS_MAX: i32 = 999_999_999;

impl Duration {
    /// The span in nanoseconds that the two fields denote together.
    pub open spec fn total_nanos(self) -> int {
        self.seconds * 1_000_000_000 + self.nanos
    }

    /// Width of the sign in the written form: one for a negative span.
    pub open spec fn sign_width(self) -> int {
        if self.total_nanos() < 0 {
            1
        } else {
            0
        }
    }

    /// Canonical form: the fraction lies strictly between -1 and 1 second and
    /// does not disagree in sign with the whole seconds.
    pub open spec fn is_normal(self) -> bool {
        &&& -1_000_000_000 < self.nanos < 1_000_000_000
        &&& self.seconds > 0 ==> self.nanos >= 0
        &&& self.seconds < 0 ==> self.nanos <= 0
    }

    /// What [`Duration::normalize`] makes of `self`: the canonical form of
    /// the same span, or the nearest extreme canonical value when the whole
    /// seconds of the span leave the range of `i64`.
    pub open spec fn normalized(self) -> Duration {
        let t = self.total_nanos();
        let s = tdiv(t, 1_000_000_000);
        if s > i64::MAX {
            Duration { seconds: i64::MAX, nanos: 999_999_999 }
        } else if s < i64::MIN {
            Duration { seconds: i64::MIN, nanos: -999_999_999i32 }
        } else {
            Duration { seconds: s as i64, nanos: trem(t, 1_000_000_000) as i32 }
        }
    }

    /// Normalizes the duration to a canonical format.
    pub fn normalize(&mut self)
        ensures
            *final(self) == old(self).normalized(),
    {
        let ghost t = self.total_nanos();
        let ghost s0 = self.seconds as int;
        let ghost n0 = self.nanos as int;
        proof {
            lemma_i32_split(self.nanos as int);
        }
        // Make sure nanos is in the range.
        if self.nanos <= -NANOS_PER_SECOND || self.nanos >= NANOS_PER_SECOND {
            if let Some(seconds) = self.seconds.checked_add((self.nanos / NANOS_PER_SECOND) as i64) {
                self.seconds = seconds;
                self.nanos = self.nanos % NANOS_PER_SECOND;
            } else if self.nanos < 0 {
                // Negative overflow! Set to the least normal value.
                proof {
                    let q = tdiv(self.nanos as int, 1_000_000_000);
                    let r = trem(self.nanos as int, 1_000_000_000);
                    assert(t == (self.seconds + q) * 1_000_000_000 + r) by (nonlinear_arith)
                        requires
                            t == self.seconds * 1_000_000_000 + self.nanos,
                            self.nanos == q * 1_000_000_000 + r,
                    ;
                    lemma_tdiv_unique(t, self.seconds + q, r);
                }
                self.seconds = i64::MIN;
                self.nanos = -NANOS_MAX;
                return;
            } else {
                // Positive overflow! Set to the greatest normal value.
                proof {
                    let q = tdiv(self.nanos as int, 1_000_000_000);
                    let r = trem(self.nanos as int, 1_000_000_000);
                    assert(t == (self.seconds + q) * 1_000_000_000 + r) by (nonlinear_arith)
                        requires
                            t == self.seconds * 1_000_000_000 + self.nanos,
                            self.nanos == q * 1_000_000_000 + r,
                    ;
                    lemma_tdiv_unique(t, self.seconds + q, r);
                }
                self.seconds = i64::MAX;
                self.nanos = NANOS_MAX;
                return;
            }
        }
        assert(t == self.total_nanos()) by (nonlinear_arith)
            requires
                t == s0 * 1_000_000_000 + n0,
                n0 == tdiv(n0, 1_000_000_000) * 1_000_000_000 + trem(n0, 1_000_000_000),
                self.seconds == s0 + tdiv(n0, 1_000_000_000),
                self.nanos == trem(n0, 1_000_000_000),
        ;
        // nanos should have the same sign as seconds.
        if self.seconds < 0 && self.nanos > 0 {
            if let Some(seconds) = self.seconds.checked_add(1) {
                self.seconds = seconds;
                self.nanos -= NANOS_PER_SECOND;
            } else {
                // Positive overflow! Set to the greatest normal value.
                self.nanos = NANOS_MAX;
            }
        } else if self.seconds > 0 && self.nanos < 0 {
            if let Some(seconds) = self.seconds.checked_sub(1) {
                self.seconds = seconds;
                self.nanos += NANOS_PER_SECOND;
            } else {
                // Negative overflow! Set to the least normal value.
                self.nanos = -NANOS_MAX;
            }
        }
        proof {
            lemma_tdiv_unique(t, self.seconds as int, self.nanos as int);
        }
    }
}

impl Duration {
    /// Converts a `core::time::Duration`, given as its whole seconds and
    /// its sub-second nanoseconds, to a `Duration`: each part is clamped to
    /// the range of its field, and the result is normalized.
    pub fn from_std_parts(secs: u64, subsec_nanos: u32) -> (r: Duration)
        ensures
            r == (Duration {
                seconds: if secs > i64::MAX as u64 {
                    i64::MAX
                } else {
                    secs as i64
                },
                nanos: if subsec_nanos > i32::MAX as u32 {
                    i32::MAX
                } else {
                    subsec_nanos as i32
                },
            }).normalized(),
    {
        let seconds = if secs > i64::MAX as u64 {
            i64::MAX
        } else {
            secs as i64
        };
        let nanos = if subsec_nanos > i32::MAX as u32 {
            i32::MAX
        } else {
            subsec_nanos as i32
        };
        let mut duration = Duration { seconds, nanos };
        duration.normalize();
        duration
    }

    /// Converts the duration to the whole seconds and sub-second nanoseconds
    /// of a `core::time::Duration`: after normalizing, a duration that is not
    /// negative gives `Ok` of its parts, a negative one `Err` of the parts of
    /// its magnitude.
    pub fn to_std_parts(self) -> (r: Result<(u64, u32), (u64, u32)>)
        requires
            self.normalized().seconds != i64::MIN,
        ensures
            self.normalized().total_nanos() >= 0 ==> r == Ok::<(u64, u32), (u64, u32)>(
                (self.normalized().seconds as u64, self.normalized().nanos as u32),
            ),
            self.normalized().total_nanos() < 0 ==> r == Err::<(u64, u32), (u64, u32)>(
                ((-self.normalized().seconds) as u64, (-self.normalized().nanos) as u32),
            ),
            r matches Ok(p) ==> p.0 * 1_000_000_000 + p.1 == self.normalized().total_nanos(),
            r matches Err(p) ==> p.0 * 1_000_000_000 + p.1 == -self.normalized().total_nanos(),
    {
        let mut duration = self;
        duration.normalize();
        proof {
            lemma_normalized_is_normal(self);
        }
        if duration.seconds > 0 || (duration.seconds == 0 && duration.nanos >= 0) {
            Ok((duration.seconds as u64, duration.nanos as u32))
        } else {
            Err(((-duration.seconds) as u64, (-duration.nanos) as u32))
        }
    }
}

/// Why a duration has no JSON text, or a text is not a duration.
#[derive(Clone, Copy, Debug, PartialEq, Eq, Structural)]
pub enum DurationJsonError {
    /// The whole seconds and the fraction have opposite signs.
    InconsistentSigns,
    /// The text does not end in `s`.
    MissingSuffix,
    /// The fraction has more than nine digits.
    TooManyDecimalPlaces,
    /// The seconds or the fraction are not an integer of their type.
    InvalidInteger(IntErrorKind),
}

impl DurationJsonError {
    /// The message of the error, as the JSON reader and writer report it.
    pub fn message(&self) -> (r: &'static str)
        ensures
            r@ == self.spec_message(),
    {
        match self {
            DurationJsonError::InconsistentSigns => "Duration has inconsistent signs",
            DurationJsonError::MissingSuffix => "missing 's' suffix",
            DurationJsonError::TooManyDecimalPlaces => "too many decimal places",
            DurationJsonError::InvalidInteger(k) => k.message(),
        }
    }

    /// The message of the error, as text.
    /// Each error has the message given here.
    pub proof fn lemma_messages()
        ensures
            DurationJsonError::InconsistentSigns.spec_message() == "Duration has inconsistent signs"@,
            DurationJsonError::MissingSuffix.spec_message() == "missing 's' suffix"@,
            DurationJsonError::TooManyDecimalPlaces.spec_message() == "too many decimal places"@,
            forall|k: IntErrorKind| #[trigger] (DurationJsonError::InvalidInteger(k)).spec_message() == k.spec_message(),
    {
    }

    pub open spec fn spec_message(&self) -> Seq<char> {
        match self {
            DurationJsonError::InconsistentSigns => "Duration has inconsistent signs"@,
            DurationJsonError::MissingSuffix => "missing 's' suffix"@,
            DurationJsonError::TooManyDecimalPlaces => "too many decimal places"@,
            DurationJsonError::InvalidInteger(k) => k.spec_message(),
        }
    }
}

/// The fraction digits for `n` nanoseconds: milliseconds, then microseconds
/// and nanoseconds only as far as they are not zero, three digits each.
pub open spec fn fraction_chars(n: nat) -> Seq<char> {
    let millis = n / 1_000_000;
    let micros = (n % 1_000_000) / 1000;
    let rest = n % 1000;
    if micros == 0 && rest == 0 {
        padded_dec(millis, 3)
    } else if rest == 0 {
        padded_dec(millis, 3) + padded_dec(micros, 3)
    } else {
        padded_dec(millis, 3) + padded_dec(micros, 3) + padded_dec(rest, 3)
    }
}

/// Magnitude of an integer.
pub open spec fn abs(v: int) -> nat {
    if v < 0 {
        (-v) as nat
    } else {
        v as nat
    }
}

impl Duration {
    /// The whole seconds and the fraction do not have opposite signs.
    pub open spec fn has_consistent_signs(self) -> bool {
        self.seconds == 0 || self.nanos == 0 || ((self.nanos < 0) == (self.seconds < 0))
    }

    /// The JSON text of a duration: whole seconds (`-0` for a negative
    /// duration under one second), then `.` and the fraction digits if the
    /// fraction is not zero, then `s`.
    pub open spec fn json_text(self) -> Seq<char> {
        let whole = if self.seconds == 0 {
            if self.nanos < 0 {
                seq!['-', '0']
            } else {
                seq!['0']
            }
        } else {
            signed_dec(self.seconds as int)
        };
        let frac = if self.nanos != 0 {
            seq!['.'] + fraction_chars(abs(self.nanos as int))
        } else {
            Seq::<char>::empty()
        };
        whole + frac + seq!['s']
    }

    /// Writes the duration as its JSON text (such as `"-90.002456301s"`),
    /// or refuses it when its whole seconds and fraction have opposite signs.
    pub fn to_json_string(&self) -> (r: Result<String, DurationJsonError>)
        ensures
            self.has_consistent_signs() ==> (r matches Ok(s) && s@ == self.json_text()),
            !self.has_consistent_signs() ==> r == Err::<String, DurationJsonError>(
                DurationJsonError::InconsistentSigns,
            ),
    {
        if self.seconds != 0 && self.nanos != 0 && (self.nanos < 0) != (self.seconds < 0) {
            return Err(DurationJsonError::InconsistentSigns);
        }
        let mut out: Vec<char> = Vec::new();
        if self.seconds == 0 {
            if self.nanos < 0 {
                out.push('-');
                out.push('0');
            } else {
                out.push('0');
            }
        } else {
            push_signed_dec(&mut out, self.seconds);
        }
        let ghost whole = out@;
        if self.nanos != 0 {
            out.push('.');
            let mag: u32 = if self.nanos < 0 {
                (0i64 - self.nanos as i64) as u32
            } else {
                self.nanos as u32
            };
            push_fraction(&mut out, mag);
        }
        out.push('s');
        assert(out@ =~= self.json_text());
        Ok(string_from_chars(out))
    }
}

/// Index of the first `.` in `b` at or after `i`, or `b.len()` when there is none.
pub open spec fn first_dot_from(b: Seq<u8>, i: int) -> int
    decreases b.len() - i,
{
    if i >= b.len() {
        b.len() as int
    } else if b[i] == 46 {
        i
    } else {
        first_dot_from(b, i + 1)
    }
}

/// What the JSON reader reads from the bytes `b` before it applies the sign:
/// whether a leading `-` was there, the whole seconds, and the fraction in
/// nanoseconds. The text must end in `s`; the part before may start with
/// `-`; the rest is the seconds as `str::parse::<i64>` reads them,
/// optionally followed by `.` and at most nine digits of fraction, read as
/// `str::parse::<u32>` does and scaled to nanoseconds.
pub open spec fn json_parts(b: Seq<u8>) -> Result<(bool, int, int), DurationJsonError> {
    if b.len() == 0 || b.last() != 115 {
        Err(DurationJsonError::MissingSuffix)
    } else {
        let body = b.drop_last();
        let neg = body.len() > 0 && body[0] == 45;
        let rest = if neg {
            body.drop_first()
        } else {
            body
        };
        let dot = first_dot_from(rest, 0);
        if dot < rest.len() {
            let dec = rest.skip(dot + 1);
            if dec.len() > 9 {
                Err(DurationJsonError::TooManyDecimalPlaces)
            } else {
                match parse_integer(rest.take(dot), true, i64::MAX as int) {
                    Err(e) => Err(DurationJsonError::InvalidInteger(e)),
                    Ok(secs) => match parse_integer(dec, false, u32::MAX as int) {
                        Err(e) => Err(DurationJsonError::InvalidInteger(e)),
                        Ok(d) => Ok((neg, secs, d * pow10((9 - dec.len()) as nat))),
                    },
                }
            }
        } else {
            match parse_integer(rest, true, i64::MAX as int) {
                Err(e) => Err(DurationJsonError::InvalidInteger(e)),
                Ok(secs) => Ok((neg, secs, 0)),
            }
        }
    }
}

/// The duration that the JSON reader makes of the bytes `b`.
pub open spec fn json_value(b: Seq<u8>) -> Result<Duration, DurationJsonError> {
    match json_parts(b) {
        Err(e) => Err(e),
        Ok((neg, secs, nanos)) => Ok(
            if neg {
                Duration { seconds: (-secs) as i64, nanos: (-nanos) as i32 }
            } else {
                Duration { seconds: secs as i64, nanos: nanos as i32 }
            },
        ),
    }
}

/// The text has a leading `-` before the smallest `i64` as its seconds,
/// whose negation does not fit in `i64`.
pub open spec fn json_negates_min(b: Seq<u8>) -> bool {
    json_parts(b) matches Ok((neg, secs, _)) && neg && secs == i64::MIN
}

/// Whether [`json_negates_min`] holds of the text.
pub fn json_would_negate_min(s: &str) -> (r: bool)
    ensures
        r == json_negates_min(s.spec_bytes()),
{
    match read_json_parts(s.as_bytes()) {
        Ok((neg, secs, _)) => neg && secs == i64::MIN,
        Err(_) => false,
    }
}

impl Duration {
    /// Reads a duration from its JSON text (such as `"-90.002456301s"`).
    pub fn from_json_str(s: &str) -> (r: Result<Duration, DurationJsonError>)
        requires
            !json_negates_min(s.spec_bytes()),
        ensures
            r == json_value(s.spec_bytes()),
    {
        let b = s.as_bytes();
        match read_json_parts(b) {
            Err(e) => Err(e),
            Ok((neg, seconds, nanos)) => {
                if neg {
                    Ok(Duration { seconds: -seconds, nanos: -nanos })
                } else {
                    Ok(Duration { seconds, nanos })
                }
            },
        }
    }
}

/// Reads what [`json_parts`] says from the bytes `b`.
#[verifier::rlimit(40)]
fn read_json_parts(b: &[u8]) -> (r: Result<(bool, i64, i32), DurationJsonError>)
    ensures
        match json_parts(b@) {
            Err(e) => r == Err::<(bool, i64, i32), DurationJsonError>(e),
            Ok((neg, secs, nanos)) => r == Ok::<(bool, i64, i32), DurationJsonError>(
                (neg, secs as i64, nanos as i32),
            ) && i64::MIN <= secs <= i64::MAX && 0 <= nanos < 1_000_000_000,
        },
{
    let n = b.len();
    if n == 0 || b[n - 1] != 115 {
        return Err(DurationJsonError::MissingSuffix);
    }
    let hi = n - 1;
    let ghost body = b@.drop_last();
    assert(body =~= b@.subrange(0, hi as int));
    let neg = hi > 0 && b[0] == 45;
    let lo: usize = if neg {
        1
    } else {
        0
    };
    let ghost rest = b@.subrange(lo as int, hi as int);
    assert(rest =~= (if neg {
        body.drop_first()
    } else {
        body
    }));
    let mut j = lo;
    while j < hi && b[j] != 46
        invariant
            lo <= j <= hi < b@.len(),
            rest == b@.subrange(lo as int, hi as int),
            first_dot_from(rest, 0) == first_dot_from(rest, j - lo),
        decreases hi - j,
    {
        j = j + 1;
    }
    if j < hi {
        assert(first_dot_from(rest, j - lo) == j - lo);
        assert(rest.take(j - lo) =~= b@.subrange(lo as int, j as int));
        assert(rest.skip(j - lo + 1) =~= b@.subrange(j + 1, hi as int));
        match read_seconds_fraction(b, lo, j, hi) {
            Err(e) => Err(e),
            Ok((seconds, nanos)) => Ok((neg, seconds, nanos)),
        }
    } else {
        assert(first_dot_from(rest, j - lo) == rest.len());
        match parse_i64(b, lo, hi) {
            Ok(v) => Ok((neg, v, 0)),
            Err(e) => Err(DurationJsonError::InvalidInteger(e)),
        }
    }
}

/// Reads `b[lo..dot]` as the whole seconds and `b[dot + 1..hi]` as the fraction.
fn read_seconds_fraction(b: &[u8], lo: usize, dot: usize, hi: usize) -> (r: Result<
    (i64, i32),
    DurationJsonError,
>)
    requires
        lo <= dot < hi <= b@.len(),
    ensures
        ({
            let dec = b@.subrange(dot + 1, hi as int);
            if dec.len() > 9 {
                r == Err::<(i64, i32), DurationJsonError>(DurationJsonError::TooManyDecimalPlaces)
            } else {
                match parse_integer(b@.subrange(lo as int, dot as int), true, i64::MAX as int) {
                    Err(e) => r == Err::<(i64, i32), DurationJsonError>(
                        DurationJsonError::InvalidInteger(e),
                    ),
                    Ok(secs) => match parse_integer(dec, false, u32::MAX as int) {
                        Err(e) => r == Err::<(i64, i32), DurationJsonError>(
                            DurationJsonError::InvalidInteger(e),
                        ),
                        Ok(d) => {
                            let nanos = d * pow10((9 - dec.len()) as nat);
                            &&& r == Ok::<(i64, i32), DurationJsonError>((secs as i64, nanos as i32))
                            &&& i64::MIN <= secs <= i64::MAX
                            &&& 0 <= nanos < 1_000_000_000
                        },
                    },
                }
            }
        }),
{
    let dec_len = hi - dot - 1;
    if dec_len > 9 {
        return Err(DurationJsonError::TooManyDecimalPlaces);
    }
    let seconds = match parse_i64(b, lo, dot) {
        Ok(v) => v,
        Err(e) => return Err(DurationJsonError::InvalidInteger(e)),
    };
    let decimal = match parse_unsigned(b, dot + 1, hi, 0xffff_ffff) {
        Ok(v) => v,
        Err(e) => return Err(DurationJsonError::InvalidInteger(e)),
    };
    let pow = pow10_u32((9 - dec_len) as u32);
    proof {
        lemma_parse_unsigned_pow(b@.subrange(dot + 1, hi as int), u32::MAX as int);
        lemma_pow10_add(dec_len as nat, (9 - dec_len) as nat);
        crate::decimal::lemma_pow10_39();
        assert(decimal * pow < 1_000_000_000) by (nonlinear_arith)
            requires
                decimal < pow10(dec_len as nat),
                pow == pow10((9 - dec_len) as nat),
                pow10(dec_len as nat) * pow10((9 - dec_len) as nat) == 1_000_000_000,
        ;
    }
    Ok((seconds, (decimal * pow as u64) as i32))
}

/// Appends the fraction digits for `mag` nanoseconds.
fn push_fraction(out: &mut Vec<char>, mag: u32)
    ensures
        final(out)@ == old(out)@ + fraction_chars(mag as nat),
{
    let (millis, micros, nanos) = split_nanos(mag);
    push_padded(out, millis as u128, 3);
    if micros != 0 || nanos != 0 {
        push_padded(out, micros as u128, 3);
        if nanos != 0 {
            push_padded(out, nanos as u128, 3);
        }
    }
    assert(out@ =~= old(out)@ + fraction_chars(mag as nat));
}

/// Splits nanoseconds into whole milliseconds, microseconds, and nanoseconds
fn split_nanos(nanos: u32) -> (r: (u32, u32, u32))
    ensures
        r == (nanos / 1_000_000, (nanos % 1_000_000) / 1000, nanos % 1000),
{
    let mut nanos = nanos;
    let ghost n0 = nanos;
    let millis = nanos / 1_000_000;
    nanos -= millis * 1_000_000;
    let micros = nanos / 1_000;
    nanos -= micros * 1_000;
    proof {
        vstd::arithmetic::div_mod::lemma_fundamental_div_mod(n0 as int, 1_000_000);
        vstd::arithmetic::div_mod::lemma_fundamental_div_mod((n0 % 1_000_000) as int, 1000);
        vstd::arithmetic::div_mod::lemma_mod_mod(n0 as int, 1_000_000, 1000);
        vstd::arithmetic::div_mod::lemma_fundamental_div_mod(n0 as int, 1000);
    }
    (millis, micros, nanos)
}

/// The fraction digits of `0 < n < 10^9` nanoseconds are three, six or nine
/// ASCII digits that, scaled to nine places, denote `n`.
proof fn lemma_fraction_value(n: nat)
    requires
        0 < n < 1_000_000_000,
    ensures
        is_ascii_chars(fraction_chars(n)),
        all_digits(ascii_bytes(fraction_chars(n))),
        fraction_chars(n).len() == 3 || fraction_chars(n).len() == 6 || fraction_chars(n).len()
            == 9,
        digits_value(ascii_bytes(fraction_chars(n))) * pow10((9 - fraction_chars(n).len()) as nat)
            == n,
        is_digit_byte(ascii_bytes(fraction_chars(n))[0]),
{
    let millis = n / 1_000_000;
    let micros = (n % 1_000_000) / 1000;
    let rest = n % 1000;
    vstd::arithmetic::div_mod::lemma_fundamental_div_mod(n as int, 1_000_000);
    vstd::arithmetic::div_mod::lemma_fundamental_div_mod((n % 1_000_000) as int, 1000);
    vstd::arithmetic::div_mod::lemma_mod_mod(n as int, 1_000_000, 1000);
    assert(millis < 1000) by (nonlinear_arith)
        requires
            n < 1_000_000_000,
            millis == n / 1_000_000,
    ;
    assert(micros < 1000) by (nonlinear_arith)
        requires
            n % 1_000_000 < 1_000_000,
            micros == (n % 1_000_000) / 1000,
    ;
    lemma_pow10_39();
    let a = padded_dec(millis, 3);
    let b = padded_dec(micros, 3);
    let c = padded_dec(rest, 3);
    lemma_padded_dec_value(millis, 3);
    lemma_padded_dec_value(micros, 3);
    lemma_padded_dec_value(rest, 3);
    lemma_padded_dec_ascii(millis, 3);
    lemma_padded_dec_ascii(micros, 3);
    lemma_padded_dec_ascii(rest, 3);
    lemma_ascii_bytes_concat(a, b);
    lemma_ascii_bytes_concat(a + b, c);
    lemma_digits_value_concat(ascii_bytes(a), ascii_bytes(b));
    lemma_digits_value_concat(ascii_bytes(a + b), ascii_bytes(c));
    vstd::utf8::is_ascii_chars_concat(a + b, a, b);
    vstd::utf8::is_ascii_chars_concat(a + b + c, a + b, c);
    assert(pow10(0) == 1);
    assert(pow10(3) == 1000) by {
        reveal_with_fuel(pow10, 4);
    }
    assert(pow10(6) == 1_000_000) by {
        reveal_with_fuel(pow10, 7);
    }
    assert(ascii_bytes(fraction_chars(n))[0] == ascii_bytes(a)[0]);
    assert(all_digits(ascii_bytes(a + b)));
    assert(all_digits(ascii_bytes(a + b + c)));
    assert(n == millis * 1_000_000 + micros * 1000 + rest);
    assert(a.len() == 3 && b.len() == 3 && c.len() == 3);
    if micros == 0 && rest == 0 {
        assert(fraction_chars(n) == a);
        assert((9 - fraction_chars(n).len()) as nat == 6);
        assert(millis * pow10(6) == n);
    } else if rest == 0 {
        assert(fraction_chars(n) == a + b);
        assert((9 - fraction_chars(n).len()) as nat == 3);
        assert(digits_value(ascii_bytes(a + b)) == millis * 1000 + micros);
        assert((millis * 1000 + micros) * 1000 == millis * 1_000_000 + micros * 1000)
            by (nonlinear_arith);
    } else {
        assert(fraction_chars(n) == a + b + c);
        assert((9 - fraction_chars(n).len()) as nat == 0);
        assert(digits_value(ascii_bytes(a + b + c)) == (millis * 1000 + micros) * 1000 + rest);
        assert((millis * 1000 + micros) * 1000 == millis * 1_000_000 + micros * 1000)
            by (nonlinear_arith);
    }
}

/// The JSON text of a duration that is not normal may still be read back;
/// for a normal one it is, exactly: reading the text that the writer gives
/// yields the same duration. The one exception is the smallest `i64` of
/// whole seconds, whose magnitude the reader cannot hold.
#[verifier::spinoff_prover]
#[verifier::rlimit(60)]
pub proof fn lemma_json_roundtrip(d: Duration)
    requires
        d.is_normal(),
        d.seconds != i64::MIN,
    ensures
        d.has_consistent_signs(),
        !json_negates_min(encode_utf8(d.json_text())),
        json_value(encode_utf8(d.json_text())) == Ok::<Duration, DurationJsonError>(d),
{
    let neg = d.seconds < 0 || (d.seconds == 0 && d.nanos < 0);
    let mag = abs(d.seconds as int);
    let wm = if d.seconds == 0 {
        seq!['0']
    } else {
        dec_chars(mag)
    };
    let sign = if neg {
        seq!['-']
    } else {
        Seq::<char>::empty()
    };
    let frac = if d.nanos != 0 {
        seq!['.'] + fraction_chars(abs(d.nanos as int))
    } else {
        Seq::<char>::empty()
    };
    let text = d.json_text();
    // The whole seconds are the sign and the magnitude's digits.
    lemma_dec_chars_ascii(mag);
    lemma_dec_chars_value(mag);
    lemma_dec_len(mag);
    assert(all_digits(ascii_bytes(wm)) && digits_value(ascii_bytes(wm)) == mag && wm.len() >= 1
        && is_digit_byte(ascii_bytes(wm)[0]) && is_ascii_chars(wm)) by {
        if d.seconds == 0 {
            assert(ascii_bytes(wm).drop_last() =~= Seq::<u8>::empty());
        }
    }
    assert(text =~= sign + wm + frac + seq!['s']);
    // The text is ASCII, so its bytes are its characters.
    if d.nanos != 0 {
        lemma_fraction_value(abs(d.nanos as int));
        vstd::utf8::is_ascii_chars_concat(frac, seq!['.'], fraction_chars(abs(d.nanos as int)));
    }
    vstd::utf8::is_ascii_chars_concat(sign + wm, sign, wm);
    vstd::utf8::is_ascii_chars_concat(sign + wm + frac, sign + wm, frac);
    vstd::utf8::is_ascii_chars_concat(text, sign + wm + frac, seq!['s']);
    is_ascii_chars_encode_utf8(text);
    let bytes = encode_utf8(text);
    assert(bytes =~= ascii_bytes(text));
    lemma_ascii_bytes_concat(sign + wm + frac, seq!['s']);
    lemma_ascii_bytes_concat(sign, wm + frac);
    lemma_ascii_bytes_concat(wm, frac);
    assert(sign + wm + frac =~= sign + (wm + frac));
    let rest = ascii_bytes(wm + frac);
    assert(bytes.last() == 115);
    assert(bytes.drop_last() =~= ascii_bytes(sign) + rest);
    if neg {
        assert((ascii_bytes(sign) + rest).drop_first() =~= rest);
    } else {
        assert(ascii_bytes(sign) + rest =~= rest);
        assert(rest[0] == ascii_bytes(wm)[0]);
    }
    // The first `.` is right after the whole seconds, if there is a fraction.
    lemma_first_dot_skip(rest, 0, wm.len() as int);
    assert(rest.take(wm.len() as int) =~= ascii_bytes(wm));
    lemma_parse_all_digits(ascii_bytes(wm), i64::MAX as int, IntErrorKind::PosOverflow);
    assert(parse_integer(ascii_bytes(wm), true, i64::MAX as int) == Ok::<int, IntErrorKind>(
        mag as int,
    ));
    if d.nanos != 0 {
        let f = fraction_chars(abs(d.nanos as int));
        assert(rest[wm.len() as int] == 46);
        assert(rest.skip(wm.len() as int + 1) =~= ascii_bytes(f));
        crate::decimal::lemma_pow10_mono(0, (9 - f.len()) as nat);
        assert(pow10(0) == 1);
        crate::decimal::lemma_digits_value_nonneg(ascii_bytes(f));
        assert(digits_value(ascii_bytes(f)) <= u32::MAX) by (nonlinear_arith)
            requires
                digits_value(ascii_bytes(f)) * pow10((9 - f.len()) as nat) < 1_000_000_000,
                pow10((9 - f.len()) as nat) >= 1,
                digits_value(ascii_bytes(f)) >= 0,
        {
        }
        lemma_parse_all_digits(ascii_bytes(f), u32::MAX as int, IntErrorKind::PosOverflow);
        assert(parse_integer(ascii_bytes(f), false, u32::MAX as int) == Ok::<int, IntErrorKind>(
            digits_value(ascii_bytes(f)),
        ));
    } else {
        assert(rest =~= ascii_bytes(wm));
    }
}

/// Scanning for the first `.` may skip bytes that are not `.`.
proof fn lemma_first_dot_skip(b: Seq<u8>, i: int, k: int)
    requires
        0 <= i <= k <= b.len(),
        forall|j: int| i <= j < k ==> b[j] != 46,
    ensures
        first_dot_from(b, i) == first_dot_from(b, k),
    decreases k - i,
{
    if i < k {
        lemma_first_dot_skip(b, i + 1, k);
    }
}

/// Normalizing gives a canonical duration.
pub proof fn lemma_normalized_is_normal(d: Duration)
    ensures
        d.normalized().is_normal(),
{
    lemma_tdiv_props(d.total_nanos());
}

/// A canonical duration is left as it is by normalizing.
pub proof fn lemma_normal_is_fixed(d: Duration)
    requires
        d.is_normal(),
    ensures
        d.normalized() == d,
{
    lemma_tdiv_unique(d.total_nanos(), d.seconds as int, d.nanos as int);
}

/// Normalizing twice gives what normalizing once gives.
pub proof fn lemma_normalize_idempotent(d: Duration)
    ensures
        d.normalized().normalized() == d.normalized(),
{
    lemma_normalized_is_normal(d);
    lemma_normal_is_fixed(d.normalized());
}

/// Normalizing keeps the span unchanged whenever its whole seconds fit in `i64`.
pub proof fn lemma_normalize_keeps_span(d: Duration)
    requires
        i64::MIN <= tdiv(d.total_nanos(), 1_000_000_000) <= i64::MAX,
    ensures
        d.normalized().total_nanos() == d.total_nanos(),
{
    lemma_tdiv_props(d.total_nanos());
}

/// A standard duration whose whole seconds fit in `i64`, converted to a
/// `Duration` and back, is unchanged: the conversion out of the duration
/// that the conversion in makes gives `Ok` of the same parts.
pub proof fn lemma_std_roundtrip(secs: u64, subsec_nanos: u32)
    requires
        secs <= i64::MAX,
        subsec_nanos < 1_000_000_000,
    ensures
        ({
            let d = (Duration { seconds: secs as i64, nanos: subsec_nanos as i32 }).normalized();
            &&& d.normalized().total_nanos() >= 0
            &&& d.normalized().seconds as u64 == secs
            &&& d.normalized().nanos as u32 == subsec_nanos
        }),
{
    let d = Duration { seconds: secs as i64, nanos: subsec_nanos as i32 };
    lemma_normal_is_fixed(d);
}

/// Normalizing a duration whose whole seconds leave the range of `i64`
/// saturates: it gives the greatest canonical duration when the span is too
/// long, and the least one when it is too far negative.
pub proof fn lemma_normalize_saturates(d: Duration)
    ensures
        tdiv(d.total_nanos(), 1_000_000_000) > i64::MAX ==> {
            &&& d.normalized().is_normal()
            &&& forall|e: Duration| #[trigger] e.is_normal() ==> e.total_nanos() <= d.normalized().total_nanos()
        },
        tdiv(d.total_nanos(), 1_000_000_000) < i64::MIN ==> {
            &&& d.normalized().is_normal()
            &&& forall|e: Duration| #[trigger] e.is_normal() ==> e.total_nanos() >= d.normalized().total_nanos()
        },
{
    lemma_normalized_is_normal(d);
}

/// The JSON text of a canonical duration is its span in seconds, in
/// decimal: a `-` exactly when the span is negative; the digits of the
/// magnitude of the whole seconds; then, where the fraction is not zero,
/// `.` and three, six or nine digits that, scaled to nine places, are the
/// magnitude of the fraction; and `s` at the end.

pub proof fn lemma_json_text_denotes(d: Duration)
    requires
        d.is_normal(),
    ensures
        ({
            let s = d.json_text();
            let w0 = d.sign_width();
            &&& s.len() >= 2
            &&& s.last() == 's'
            &&& (s[0] == '-') == (d.total_nanos() < 0)
            &&& exists|k: int|
                #![trigger s.subrange(w0, k)]
                {
                    &&& w0 < k < s.len()
                    &&& all_digits(ascii_bytes(s.subrange(w0, k)))
                    &&& digits_value(ascii_bytes(s.subrange(w0, k))) == abs(d.seconds as int)
                    &&& d.nanos == 0 ==> k == s.len() - 1
                    &&& d.nanos != 0 ==> {
                        &&& s[k] == '.'
                        &&& (s.len() - 1 - (k + 1) == 3 || s.len() - 1 - (k + 1) == 6 || s.len() - 1 - (k + 1) == 9)
                        &&& all_digits(ascii_bytes(s.subrange(k + 1, s.len() - 1)))
                        &&& digits_value(ascii_bytes(s.subrange(k + 1, s.len() - 1))) * pow10(
                            (9 - (s.len() - 1 - (k + 1))) as nat,
                        ) == abs(d.nanos as int)
                    }
                }
        }),
{
    let s = d.json_text();
    let neg = d.total_nanos() < 0;
    let w0 = d.sign_width();
    let digits = if d.seconds == 0 {
        seq!['0']
    } else {
        dec_chars(abs(d.seconds as int))
    };
    if d.seconds == 0 {
        assert(ascii_bytes(digits) =~= seq![48u8]);
        assert(ascii_bytes(digits).drop_last() =~= Seq::<u8>::empty());
        assert(digits_value(Seq::<u8>::empty()) == 0);
        assert(ascii_bytes(digits).last() == 48u8);
        assert(digits_value(ascii_bytes(digits)) == 0);
        assert(all_digits(ascii_bytes(digits)));
    } else {
        lemma_dec_chars_value(abs(d.seconds as int));
        lemma_dec_chars_ascii(abs(d.seconds as int));
    }
    let whole = if neg {
        seq!['-'] + digits
    } else {
        digits
    };
    assert(d.seconds < 0 ==> neg);
    assert(d.seconds == 0 && d.nanos < 0 ==> neg);
    assert(neg ==> d.seconds < 0 || (d.seconds == 0 && d.nanos < 0));
    if d.seconds != 0 {
        assert(signed_dec(d.seconds as int) == whole);
    }
    assert(whole.subrange(w0, whole.len() as int) =~= digits);
    let k = whole.len() as int;
    if !neg {
        assert(is_digit_byte(ascii_bytes(digits)[0]));
        assert(s[0] == digits[0]);
        assert(digits[0] != '-');
    }
    if d.nanos != 0 {
        let f = fraction_chars(abs(d.nanos as int));
        lemma_fraction_value(abs(d.nanos as int));
        assert(s =~= whole + (seq!['.'] + f) + seq!['s']);
        assert(s.subrange(w0, k) =~= digits);
        assert(s.subrange(k + 1, s.len() - 1) =~= f);
        assert(s[k] == '.');
        assert(s.len() - 1 - (k + 1) == f.len());
        assert(w0 < k < s.len());
        assert(all_digits(ascii_bytes(s.subrange(k + 1, s.len() - 1))));
        assert(digits_value(ascii_bytes(s.subrange(k + 1, s.len() - 1))) * pow10(
            (9 - (s.len() - 1 - (k + 1))) as nat,
        ) == abs(d.nanos as int));
        assert(all_digits(ascii_bytes(s.subrange(w0, k))));
        assert(digits_value(ascii_bytes(s.subrange(w0, k))) == abs(d.seconds as int));
    } else {
        assert(s =~= whole + seq!['s']);
        assert(s.subrange(w0, k) =~= digits);
        assert(w0 < k < s.len());
    }
}

} // verus!
