//! `google.protobuf.Timestamp`: a point in time at nanosecond resolution.

use vstd::prelude::*;

use crate::arith::{lemma_ediv_props, lemma_ediv_unique, lemma_i32_split, tdiv, trem};

verus! {

/// A Timestamp represents a point in time independent of any time zone or local
/// calendar, encoded as a count of seconds and fractions of seconds at
/// nanosecond resolution. The count is relative to an epoch at UTC midnight on
/// January 1, 1970, in the proleptic Gregorian calendar which extends the
/// Gregorian calendar backwards to year one.
///
/// Equality compares the two fields as they stand: a timestamp and its
/// normalized form differ when the timestamp is not normal.
#[derive(Clone, Copy, Debug, PartialEq, Eq, Structural, Hash, Default)]
pub struct Timestamp {
    /// Represents seconds of UTC time since Unix epoch 1970-01-01T00:00:00Z.
    pub seconds: i64,
    /// Non-negative fractions of a second at nanosecond resolution. Negative
    /// second values with fractions must still have non-negative nanos values
    /// that count forward in time.
    pub nanos: i32,
}

const NANOS_PER_SECOND: i32 = 1_000_000_000;

impl Timestamp {
    /// The instant in nanoseconds since the epoch that the two fields denote together.
    pub open spec fn total_nanos(self) -> int {
        self.seconds * 1_000_000_000 + self.nanos
    }

    /// Canonical form: the fraction lies in `[0, 10^9)`.
    pub open spec fn is_normal(self) -> bool {
        0 <= self.nanos < 1_000_000_000
    }

    /// What [`Timestamp::normalize`] makes of `self`: the canonical form of
    /// the same instant, or the nearest extreme canonical value when its
    /// whole seconds leave the range of `i64`.
    pub open spec fn normalized(self) -> Timestamp {
        let t = self.total_nanos();
        let s = t / 1_000_000_000;
        if s > i64::MAX {
            Timestamp { seconds: i64::MAX, nanos: 999_999_999 }
        } else if s < i64::MIN {
            Timestamp { seconds: i64::MIN, nanos: 0 }
        } else {
            Timestamp { seconds: s as i64, nanos: (t % 1_000_000_000) as i32 }
        }
    }

    /// Normalizes the timestamp to a canonical format.
    pub fn normalize(&mut self)
        ensures
            *final(self) == old(self).normalized(),
    {
        let ghost t = self.total_nanos();
        let ghost s0 = self.seconds as int;
        let ghost n0 = self.nanos as int;
        proof {
            lemma_i32_split(self.nanos as int);
        }
        // Make sure nanos is in the range.
        if self.nanos <= -NANOS_PER_SECOND || self.nanos >= NANOS_PER_SECOND {
            if let Some(seconds) = self.seconds.checked_add((self.nanos / NANOS_PER_SECOND) as i64) {
                self.seconds = seconds;
                self.nanos = self.nanos % NANOS_PER_SECOND;
            } else {
                proof {
                    let q = tdiv(n0, 1_000_000_000);
                    let r = trem(n0, 1_000_000_000);
                    assert(t == (s0 + q) * 1_000_000_000 + r) by (nonlinear_arith)
                        requires
                            t == s0 * 1_000_000_000 + n0,
                            n0 == q * 1_000_000_000 + r,
                    ;
                    if r >= 0 {
                        lemma_ediv_unique(t, s0 + q, r);
                    } else {
                        assert(t == (s0 + q - 1) * 1_000_000_000 + (r + 1_000_000_000))
                            by (nonlinear_arith)
                            requires
                                t == (s0 + q) * 1_000_000_000 + r,
                        ;
                        lemma_ediv_unique(t, s0 + q - 1, r + 1_000_000_000);
                    }
                }
                if self.nanos < 0 {
                    // Negative overflow! Set to the earliest normal value.
                    self.seconds = i64::MIN;
                    self.nanos = 0;
                } else {
                    // Positive overflow! Set to the latest normal value.
                    self.seconds = i64::MAX;
                    self.nanos = 999_999_999;
                }
                return;
            }
        }
        assert(t == self.total_nanos()) by (nonlinear_arith)
            requires
                t == s0 * 1_000_000_000 + n0,
                n0 == tdiv(n0, 1_000_000_000) * 1_000_000_000 + trem(n0, 1_000_000_000),
                self.seconds == s0 + tdiv(n0, 1_000_000_000),
                self.nanos == trem(n0, 1_000_000_000),
        ;
        // For Timestamp nanos should be in the range [0, 999999999].
        if self.nanos < 0 {
            if let Some(seconds) = self.seconds.checked_sub(1) {
                self.seconds = seconds;
                self.nanos += NANOS_PER_SECOND;
            } else {
                // Negative overflow! Set to the earliest normal value.
                proof {
                    assert(t == (self.seconds - 1) * 1_000_000_000 + (self.nanos
                        + 1_000_000_000)) by (nonlinear_arith)
                        requires
                            t == self.seconds * 1_000_000_000 + self.nanos,
                    ;
                    lemma_ediv_unique(t, self.seconds - 1, self.nanos + 1_000_000_000);
                }
                self.nanos = 0;
                return;
            }
        }
        proof {
            lemma_ediv_unique(t, self.seconds as int, self.nanos as int);
        }
    }
}

/// The timestamp of a system time that lies `secs` seconds and
/// `subsec_nanos` nanoseconds after the epoch, or before it: a time before
/// the epoch with a fraction counts its nanoseconds forward from the second
/// before.
pub open spec fn system_time_timestamp(after_epoch: bool, secs: u64, subsec_nanos: u32) -> Timestamp {
    if after_epoch {
        Timestamp { seconds: secs as i64, nanos: subsec_nanos as i32 }
    } else if subsec_nanos == 0 {
        Timestamp { seconds: (-secs) as i64, nanos: 0 }
    } else {
        Timestamp { seconds: (-secs - 1) as i64, nanos: (1_000_000_000 - subsec_nanos) as i32 }
    }
}

impl Timestamp {
    /// Converts a system time, given as the whole seconds and sub-second
    /// nanoseconds of its distance from the Unix epoch and whether it lies
    /// at or after the epoch, to a `Timestamp`. A time before the epoch with
    /// a fraction counts its nanoseconds forward from the second before.
    pub fn from_system_time_parts(after_epoch: bool, secs: u64, subsec_nanos: u32) -> (r:
        Timestamp)
        requires
            secs <= i64::MAX,
            subsec_nanos < 1_000_000_000,
        ensures
            r == system_time_timestamp(after_epoch, secs, subsec_nanos),
            r.is_normal(),
            r.total_nanos() == system_time_distance(after_epoch, secs as int, subsec_nanos as int),
    {
        if after_epoch {
            Timestamp { seconds: secs as i64, nanos: subsec_nanos as i32 }
        } else {
            let seconds = secs as i64;
            let nanos = subsec_nanos as i32;
            if nanos == 0 {
                Timestamp { seconds: -seconds, nanos: 0 }
            } else {
                Timestamp { seconds: -seconds - 1, nanos: 1_000_000_000 - nanos }
            }
        }
    }

    /// The distance of the normalized timestamp from the Unix epoch, as a
    /// system time is built from it: whether it lies at or after the epoch,
    /// the whole seconds of the distance, and the nanoseconds to add after
    /// them (always forward in time).
    pub fn to_system_time_parts(self) -> (r: (bool, u64, u64))
        requires
            self.normalized().seconds != i64::MIN,
        ensures
            r.0 == (self.normalized().seconds >= 0),
            r.0 ==> r.1 == self.normalized().seconds,
            !r.0 ==> r.1 == -self.normalized().seconds,
            r.2 == self.normalized().nanos,
    {
        let mut timestamp = self;
        timestamp.normalize();
        proof {
            lemma_normalized_is_normal(self);
        }
        if timestamp.seconds >= 0 {
            (true, timestamp.seconds as u64, timestamp.nanos as u64)
        } else {
            (false, (-timestamp.seconds) as u64, timestamp.nanos as u64)
        }
    }
}

/// Indicates that a [`Timestamp`] could not be converted to a system time
/// because it is out of range.
///
/// The range of times that can be represented by a system time depends on
/// the platform.
#[derive(Clone, Copy, Debug, PartialEq, Eq, Structural)]
#[non_exhaustive]
pub struct TimestampOutOfSystemRangeError {
    /// The timestamp as it was before normalizing.
    pub timestamp: Timestamp,
}

impl TimestampOutOfSystemRangeError {
    /// The error for a timestamp, as it was before normalizing.
    pub fn new(timestamp: Timestamp) -> (r: Self)
        ensures
            r.timestamp == timestamp,
    {
        TimestampOutOfSystemRangeError { timestamp }
    }
}

/// Normalizing gives a canonical timestamp.
pub proof fn lemma_normalized_is_normal(t: Timestamp)
    ensures
        t.normalized().is_normal(),
{
    lemma_ediv_props(t.total_nanos());
}

/// A canonical timestamp is left as it is by normalizing.
pub proof fn lemma_normal_is_fixed(t: Timestamp)
    requires
        t.is_normal(),
    ensures
        t.normalized() == t,
{
    lemma_ediv_unique(t.total_nanos(), t.seconds as int, t.nanos as int);
}

/// Normalizing twice gives what normalizing once gives.
pub proof fn lemma_normalize_idempotent(t: Timestamp)
    ensures
        t.normalized().normalized() == t.normalized(),
{
    lemma_normalized_is_normal(t);
    lemma_normal_is_fixed(t.normalized());
}

/// Normalizing keeps the instant unchanged whenever its whole seconds fit in `i64`.
pub proof fn lemma_normalize_keeps_instant(t: Timestamp)
    requires
        i64::MIN <= t.total_nanos() / 1_000_000_000 <= i64::MAX,
    ensures
        t.normalized().total_nanos() == t.total_nanos(),
{
    lemma_ediv_props(t.total_nanos());
}

/// The signed distance from the epoch, in nanoseconds, of a system time
/// that lies `secs` seconds and `nanos` nanoseconds after the epoch, or
/// before it.
pub open spec fn system_time_distance(after_epoch: bool, secs: int, nanos: int) -> int {
    if after_epoch {
        secs * 1_000_000_000 + nanos
    } else {
        -(secs * 1_000_000_000 + nanos)
    }
}

/// A system time converted to a `Timestamp` denotes the same instant, and
/// the timestamp is canonical with seconds other than `i64::MIN`, so that it
/// converts back to a system time at the same distance from the epoch;
/// except where the time lies before the epoch by `i64::MAX` whole seconds
/// and a fraction, whose timestamp has `i64::MIN` seconds.
pub proof fn lemma_system_time_roundtrip(after_epoch: bool, secs: u64, subsec_nanos: u32)
    requires
        secs <= i64::MAX,
        subsec_nanos < 1_000_000_000,
        !(!after_epoch && secs == i64::MAX && subsec_nanos != 0),
    ensures
        ({
            let t = system_time_timestamp(after_epoch, secs, subsec_nanos);
            &&& t.normalized() == t
            &&& t.seconds != i64::MIN
            &&& t.total_nanos() == system_time_distance(after_epoch, secs as int, subsec_nanos as int)
        }),
{
    lemma_normal_is_fixed(system_time_timestamp(after_epoch, secs, subsec_nanos));
}

/// Normalizing a timestamp whose whole seconds leave the range of `i64`
/// saturates: it gives the latest canonical timestamp when the instant is
/// too late, and the earliest one when it is too early.
pub proof fn lemma_normalize_saturates(t: Timestamp)
    ensures
        t.total_nanos() / 1_000_000_000 > i64::MAX ==> {
            &&& t.normalized().is_normal()
            &&& forall|e: Timestamp| #[trigger] e.is_normal() ==> e.total_nanos() <= t.normalized().total_nanos()
        },
        t.total_nanos() / 1_000_000_000 < i64::MIN ==> {
            &&& t.normalized().is_normal()
            &&& forall|e: Timestamp| #[trigger] e.is_normal() ==> e.total_nanos() >= t.normalized().total_nanos()
        },
{
    lemma_normalized_is_normal(t);
}

} // verus!
