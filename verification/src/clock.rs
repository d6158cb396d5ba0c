//! Points in time, the whole seconds between two of them, and their
//! rendering as calendar text.
//!
//! A [`Timestamp`] is a plain pair of Unix seconds and nanoseconds. Calendar
//! arithmetic is left to `chrono`; the two functions that reach it are the
//! only unverified code in this module.

use chrono::DateTime;
use vstd::prelude::*;

verus! {

/// The earliest second `chrono` can represent in UTC (the first of January
/// of the year -262143).
pub const MIN_SECS: i64 = -8_334_601_228_800;

/// The latest second `chrono` can represent in UTC (the last of December of
/// the year 262142).
pub const MAX_SECS: i64 = 8_210_266_876_799;

/// Nanoseconds in one second.
pub const NANOS_PER_SEC: u32 = 1_000_000_000;

/// Whether a pair of Unix seconds and nanoseconds names an instant of the
/// supported range, with the nanoseconds inside the second (no leap-second
/// notation).
pub open spec fn in_range(secs: int, nanos: int) -> bool {
    MIN_SECS <= secs <= MAX_SECS && 0 <= nanos < NANOS_PER_SEC
}

/// The nanoseconds from one instant to another; negative when the second
/// one is the earlier.
pub open spec fn nanos_between(
    start_secs: int,
    start_nanos: int,
    end_secs: int,
    end_nanos: int,
) -> int {
    (end_secs - start_secs) * NANOS_PER_SEC + (end_nanos - start_nanos)
}

/// The quotient of `a` by a positive `b`, rounded toward zero.
pub open spec fn toward_zero(a: int, b: int) -> int
    recommends
        b > 0,
{
    if a >= 0 {
        a / b
    } else {
        -((-a) / b)
    }
}

/// What is left of `a` after taking out the multiples of `b` counted by
/// [`toward_zero`]; it has the sign of `a`.
pub open spec fn remainder(a: int, b: int) -> int
    recommends
        b > 0,
{
    a - b * toward_zero(a, b)
}

/// The whole seconds from one instant to another, rounded toward zero.
pub open spec fn whole_seconds(
    start_secs: int,
    start_nanos: int,
    end_secs: int,
    end_nanos: int,
) -> int {
    toward_zero(
        nanos_between(start_secs, start_nanos, end_secs, end_nanos),
        NANOS_PER_SEC as int,
    )
}

/// The text that `chrono` renders for the UTC instant `secs`, `nanos` under
/// the `strftime` pattern `pattern`.
pub uninterp spec fn utc_text(secs: i64, nanos: u32, pattern: Seq<char>) -> Seq<char>;

/// The only pattern handed to the renderer: date and time of day to the
/// second.
pub open spec fn date_pattern() -> Seq<char> {
    "%Y-%m-%d %H:%M:%S"@
}

/// Calls `chrono::DateTime::from_timestamp` on both instants, subtracts
/// them, and takes `TimeDelta::num_seconds` of the difference. For instants
/// inside the supported range `from_timestamp` returns a value, the
/// difference is exact, and `num_seconds` drops the fraction toward zero.
#[verifier::external_body]
fn chrono_whole_seconds(start_secs: i64, start_nanos: u32, end_secs: i64, end_nanos: u32) -> (r:
    i64)
    requires
        in_range(start_secs as int, start_nanos as int),
        in_range(end_secs as int, end_nanos as int),
    ensures
        r == whole_seconds(start_secs as int, start_nanos as int, end_secs as int, end_nanos as int),
{
    let start = DateTime::from_timestamp(start_secs, start_nanos).unwrap();
    let end = DateTime::from_timestamp(end_secs, end_nanos).unwrap();
    (end - start).num_seconds()
}

/// Calls `chrono::DateTime::from_timestamp` and renders the instant with
/// `DateTime::format`. The text depends on the instant and the pattern
/// alone; the contract only gives it a name. The pattern is pinned because
/// `chrono` fails on a malformed one.
#[verifier::external_body]
fn chrono_format(secs: i64, nanos: u32, pattern: &str) -> (r: String)
    requires
        in_range(secs as int, nanos as int),
        pattern@ == date_pattern(),
    ensures
        r@ == utc_text(secs, nanos, pattern@),
{
    DateTime::from_timestamp(secs, nanos).unwrap().format(pattern).to_string()
}

/// A point in time: whole seconds since the Unix epoch (UTC) and the
/// nanoseconds into that second. Every value lies in the supported range.
#[derive(Clone, Copy, Debug, PartialEq, Eq, Structural)]
pub struct Timestamp {
    secs: i64,
    nanos: u32,
}

impl Timestamp {
    /// Seconds since the Unix epoch.
    pub closed spec fn seconds(self) -> i64 {
        self.secs
    }

    /// Nanoseconds into the second.
    pub closed spec fn subsec(self) -> u32 {
        self.nanos
    }

    /// What every timestamp satisfies.
    pub open spec fn is_valid(self) -> bool {
        in_range(self.seconds() as int, self.subsec() as int)
    }

    #[verifier::type_invariant]
    spec fn inv(self) -> bool {
        self.is_valid()
    }

    /// The timestamp of the given Unix seconds and nanoseconds, if they lie
    /// in the supported range.
    pub fn new(secs: i64, nanos: u32) -> (r: Option<Timestamp>)
        ensures
            r is Some <==> in_range(secs as int, nanos as int),
            r matches Some(t) ==> t.seconds() == secs && t.subsec() == nanos && t.is_valid(),
    {
        if MIN_SECS <= secs && secs <= MAX_SECS && nanos < NANOS_PER_SEC {
            Some(Timestamp { secs, nanos })
        } else {
            None
        }
    }

    /// Seconds since the Unix epoch.
    pub fn secs(&self) -> (r: i64)
        ensures
            r == self.seconds(),
            self.is_valid(),
    {
        proof {
            use_type_invariant(self);
        }
        self.secs
    }

    /// Nanoseconds into the second.
    pub fn nanos(&self) -> (r: u32)
        ensures
            r == self.subsec(),
            self.is_valid(),
    {
        proof {
            use_type_invariant(self);
        }
        self.nanos
    }

    /// The whole seconds from `self` to `later`, rounded toward zero.
    pub open spec fn seconds_until(self, later: Timestamp) -> int {
        whole_seconds(
            self.seconds() as int,
            self.subsec() as int,
            later.seconds() as int,
            later.subsec() as int,
        )
    }

    /// The calendar text of this instant: date and time of day in UTC.
    pub open spec fn calendar_text(self) -> Seq<char> {
        utc_text(self.seconds(), self.subsec(), date_pattern())
    }
}

/// The whole seconds from `start` to `end`, rounded toward zero; negative
/// when `end` is the earlier.
pub fn elapsed_seconds(start: Timestamp, end: Timestamp) -> (r: i64)
    ensures
        r == start.seconds_until(end),
{
    let (s, sn) = (start.secs(), start.nanos());
    let (e, en) = (end.secs(), end.nanos());
    chrono_whole_seconds(s, sn, e, en)
}

/// The date and time of day of `at` in UTC, as `chrono` renders it.
pub fn format_utc(at: Timestamp) -> (r: String)
    ensures
        r@ == at.calendar_text(),
{
    chrono_format(at.secs(), at.nanos(), "%Y-%m-%d %H:%M:%S")
}

} // verus!
