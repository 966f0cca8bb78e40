//! Wall-clock instants and spans of time, held as whole microseconds.

use vstd::prelude::*;

verus! {

/// Largest distance from the Unix epoch, in microseconds, of an instant that
/// the library handles (about 126,000 years either way).
pub const TIME_LIMIT: i64 = 4_000_000_000_000_000_000;

/// Largest span between two instants in range: twice `TIME_LIMIT`.
pub const SPAN_LIMIT: i64 = 8_000_000_000_000_000_000;

/// A wall-clock instant: microseconds since 1970-01-01T00:00:00Z.
#[derive(Clone, Copy, Debug, PartialEq, Eq, Structural)]
pub struct Timestamp {
    pub micros: i64,
}

/// A signed span of time in microseconds.
#[derive(Clone, Copy, Debug, PartialEq, Eq, Structural)]
pub struct Duration {
    pub micros: i64,
}

/// An instant lies within the range the library handles.
pub open spec fn in_range(t: int) -> bool {
    -TIME_LIMIT <= t <= TIME_LIMIT
}

impl Timestamp {
    pub open spec fn valid(self) -> bool {
        in_range(self.micros as int)
    }

    pub fn from_micros(micros: i64) -> (r: Timestamp)
        ensures
            r.micros == micros,
    {
        Timestamp { micros }
    }
}

impl Duration {
    pub fn microseconds(micros: i64) -> (r: Duration)
        ensures
            r.micros == micros,
    {
        Duration { micros }
    }

    pub fn milliseconds(millis: i64) -> (r: Duration)
        requires
            i64::MIN <= millis * 1000 <= i64::MAX,
        ensures
            r.micros == millis * 1000,
    {
        Duration { micros: millis * 1000 }
    }

    pub fn is_zero(&self) -> (r: bool)
        ensures
            r == (self.micros == 0),
    {
        self.micros == 0
    }

    /// Whole milliseconds in the span, rounded toward zero.
    pub fn num_milliseconds(&self) -> (r: i64)
        ensures
            self.micros >= 0 ==> r == self.micros / 1000,
            self.micros < 0 ==> r == -((-(self.micros as int)) / 1000),
    {
        if self.micros >= 0 {
            self.micros / 1000
        } else {
            let pos: i128 = -(self.micros as i128);
            -((pos / 1000) as i64)
        }
    }
}

/// What chrono reads from an RFC 3339 timestamp (`str::parse` into a
/// `DateTime<Utc>`): microseconds since the epoch, or nothing when the text is
/// not such a timestamp.
pub uninterp spec fn utc_parse(s: Seq<char>) -> Option<int>;

/// What chrono reads from `s` under the strftime-style format `fmt`, with an
/// explicit offset (`DateTime::parse_from_str`): microseconds since the epoch,
/// or nothing when the text does not match.
pub uninterp spec fn formatted_parse(s: Seq<char>, fmt: Seq<char>) -> Option<int>;

/// Relies on `str::parse::<chrono::DateTime<chrono::Utc>>` to read an
/// RFC 3339 timestamp, and on `DateTime::timestamp_micros` to count its
/// microseconds since the epoch (a value that always fits in an `i64`).
#[verifier::external_body]
pub(crate) fn parse_utc(s: &str) -> (r: Option<i64>)
    ensures
        match r {
            Some(m) => utc_parse(s@) == Some(m as int),
            None => utc_parse(s@) is None,
        },
{
    match s.parse::<chrono::DateTime<chrono::Utc>>() {
        Ok(t) => Some(t.timestamp_micros()),
        Err(_) => None,
    }
}

/// Relies on `chrono::DateTime::parse_from_str` to read a timestamp with an
/// explicit offset under a format, and on `DateTime::timestamp_micros`.
#[verifier::external_body]
pub(crate) fn parse_with_format(s: &str, fmt: &str) -> (r: Option<i64>)
    ensures
        match r {
            Some(m) => formatted_parse(s@, fmt@) == Some(m as int),
            None => formatted_parse(s@, fmt@) is None,
        },
{
    match chrono::DateTime::parse_from_str(s, fmt) {
        Ok(t) => Some(t.timestamp_micros()),
        Err(_) => None,
    }
}

/// Relies on `chrono::DateTime::from_timestamp`, which builds the instant
/// `secs` seconds and `nsecs` nanoseconds after the epoch, and fails only
/// outside chrono's range of dates (years -262144 to 262143, beyond
/// `TIME_LIMIT`); and on `DateTime::timestamp_micros`.
#[verifier::external_body]
pub(crate) fn utc_from_timestamp(secs: i64, nsecs: u32) -> (r: Option<i64>)
    requires
        nsecs < 1_000_000_000,
    ensures
        r matches Some(m) ==> m == secs * 1_000_000 + nsecs / 1000,
        in_range(secs * 1_000_000 + nsecs / 1000) ==> r is Some,
{
    match chrono::DateTime::from_timestamp(secs, nsecs) {
        Some(t) => Some(t.timestamp_micros()),
        None => None,
    }
}

} // verus!
