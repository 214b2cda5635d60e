//! Points in time.
//!
//! The calendar is left to `chrono`, behind the trusted functions of this file.
use vstd::prelude::*;

verus! {

/// A point in time: seconds since the start of 1970 in UTC, and nanoseconds into the second.
#[derive(Debug, Clone, Copy, PartialEq, Eq, Structural)]
pub struct Timestamp {
    pub seconds: i64,
    pub nanos: u32,
}

impl Timestamp {
    /// The point comes before the other.
    pub open spec fn before(self, other: Timestamp) -> bool {
        self.seconds < other.seconds || (self.seconds == other.seconds && self.nanos < other.nanos)
    }
}

/// The calendar reaches to the given number of seconds from the start of 1970: it begins with the
/// year -262143, and ends with the year 262142.
pub open spec fn second_in_calendar(seconds: int) -> bool {
    -8334601228800 <= seconds <= 8210266876799
}

/// The point in time that a text in the form of RFC 3339 writes, where it writes one.
pub uninterp spec fn rfc3339_time(text: Seq<char>) -> Option<Timestamp>;

/// The point in time that a text in a form given by a `strftime` pattern writes, where it writes
/// one.
pub uninterp spec fn formatted_time(text: Seq<char>, pattern: Seq<char>) -> Option<Timestamp>;

/// `chrono::DateTime::from_timestamp` with whole seconds: the point in time, where the calendar
/// reaches to it.
#[verifier::external_body]
pub(crate) fn time_of_seconds(seconds: i64) -> (r: Option<Timestamp>)
    ensures
        r is Some == second_in_calendar(seconds as int),
        r matches Some(t) ==> t.seconds == seconds && t.nanos == 0,
{
    chrono::DateTime::from_timestamp(seconds, 0).map(
        |t| Timestamp { seconds: t.timestamp(), nanos: t.timestamp_subsec_nanos() },
    )
}

/// `chrono::DateTime::from_timestamp_millis`: the point in time, where the calendar reaches to it.
#[verifier::external_body]
pub(crate) fn time_of_millis(milliseconds: i64) -> (r: Option<Timestamp>)
    ensures
        r is Some == second_in_calendar(milliseconds as int / 1000),
        r matches Some(t) ==> t.seconds as int == milliseconds as int / 1000 && t.nanos as int
            == (milliseconds as int % 1000) * 1000000,
{
    chrono::DateTime::from_timestamp_millis(milliseconds).map(
        |t| Timestamp { seconds: t.timestamp(), nanos: t.timestamp_subsec_nanos() },
    )
}

/// `chrono::DateTime::parse_from_rfc3339`, as a point in time.
#[verifier::external_body]
pub(crate) fn parse_rfc3339(text: &str) -> (r: Option<Timestamp>)
    ensures
        r == rfc3339_time(text@),
{
    chrono::DateTime::parse_from_rfc3339(text).ok().map(
        |t| Timestamp { seconds: t.timestamp(), nanos: t.timestamp_subsec_nanos() },
    )
}

/// `chrono::DateTime::parse_from_str`, as a point in time.
#[verifier::external_body]
pub(crate) fn parse_formatted(text: &str, pattern: &str) -> (r: Option<Timestamp>)
    ensures
        r == formatted_time(text@, pattern@),
{
    chrono::DateTime::parse_from_str(text, pattern).ok().map(
        |t| Timestamp { seconds: t.timestamp(), nanos: t.timestamp_subsec_nanos() },
    )
}

/// The point comes before the other.
pub fn is_earlier(a: Timestamp, b: Timestamp) -> (r: bool)
    ensures
        r == a.before(b),
{
    a.seconds < b.seconds || (a.seconds == b.seconds && a.nanos < b.nanos)
}

} // verus!
