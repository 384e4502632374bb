//! Points in time, through the `time` crate.
use vstd::prelude::*;

verus! {

/// The nanoseconds since the Unix epoch that an RFC 3339 text stands for; `None`
/// where it is none (`time::OffsetDateTime::parse`).
pub uninterp spec fn rfc3339_nanos(text: Seq<char>) -> Option<i128>;

/// `time::OffsetDateTime::parse` with the RFC 3339 description: the point in
/// time, in nanoseconds since the Unix epoch.
#[verifier::external_body]
pub(crate) fn parse_rfc3339(text: &str) -> (r: Option<i128>)
    ensures
        r == rfc3339_nanos(text@),
{
    time::OffsetDateTime::parse(text, &time::format_description::well_known::Rfc3339).ok().map(
        |t| t.unix_timestamp_nanos(),
    )
}

/// Month, day of the month, day of the week counted from Monday as 0, and hour
/// of a Unix time in UTC; `None` outside the calendar
/// (`time::OffsetDateTime::from_unix_timestamp`).
pub uninterp spec fn utc_civil(unix_secs: i64) -> Option<(u8, u8, u8, u8)>;

/// `time::OffsetDateTime::from_unix_timestamp`, and month, day, weekday and hour
/// of what it returns. Hour and weekday follow from the number of seconds: the
/// epoch began at midnight of a Thursday.
#[verifier::external_body]
pub(crate) fn civil(unix_secs: i64) -> (r: Option<(u8, u8, u8, u8)>)
    ensures
        r == utc_civil(unix_secs),
        r matches Some(c) ==> {
            &&& 1 <= c.0 <= 12
            &&& 1 <= c.1 <= 31
            &&& c.2 == (unix_secs as int / 86400 + 3) % 7
            &&& c.3 == (unix_secs as int % 86400) / 3600
        },
{
    time::OffsetDateTime::from_unix_timestamp(unix_secs).ok().map(
        |t| (u8::from(t.month()), t.day(), t.weekday().number_days_from_monday(), t.hour()),
    )
}

} // verus!
