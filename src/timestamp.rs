//! Reading and writing timestamps, through chrono.
use vstd::prelude::*;

verus! {

/// Seconds since the Unix epoch of an RFC 3339 timestamp, when it parses.
pub uninterp spec fn rfc3339_seconds(s: Seq<char>) -> Option<i64>;

/// Relies on chrono's DateTime::parse_from_rfc3339 and DateTime::timestamp:
/// the epoch seconds of the instant written, or nothing when it does not parse.
#[verifier::external_body]
pub(crate) fn epoch_seconds(s: &str) -> (r: Option<i64>)
    ensures
        r == rfc3339_seconds(s@),
{
    chrono::DateTime::parse_from_rfc3339(s).ok().map(|t| t.timestamp())
}

/// The UTC calendar time of an epoch second, written `%Y-%m-%d %H:%M:%S`,
/// when chrono can represent that instant.
pub uninterp spec fn utc_calendar_text(secs: i64) -> Option<Seq<char>>;

/// Relies on chrono's `Utc.timestamp_opt` and `format`: the calendar text of
/// an instant, or nothing when it is out of chrono's range.
#[verifier::external_body]
fn utc_calendar(secs: i64) -> (r: Option<String>)
    ensures
        match r {
            Some(t) => utc_calendar_text(secs) == Some(t@),
            None => utc_calendar_text(secs).is_none(),
        },
{
    <chrono::Utc as chrono::TimeZone>::timestamp_opt(&chrono::Utc, secs, 0).single().map(
        |dt| dt.format("%Y-%m-%d %H:%M:%S").to_string(),
    )
}

/// A stored event time as the client shows it; `Invalid timestamp` when it
/// has no calendar form.
pub fn format_timestamp(secs: i64) -> (r: String)
    ensures
        r@ == match utc_calendar_text(secs) {
            Some(t) => t,
            None => "Invalid timestamp"@,
        },
{
    match utc_calendar(secs) {
        Some(t) => t,
        None => String::from_str("Invalid timestamp"),
    }
}

} // verus!
