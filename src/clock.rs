//! The current time and fresh identifiers, from the outside world.
use vstd::prelude::*;

verus! {

/// Relies on chrono's `Utc::now`, rendered with `DateTime::to_rfc3339`: the
/// current time as RFC 3339 text. Nothing is assumed of the value.
#[verifier::external_body]
pub(crate) fn now_rfc3339() -> (r: String) {
    chrono::Utc::now().to_rfc3339()
}

/// Relies on uuid's `Uuid::new_v4`, rendered with its `Display`: a fresh random
/// identifier. Nothing is assumed of the value.
#[verifier::external_body]
pub(crate) fn new_uuid() -> (r: String) {
    uuid::Uuid::new_v4().to_string()
}

/// The seconds since the epoch that chrono reads from `s` in the build service's
/// start-time format `%h %d, %Y %r` (as `Jan 02, 2024 03:04:05 PM`), taken as
/// UTC; `None` when chrono rejects the text.
pub uninterp spec fn build_clock_seconds(s: Seq<char>) -> Option<i64>;

/// The seconds since the epoch that chrono reads from the RFC 3339 text `s`;
/// `None` when chrono rejects the text.
pub uninterp spec fn rfc3339_seconds(s: Seq<char>) -> Option<i64>;

/// Relies on chrono's `NaiveDateTime::parse_from_str` with the format
/// `%h %d, %Y %r`, then `and_utc().timestamp()`: the result depends on the text
/// alone.
#[verifier::external_body]
pub(crate) fn parse_build_clock(s: &str) -> (r: Option<i64>)
    ensures
        r == build_clock_seconds(s@),
{
    match chrono::NaiveDateTime::parse_from_str(s, "%h %d, %Y %r") {
        Ok(t) => Some(t.and_utc().timestamp()),
        Err(_) => None,
    }
}

/// Relies on chrono's `FromStr` for `DateTime<Utc>`, then `timestamp()`: the
/// result depends on the text alone.
#[verifier::external_body]
pub(crate) fn parse_rfc3339(s: &str) -> (r: Option<i64>)
    ensures
        r == rfc3339_seconds(s@),
{
    match s.parse::<chrono::DateTime<chrono::Utc>>() {
        Ok(t) => Some(t.timestamp()),
        Err(_) => None,
    }
}

} // verus!
