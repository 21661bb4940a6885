//! Timestamps as text, through chrono's RFC 3339 support.

use vstd::prelude::*;

verus! {

/// The Unix timestamp (whole seconds) that chrono reads from an RFC 3339
/// text, or None where chrono rejects the text.
pub uninterp spec fn rfc3339_seconds(s: Seq<char>) -> Option<i64>;

/// The RFC 3339 text that chrono writes for a Unix timestamp, or None where
/// the timestamp is outside chrono's range.
pub uninterp spec fn rfc3339_text(secs: i64) -> Option<Seq<char>>;

/// Relies on chrono's `DateTime::parse_from_rfc3339` and `DateTime::timestamp`:
/// the instant the text denotes, in whole seconds since the epoch.
#[verifier::external_body]
pub(crate) fn parse_rfc3339(s: &str) -> (r: Option<i64>)
    ensures
        r == rfc3339_seconds(s@),
{
    match chrono::DateTime::parse_from_rfc3339(s) {
        Ok(d) => Some(d.timestamp()),
        Err(_) => None,
    }
}

/// Relies on chrono's `DateTime::from_timestamp` (None out of range) and
/// `DateTime::to_rfc3339`.
#[verifier::external_body]
pub(crate) fn format_rfc3339(secs: i64) -> (r: Option<String>)
    ensures
        match r {
            Some(t) => rfc3339_text(secs) == Some(t@),
            None => rfc3339_text(secs) is None,
        },
{
    match chrono::DateTime::from_timestamp(secs, 0) {
        Some(d) => Some(d.to_rfc3339()),
        None => None,
    }
}

} // verus!
