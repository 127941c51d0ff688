//! Timestamps, ages and duration strings.
//!
//! Status objects carry RFC 3339 timestamps; reconcilers compare their
//! age against the probe interval to decide whether a phase write is
//! due, and against configured timeouts during verification. The two
//! parsers are outside calls whose results depend on their input alone,
//! so each is named and wrapped once; everything computed from the
//! parsed values is verified.

use vstd::prelude::*;

use crate::error::Error;

verus! {

/// Milliseconds since the epoch denoted by an RFC 3339 timestamp
/// (with the relaxed separator chrono accepts), or nothing when the
/// string is malformed.
pub uninterp spec fn rfc3339_millis_of(s: Seq<char>) -> Option<i64>;

/// Relies on chrono: `str::parse::<DateTime<Utc>>` accepts RFC 3339 and
/// resolves the offset from the string alone, and `timestamp_millis`
/// converts the parsed instant to a plain value; the outcome depends on
/// the characters alone.
#[verifier::external_body]
pub(crate) fn parse_rfc3339_millis(s: &str) -> (r: Option<i64>)
    ensures
        r == rfc3339_millis_of(s@),
{
    s.parse::<chrono::DateTime<chrono::Utc>>().ok().map(|t| t.timestamp_millis())
}

/// The length in milliseconds denoted by a human duration string such
/// as `60s` or `24h`, or nothing when the string is malformed.
pub uninterp spec fn duration_millis_of(s: Seq<char>) -> Option<u128>;

/// Relies on parse_duration::parse, a pure function from the string to
/// a span of time built with integer arithmetic.
#[verifier::external_body]
pub(crate) fn parse_duration_millis(s: &str) -> (r: Option<u128>)
    ensures
        r == duration_millis_of(s@),
{
    parse_duration::parse(s).ok().map(|d| d.as_millis())
}

/// How long ago, in milliseconds, the moment `stamp` was, seen from
/// `now_ms`. Errors on a malformed stamp and on one in the future,
/// both of which the caller treats as bad user input.
pub fn age_millis(stamp: &str, now_ms: i64) -> (r: Result<u64, Error>)
    ensures
        match r {
            Ok(age) => {
                &&& rfc3339_millis_of(stamp@) matches Some(t)
                &&& t <= now_ms
                &&& age == now_ms - t
            },
            Err(e) => {
                &&& e is UserInput
                &&& (rfc3339_millis_of(stamp@) matches Some(t) ==> t > now_ms)
            },
        },
{
    match parse_rfc3339_millis(stamp) {
        None => Err(Error::UserInput(String::from_str("malformed timestamp"))),
        Some(t) => {
            if t <= now_ms {
                let wide: i128 = now_ms as i128 - t as i128;
                Ok(wide as u64)
            } else {
                Err(Error::UserInput(String::from_str("timestamp lies in the future")))
            }
        },
    }
}

/// Whether a status written at `stamp` is stale at `now_ms`: older than
/// the probe interval, malformed, or from the future.
pub fn is_stale(stamp: &str, now_ms: i64) -> (r: bool)
    ensures
        r == !(rfc3339_millis_of(stamp@) matches Some(t) && t <= now_ms && now_ms - t
            <= crate::PROBE_INTERVAL_MS),
{
    match age_millis(stamp, now_ms) {
        Ok(age) => age > crate::PROBE_INTERVAL_MS,
        Err(_) => true,
    }
}

} // verus!
