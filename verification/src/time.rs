//! Instants on the UTC time line, and the two places where the library asks
//! the `chrono` crate: reading an RFC 3339 text, and sampling the clock.

use vstd::prelude::*;

verus! {

/// An instant in UTC: whole seconds since 1970-01-01T00:00:00Z and the
/// nanoseconds past that second. During a leap second `nanos` may exceed
/// 999,999,999.
#[derive(Debug, Clone, Copy, PartialEq, Eq, Structural)]
pub struct Timestamp {
    pub seconds: i64,
    pub nanos: u32,
}

/// The instant that `chrono` reads from `text` as an RFC 3339 date and time,
/// or `None` where `chrono` rejects the text.
pub uninterp spec fn rfc3339_utc(text: Seq<char>) -> Option<Timestamp>;

/// Calls `chrono::DateTime::parse_from_rfc3339` and moves the result to UTC
/// with `DateTime::with_timezone`. Trusted: the result is a function of the
/// text alone, named `rfc3339_utc`; a text that `chrono` rejects gives `None`.
#[verifier::external_body]
pub(crate) fn parse_rfc3339(text: &str) -> (instant: Option<Timestamp>)
    ensures
        instant == rfc3339_utc(text@),
{
    match chrono::DateTime::parse_from_rfc3339(text) {
        Ok(parsed) => {
            let utc = parsed.with_timezone(&chrono::Utc);
            Some(Timestamp { seconds: utc.timestamp(), nanos: utc.timestamp_subsec_nanos() })
        },
        Err(_) => None,
    }
}

/// Calls `chrono::Utc::now` and takes its `timestamp`: the current Unix time
/// in whole seconds. Trusted, with nothing promised of the value: it is
/// whatever the system clock says. `chrono` aborts where the system clock
/// stands before 1970.
#[verifier::external_body]
pub(crate) fn unix_now() -> (seconds: i64)
{
    chrono::Utc::now().timestamp()
}

} // verus!
