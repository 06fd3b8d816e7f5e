//! Wall-clock time, read through `chrono`.

use vstd::prelude::*;

verus! {

/// A point in time as `chrono` reports it: whole seconds since the Unix epoch and the
/// nanoseconds past that second.
#[derive(Clone, Copy, Debug, PartialEq, Eq)]
pub struct Timestamp {
    pub secs: i64,
    pub nanos: u32,
}

/// Calls `chrono::Local::now` and reads the instant back with `timestamp` and
/// `timestamp_subsec_nanos`. Which instant it is depends on the clock and is not stated; chrono
/// builds it from the system time since the Unix epoch (and stops when the clock is before it),
/// so the seconds are not negative and the nanoseconds stay below one second.
#[verifier::external_body]
pub(crate) fn now_timestamp() -> (now: Timestamp)
    ensures
        now.secs >= 0,
        now.nanos < 1_000_000_000,
{
    let now = chrono::Local::now();
    Timestamp { secs: now.timestamp(), nanos: now.timestamp_subsec_nanos() }
}

/// Calls `chrono::Local::now` and renders it with `chrono::DateTime::format` and `pattern`,
/// which must be the date-and-time pattern the tasks are stamped with (an invalid pattern makes
/// chrono's formatting fail). It depends on the clock and the time zone, so nothing is stated
/// of the text.
#[verifier::external_body]
pub(crate) fn format_local_now(pattern: &str) -> (text: String)
    requires
        pattern@ == "%Y-%m-%d %H:%M:%S"@,
{
    chrono::Local::now().format(pattern).to_string()
}

/// The whole seconds from `start` to `now` as chrono counts them, or `None` when chrono cannot
/// represent one of the two instants.
pub uninterp spec fn seconds_between(start: Timestamp, now: Timestamp) -> Option<i64>;

/// Calls `chrono::DateTime::from_timestamp` on both instants, then `signed_duration_since` and
/// `TimeDelta::num_seconds`. The result is named; outside leap seconds (nanoseconds below one
/// second) it is the exact span rounded toward zero to whole seconds. When chrono can represent
/// both instants is not stated.
#[verifier::external_body]
pub(crate) fn chrono_seconds_between(start: Timestamp, now: Timestamp) -> (seconds: Option<i64>)
    ensures
        seconds == seconds_between(start, now),
        seconds matches Some(e) ==> (start.nanos < 1_000_000_000 && now.nanos < 1_000_000_000
            ==> e == div_toward_zero(
            (now.secs - start.secs) * 1_000_000_000 + now.nanos - start.nanos,
            1_000_000_000,
        )),
{
    let from = chrono::DateTime::from_timestamp(start.secs, start.nanos);
    let to = chrono::DateTime::from_timestamp(now.secs, now.nanos);
    match (from, to) {
        (Some(a), Some(b)) => Some(b.signed_duration_since(a).num_seconds()),
        _ => None,
    }
}

/// `a` divided by a positive `b`, rounded toward zero.
pub open spec fn div_toward_zero(a: int, b: int) -> int {
    if a >= 0 {
        a / b
    } else {
        -((-a) / b)
    }
}

} // verus!
