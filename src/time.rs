//! Instants are whole seconds since the Unix epoch, UTC.
use vstd::prelude::*;
use chrono::Datelike;

verus! {

/// Seconds in one UTC calendar day.
pub const SECONDS_PER_DAY: i64 = 86400;

/// Midnight UTC of the calendar day that holds instant `t`.
pub open spec fn day_start_of(t: int) -> int {
    t - t % 86400
}

/// Midnight UTC of the calendar day that holds `t`.
pub fn start_of_day(t: i64) -> (r: i64)
    requires
        // the day's start must itself be an `i64`
        t >= i64::MIN + 86400,
    ensures
        r == day_start_of(t as int),
        r <= t,
        t < r + 86400,
        r % 86400 == 0,
{
    let rem: i64 = t % SECONDS_PER_DAY;
    if rem < 0 {
        // Rust's `%` keeps the dividend's sign; move back one more day.
        proof {
            assert(t % 86400 == rem + 86400);
        }
        t - rem - SECONDS_PER_DAY
    } else {
        t - rem
    }
}

/// The instant that an RFC 3339 text names, where it names one.
pub uninterp spec fn rfc3339_instant(s: Seq<char>) -> Option<i64>;

/// Whether chrono can represent the instant `secs` seconds after the epoch.
pub uninterp spec fn representable_instant(secs: i64) -> bool;

/// Midnight UTC of the first day of the calendar month that holds `t`,
/// where chrono can represent `t`.
pub uninterp spec fn month_start_of(t: i64) -> Option<i64>;

/// Relies on chrono's `DateTime::parse_from_rfc3339` and `DateTime::timestamp`:
/// the instant the text names, or `None` where it does not parse; the answer
/// depends on the text alone.
#[verifier::external_body]
pub(crate) fn parse_rfc3339(s: &str) -> (r: Option<i64>)
    ensures
        r == rfc3339_instant(s@),
{
    chrono::DateTime::parse_from_rfc3339(s).ok().map(|d| d.timestamp())
}

/// Relies on chrono's `DateTime::from_timestamp` (whole seconds), which
/// round-trips with `DateTime::timestamp`: `None` on an out-of-range count.
#[verifier::external_body]
pub(crate) fn instant_from_seconds(secs: i64) -> (r: Option<i64>)
    ensures
        r == (if representable_instant(secs) { Some(secs) } else { None::<i64> }),
{
    chrono::DateTime::from_timestamp(secs, 0).map(|d| d.timestamp())
}

/// Relies on chrono's `DateTime::from_timestamp`, `NaiveDate::with_day(1)` and
/// `NaiveDate::and_hms_opt(0, 0, 0)`: midnight of the month's first day, which
/// is never after `t`.
#[verifier::external_body]
pub(crate) fn start_of_month(t: i64) -> (r: Option<i64>)
    ensures
        r == month_start_of(t),
        r matches Some(m) ==> m <= t,
{
    chrono::DateTime::from_timestamp(t, 0)
        .and_then(|d| d.date_naive().with_day(1))
        .and_then(|d| d.and_hms_opt(0, 0, 0))
        .map(|d| d.and_utc().timestamp())
}

/// The instant an event text names, or `fallback` where it names none.
pub open spec fn event_time(text: Seq<char>, fallback: i64) -> i64 {
    match rfc3339_instant(text) {
        Some(t) => t,
        None => fallback,
    }
}

/// Midnight UTC of the first day of the month holding `t`: where a
/// month-to-date window starts. `None` where chrono cannot represent `t`.
pub fn month_start(t: i64) -> (r: Option<i64>)
    ensures
        r == month_start_of(t),
        r matches Some(m) ==> m <= t,
{
    start_of_month(t)
}

/// The instant of an RFC 3339 event text, falling back to `fallback` (the
/// ingestion time) where the text does not parse.
pub fn event_time_or(text: &str, fallback: i64) -> (r: i64)
    ensures
        r == event_time(text@, fallback),
{
    match parse_rfc3339(text) {
        Some(t) => t,
        None => fallback,
    }
}

/// The instant `secs` seconds after the epoch, falling back to `fallback`
/// where chrono cannot represent it.
pub fn seconds_or(secs: i64, fallback: i64) -> (r: i64)
    ensures
        r == (if representable_instant(secs) { secs } else { fallback }),
{
    match instant_from_seconds(secs) {
        Some(t) => t,
        None => fallback,
    }
}

} // verus!
