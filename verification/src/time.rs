//! Instants on the UTC time line as plain integers, and the two calls into
//! `chrono` that the library needs: reading the clock and naming a calendar day.
use vstd::prelude::*;

verus! {

/// Nanoseconds in one second.
pub const NANOS_PER_SECOND: i128 = 1_000_000_000;

/// Seconds in one day.
pub const SECONDS_PER_DAY: i64 = 86_400;

/// Smallest Unix second that `chrono` turns into a calendar date
/// (January 1, 262143 BCE, 00:00:00 UTC).
pub const MIN_UTC_SECONDS: i64 = -8_334_601_228_800;

/// Largest Unix second that `chrono` turns into a calendar date
/// (December 31, 262142 CE, 23:59:59 UTC).
pub const MAX_UTC_SECONDS: i64 = 8_210_266_876_799;

/// An instant as a Unix timestamp: whole seconds since 1970-01-01 00:00:00 UTC
/// and the nanoseconds elapsed within that second.
#[derive(Clone, Copy, Debug, PartialEq, Eq, Structural)]
pub struct Timestamp {
    pub secs: i64,
    pub nanos: u32,
}

impl Timestamp {
    /// The instant counted in nanoseconds since the Unix epoch.
    pub open spec fn total_nanos(self) -> int {
        self.secs * 1_000_000_000 + self.nanos
    }
}

/// Signed nanoseconds that pass from `earlier` to `later`.
pub open spec fn nanos_between(earlier: Timestamp, later: Timestamp) -> int {
    later.total_nanos() - earlier.total_nanos()
}

/// A span of nanoseconds in whole seconds, truncated toward zero.
pub open spec fn whole_seconds(nanos: int) -> int {
    if nanos >= 0 {
        nanos / 1_000_000_000
    } else {
        -((-nanos) / 1_000_000_000)
    }
}

/// Computes the nanoseconds that pass from `earlier` to `later`.
pub fn elapsed_nanos(earlier: Timestamp, later: Timestamp) -> (d: i128)
    ensures
        d == nanos_between(earlier, later),
{
    let ds: i128 = later.secs as i128 - earlier.secs as i128;
    let dn: i128 = later.nanos as i128 - earlier.nanos as i128;
    assert(-0x1_0000_0000_0000_0000 <= ds <= 0x1_0000_0000_0000_0000);
    ds * NANOS_PER_SECOND + dn
}

/// Truncates a span of nanoseconds toward zero to whole seconds.
pub fn truncate_to_seconds(nanos: i128) -> (s: i128)
    requires
        nanos > i128::MIN,
    ensures
        s == whole_seconds(nanos as int),
{
    if nanos >= 0 {
        nanos / NANOS_PER_SECOND
    } else {
        -((-nanos) / NANOS_PER_SECOND)
    }
}

/// Reads the system clock as the time elapsed since the Unix epoch, through
/// `std::time::SystemTime::now` and `SystemTime::duration_since(UNIX_EPOCH)`,
/// in whole seconds (`Duration::as_secs`) and nanoseconds (`Duration::subsec_nanos`).
/// Claims what std documents: `duration_since` fails (here `None`) when the
/// clock reads a time before the epoch, and `subsec_nanos` is below one
/// billion. Which time comes back is not stated: it is the time of the call.
#[verifier::external_body]
fn clock_since_epoch() -> (r: Option<(u64, u32)>)
    ensures
        r matches Some(reading) ==> reading.1 < 1_000_000_000,
{
    match std::time::SystemTime::now().duration_since(std::time::UNIX_EPOCH) {
        Ok(elapsed) => Some((elapsed.as_secs(), elapsed.subsec_nanos())),
        Err(_) => None,
    }
}

/// The instant of Unix second `secs` and nanosecond `nanos`, as `chrono`
/// holds it, through `chrono::DateTime::from_timestamp` and back through
/// `DateTime::timestamp` and `DateTime::timestamp_subsec_nanos`.
/// Claims what its source and documentation show: with nanoseconds below one
/// second, `from_timestamp` accepts exactly the seconds of the dates from
/// `NaiveDate::MIN` to `NaiveDate::MAX`, and an accepted instant reads back
/// unchanged (the documented round trip).
#[verifier::external_body]
fn utc_from_unix(secs: i64, nanos: u32) -> (r: Option<Timestamp>)
    requires
        nanos < 1_000_000_000,
    ensures
        r is Some <==> MIN_UTC_SECONDS <= secs <= MAX_UTC_SECONDS,
        r matches Some(t) ==> t == (Timestamp { secs, nanos }),
{
    match chrono::DateTime::from_timestamp(secs, nanos) {
        Some(instant) => Some(Timestamp {
            secs: instant.timestamp(),
            nanos: instant.timestamp_subsec_nanos(),
        }),
        None => None,
    }
}

/// Reads the system clock as a UTC instant: `None` when the clock reads a
/// time before 1970 or after the last date `chrono` can hold.
pub(crate) fn utc_now() -> (r: Option<Timestamp>)
    ensures
        r matches Some(t) ==> 0 <= t.secs <= MAX_UTC_SECONDS && t.nanos < 1_000_000_000,
{
    match clock_since_epoch() {
        Some((secs, nanos)) => {
            if secs <= MAX_UTC_SECONDS as u64 {
                utc_from_unix(secs as i64, nanos)
            } else {
                None
            }
        },
        None => None,
    }
}

/// The text `chrono` writes for the UTC calendar day holding Unix second
/// `secs` with the format `%Y-%m-%d`.
pub uninterp spec fn utc_calendar_date(secs: i64) -> Seq<char>;

/// Formats the UTC calendar day of Unix second `secs` as `%Y-%m-%d`, through
/// `chrono::DateTime::from_timestamp` and `DateTime::format`.
/// Claims that `from_timestamp` accepts exactly the seconds of the dates from
/// `NaiveDate::MIN` to `NaiveDate::MAX` (its source: the day number must be a
/// valid `NaiveDate`, the nanoseconds, here 0, valid), and that the text is a
/// function of `secs` alone (formatting a UTC date reads no time zone).
#[verifier::external_body]
pub(crate) fn format_utc_date(secs: i64) -> (r: Option<String>)
    ensures
        r is Some <==> MIN_UTC_SECONDS <= secs <= MAX_UTC_SECONDS,
        r matches Some(text) ==> text@ == utc_calendar_date(secs),
{
    match chrono::DateTime::from_timestamp(secs, 0) {
        Some(day) => Some(day.format("%Y-%m-%d").to_string()),
        None => None,
    }
}

} // verus!
