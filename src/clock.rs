//! The wall clock, read through std, and UTC date stamps, rendered by chrono.

use std::time::{Duration, SystemTime};
use vstd::prelude::*;

verus! {

/// The latest Unix time chrono represents: 262142-12-31 23:59:59 UTC.
pub const MAX_STAMP_SECS: u64 = 8_210_266_876_799;

/// chrono's rendering of the Unix time `secs` (`0 <= secs <= MAX_STAMP_SECS`)
/// as `YYYY-MM-DD_HH-MM-SS_UTC`.
pub uninterp spec fn utc_file_stamp(secs: int) -> Seq<char>;

#[verifier::external_type_specification]
#[verifier::external_body]
pub struct ExSystemTime(SystemTime);

/// Relies on `std::time::SystemTime::now`: the current wall-clock time.
/// Nothing is promised of its value.
#[verifier::external_body]
fn system_now() -> (r: SystemTime) {
    SystemTime::now()
}

/// Relies on `SystemTime::duration_since(UNIX_EPOCH)`: the time from the
/// Unix epoch to `t`, or `None` when `t` is earlier than the epoch.
#[verifier::external_body]
fn elapsed_since_epoch(t: &SystemTime) -> (r: Option<Duration>) {
    match t.duration_since(std::time::UNIX_EPOCH) {
        Ok(d) => Some(d),
        Err(_) => None,
    }
}

/// Relies on `Duration::as_secs`: the whole seconds of a duration. Nothing
/// more is stated; it never panics.
pub assume_specification[ Duration::as_secs ](d: &Duration) -> u64;

/// The current Unix time in whole seconds, or `None` when the clock reads
/// a time before the epoch.
pub(crate) fn clock_seconds() -> (r: Option<u64>) {
    let now = system_now();
    match elapsed_since_epoch(&now) {
        Some(d) => Some(d.as_secs()),
        None => None,
    }
}

/// Relies on `chrono::DateTime::from_timestamp` and `DateTime::format`: the
/// UTC date and time of `secs` with the pattern `%Y-%m-%d_%H-%M-%S_UTC`.
/// `from_timestamp` returns `Some` for every time from the epoch up to
/// chrono's last date, `NaiveDate::MAX` (262142-12-31), which bounds `secs`.
#[verifier::external_body]
pub(crate) fn format_file_stamp(secs: u64) -> (r: Option<String>)
    requires
        secs <= MAX_STAMP_SECS,
    ensures
        r is Some,
        r matches Some(s) ==> s@ == utc_file_stamp(secs as int),
{
    match chrono::DateTime::from_timestamp(secs as i64, 0) {
        Some(t) => Some(t.format("%Y-%m-%d_%H-%M-%S_UTC").to_string()),
        None => None,
    }
}

} // verus!
