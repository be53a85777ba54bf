//! The clocks that the application reads: monotonic instants for refresh
//! timing and the system clock for pull-request ages.

use vstd::prelude::*;

use core::time::Duration;
use std::time::SystemTime;

verus! {

/// A moment of the monotonic clock (`std::time::Instant`), carried as is.
#[verifier::external_type_specification]
#[verifier::external_body]
pub struct ExInstant(std::time::Instant);

/// A moment of the system clock (`std::time::SystemTime`), carried as is.
#[verifier::external_type_specification]
#[verifier::external_body]
pub struct ExSystemTime(std::time::SystemTime);

/// What `Duration::as_secs` returns for a duration: its whole seconds.
pub uninterp spec fn duration_secs(d: Duration) -> u64;

/// What `Duration::subsec_nanos` returns for a duration: the nanoseconds
/// beyond its whole seconds.
pub uninterp spec fn duration_subsec_nanos(d: Duration) -> u32;

/// `Instant::now` reads the monotonic clock; nothing is promised of the moment it returns.
pub assume_specification[ std::time::Instant::now ]() -> std::time::Instant;

/// `Instant::elapsed` measures the time since an instant; nothing is promised of the duration.
pub assume_specification[ std::time::Instant::elapsed ](t: &std::time::Instant) -> Duration;

/// `SystemTime::now` reads the system clock; nothing is promised of the moment it returns.
pub assume_specification[ std::time::SystemTime::now ]() -> SystemTime;

/// `Duration::as_secs` gives the whole seconds of a duration: the result is
/// named `duration_secs` of the duration.
pub assume_specification[ core::time::Duration::as_secs ](d: &Duration) -> (r: u64)
    ensures
        r == duration_secs(*d),
;

/// `Duration::subsec_nanos` gives the fractional part of a duration in
/// nanoseconds: the result is named `duration_subsec_nanos` of the duration,
/// and it is, as documented, always less than one billion.
pub assume_specification[ core::time::Duration::subsec_nanos ](d: &Duration) -> (r: u32)
    ensures
        r == duration_subsec_nanos(*d),
        r < 1_000_000_000,
;

/// Calls `SystemTime::duration_since` with the Unix epoch: the time from the
/// epoch to `t`, or `None` when `t` lies before the epoch. The moment is read
/// from the clock, so nothing is promised of the duration.
#[verifier::external_body]
fn since_unix_epoch(t: &SystemTime) -> Option<Duration> {
    t.duration_since(std::time::UNIX_EPOCH).ok()
}

/// A clock reading of `d` after the Unix epoch, as whole seconds and
/// nanoseconds, when the seconds fit in an `i64`.
pub open spec fn epoch_reading_of(d: Duration) -> Option<(i64, u32)> {
    if duration_secs(d) <= i64::MAX {
        Some((duration_secs(d) as i64, duration_subsec_nanos(d)))
    } else {
        None
    }
}

/// The reading of a clock that stands `d` after the Unix epoch: its whole
/// seconds and nanoseconds, or nothing when the seconds exceed an `i64`.
pub fn epoch_reading(d: Duration) -> (r: Option<(i64, u32)>)
    ensures
        r == epoch_reading_of(d),
        r matches Some(n) ==> n.0 >= 0 && n.1 < 1_000_000_000,
{
    let secs = d.as_secs();
    if secs <= 9_223_372_036_854_775_807u64 {
        Some((secs as i64, d.subsec_nanos()))
    } else {
        None
    }
}

/// The system clock as whole seconds and nanoseconds since the Unix epoch:
/// the `epoch_reading` of the time since the epoch, or nothing when the clock
/// lies before the epoch.
pub fn unix_now() -> (now: Option<(i64, u32)>)
    ensures
        now matches Some(n) ==> n.0 >= 0 && n.1 < 1_000_000_000,
        now is None || exists|d: Duration| now == epoch_reading_of(d),
{
    let t = SystemTime::now();
    match since_unix_epoch(&t) {
        Some(d) => epoch_reading(d),
        None => None,
    }
}

} // verus!
