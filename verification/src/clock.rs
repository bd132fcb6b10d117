//! Readings of the machine's clocks.
//!
//! Verus does not look inside `Duration` and `Instant`. What the library needs
//! of them is named here, and the few standard functions that it calls are
//! specified over those names.

use std::time::{Duration, Instant, SystemTime, SystemTimeError, UNIX_EPOCH};
use vstd::prelude::*;

verus! {

/// `std::time::Instant`, carried through unopened.
#[verifier::external_type_specification]
#[verifier::external_body]
pub struct ExInstant(Instant);

/// `std::time::SystemTime`, carried through unopened.
#[verifier::external_type_specification]
#[verifier::external_body]
pub struct ExSystemTime(SystemTime);

/// `std::time::SystemTimeError`, which says by how much a time lies before
/// another one; the library only notes that it came.
#[verifier::external_type_specification]
#[verifier::external_body]
pub struct ExSystemTimeError(SystemTimeError);

/// The number of nanoseconds that a duration holds.
pub uninterp spec fn duration_nanos(duration: Duration) -> nat;

/// The number of nanoseconds from `earlier` to `later`, zero where `earlier` is
/// the later one of the two.
pub uninterp spec fn nanos_between(later: Instant, earlier: Instant) -> nat;

/// The time from the Unix epoch to `time`, or none where `time` lies before the
/// epoch.
pub uninterp spec fn unix_gap(time: SystemTime) -> Option<Duration>;

/// `Duration::as_nanos`: the total number of nanoseconds in the duration.
pub assume_specification[ Duration::as_nanos ](duration: &Duration) -> (nanos: u128)
    ensures
        nanos == duration_nanos(*duration),
;

/// `Duration::as_millis`: the total number of whole milliseconds in the
/// duration.
pub assume_specification[ Duration::as_millis ](duration: &Duration) -> (millis: u128)
    ensures
        millis == duration_nanos(*duration) / 1_000_000,
;

/// `Instant::saturating_duration_since`: the time from `earlier` to `instant`,
/// or zero if `earlier` is later than it.
pub assume_specification[ Instant::saturating_duration_since ](
    instant: &Instant,
    earlier: Instant,
) -> (gap: Duration)
    ensures
        duration_nanos(gap) == nanos_between(*instant, earlier),
;

/// `SystemTime::now`: what the system clock reads. Nothing is claimed of it.
#[verifier::external_body]
fn system_now() -> SystemTime {
    SystemTime::now()
}

/// `SystemTime::duration_since` the Unix epoch: the time from the epoch to `time`,
/// or an error where `time` lies before the epoch.
#[verifier::external_body]
fn since_unix_epoch(time: SystemTime) -> (gap: Result<Duration, SystemTimeError>)
    ensures
        unix_gap(time) == match gap {
            Ok(duration) => Some(duration),
            Err(_) => None,
        },
{
    time.duration_since(UNIX_EPOCH)
}

/// The low 64 bits of a count of milliseconds.
pub open spec fn low_u64(n: int) -> u64 {
    (n % 0x1_0000_0000_0000_0000) as u64
}

/// Whole milliseconds in a number of nanoseconds, as a 64-bit count.
pub open spec fn millis_of_nanos(nanos: int) -> u64 {
    low_u64(nanos / 1_000_000)
}

/// The low 64 bits of `value`.
pub(crate) fn truncate_u64(value: u128) -> (low: u64)
    ensures
        low == low_u64(value as int),
{
    let low: u64 = #[verifier::truncate] (value as u64);
    assert(value as u64 == value % 0x1_0000_0000_0000_0000u128) by (bit_vector);
    low
}

/// Whole milliseconds of a duration, as a 64-bit count.
pub fn duration_millis(duration: Duration) -> (millis: u64)
    ensures
        millis == millis_of_nanos(duration_nanos(duration) as int),
{
    truncate_u64(duration.as_millis())
}

/// Whole milliseconds from `earlier` to `later`, zero where `earlier` is the
/// later one of the two.
pub fn millis_between(later: Instant, earlier: Instant) -> (millis: u64)
    ensures
        millis == millis_of_nanos(nanos_between(later, earlier) as int),
{
    duration_millis(later.saturating_duration_since(earlier))
}

/// The timestamp that stands for a distance from the Unix epoch: none, where the
/// clock reads a time before the epoch, counts as zero.
pub open spec fn epoch_millis_of(since_epoch: Option<Duration>) -> u64 {
    match since_epoch {
        Some(duration) => millis_of_nanos(duration_nanos(duration) as int),
        None => 0,
    }
}

/// The timestamp of what the system clock reads.
pub open spec fn timestamp_of(time: SystemTime) -> u64 {
    epoch_millis_of(unix_gap(time))
}

/// Milliseconds since the Unix epoch for a given distance from it.
pub fn epoch_millis(since_epoch: Option<Duration>) -> (millis: u64)
    ensures
        millis == epoch_millis_of(since_epoch),
{
    match since_epoch {
        Some(duration) => duration_millis(duration),
        None => 0,
    }
}

/// Milliseconds since the Unix epoch by the system clock. A clock before the
/// epoch reads as zero.
pub fn now_ms() -> (millis: u64)
    ensures
        exists|time: SystemTime| millis == #[trigger] timestamp_of(time),
{
    let time: SystemTime = system_now();
    let since_epoch: Option<Duration> = match since_unix_epoch(time) {
        Ok(duration) => Some(duration),
        Err(_) => None,
    };
    let millis: u64 = epoch_millis(since_epoch);
    assert(millis == timestamp_of(time));
    millis
}

/// A count of milliseconds is the number of whole milliseconds in the nanoseconds,
/// as long as it fits its type.
pub proof fn milliseconds_are_whole(nanos: int)
    requires
        0 <= nanos,
        nanos / 1_000_000 <= u64::MAX,
    ensures
        millis_of_nanos(nanos) * 1_000_000 <= nanos,
        nanos < (millis_of_nanos(nanos) + 1) * 1_000_000,
{
}

/// A count that fits its type is kept, and one that does not wraps around.
pub proof fn counts_wrap_around(n: int)
    requires
        0 <= n,
    ensures
        n <= u64::MAX ==> low_u64(n) == n,
        low_u64(n + u64::MAX + 1) == low_u64(n),
{
}

/// A timestamp is the number of whole milliseconds since the Unix epoch, and zero
/// before it.
pub proof fn timestamps_count_from_the_epoch(time: SystemTime)
    ensures
        unix_gap(time) is None ==> timestamp_of(time) == 0,
        unix_gap(time) matches Some(gap) ==> duration_nanos(gap) / 1_000_000 <= u64::MAX ==> {
            &&& timestamp_of(time) * 1_000_000 <= duration_nanos(gap)
            &&& duration_nanos(gap) < (timestamp_of(time) + 1) * 1_000_000
        },
{
}

} // verus!
