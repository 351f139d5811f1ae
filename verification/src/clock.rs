//! Clock readings as nanosecond counts.
//!
//! The monotonic clock counts the nanoseconds elapsed since a baseline instant
//! that the caller captured once; the wall clock counts the nanoseconds since the
//! Unix epoch. Both are unsigned 128-bit counts.

use std::time::Duration;
use std::time::Instant;
use std::time::SystemTime;
use vstd::prelude::*;

verus! {

/// Number of nanoseconds in one second.
pub const NANOS_PER_SEC: u32 = 1_000_000_000u32;

/// `std::time::Instant`, a reading of the machine's monotonic clock. Opaque here.
#[verifier::external_type_specification]
#[verifier::external_body]
pub struct ExInstant(std::time::Instant);

/// `std::time::SystemTime`, a reading of the machine's wall clock. Opaque here.
#[verifier::external_type_specification]
#[verifier::external_body]
pub struct ExSystemTime(std::time::SystemTime);

/// The nanosecond count that stands for a duration of `secs` whole seconds and
/// `subsec_nanos` further nanoseconds.
pub open spec fn nanos_of(secs: u64, subsec_nanos: u32) -> int {
    secs * 1_000_000_000 + subsec_nanos
}

/// The largest count that [`duration_to_u128`] can return for a duration whose
/// fractional part is below one second.
pub open spec fn max_duration_nanos() -> int {
    u64::MAX * 1_000_000_000 + 999_999_999
}

/// The whole seconds that a duration holds: what `std::time::Duration::as_secs`
/// returns for it.
pub uninterp spec fn whole_secs(duration: Duration) -> u64;

/// The nanoseconds that a duration holds beyond its whole seconds: what
/// `std::time::Duration::subsec_nanos` returns for it.
pub uninterp spec fn fraction_nanos(duration: Duration) -> u32;

/// The nanosecond count of a duration: a thousand million for each whole second,
/// and the nanoseconds beyond them.
pub open spec fn duration_nanos_spec(duration: Duration) -> int {
    nanos_of(whole_secs(duration), fraction_nanos(duration))
}

/// Calls `std::time::Instant::now`. Nothing is claimed of the reading.
#[verifier::external_body]
pub(crate) fn instant_now() -> (now: Instant) {
    Instant::now()
}

/// Calls `std::time::Instant::elapsed`. Nothing is claimed of the duration, which
/// depends on when the call is made.
#[verifier::external_body]
pub(crate) fn instant_elapsed(start: &Instant) -> (elapsed: Duration) {
    start.elapsed()
}

/// Calls `std::time::SystemTime::now`. Nothing is claimed of the reading.
#[verifier::external_body]
pub(crate) fn system_time_now() -> (now: SystemTime) {
    SystemTime::now()
}

/// Calls `std::time::SystemTime::duration_since` with `UNIX_EPOCH` as the earlier
/// time. `None` stands for the error that std returns when `time` lies before the
/// epoch. Nothing is claimed of the duration.
#[verifier::external_body]
pub(crate) fn since_unix_epoch(time: &SystemTime) -> (elapsed: Option<Duration>) {
    match time.duration_since(SystemTime::UNIX_EPOCH) {
        Ok(elapsed) => Some(elapsed),
        Err(_) => None,
    }
}

/// Calls `std::time::Duration::as_secs`. A duration is a plain value, so the
/// result depends on nothing but the duration: it is named `whole_secs`.
#[verifier::external_body]
pub(crate) fn duration_as_secs(duration: &Duration) -> (secs: u64)
    ensures
        secs == whole_secs(*duration),
{
    duration.as_secs()
}

/// Calls `std::time::Duration::subsec_nanos`. The result depends on nothing but
/// the duration: it is named `fraction_nanos`. std documents it to be the
/// fractional part of a second, below a thousand million.
#[verifier::external_body]
pub(crate) fn duration_subsec_nanos(duration: &Duration) -> (nanos: u32)
    ensures
        nanos == fraction_nanos(*duration),
        nanos < NANOS_PER_SEC,
{
    duration.subsec_nanos()
}

/// Converts a duration, given as whole seconds and the nanoseconds beyond them,
/// to a nanosecond count. The sum is formed in 128 bits and cannot overflow.
pub fn duration_to_u128(secs: u64, subsec_nanos: u32) -> (nanos: u128)
    ensures
        nanos == nanos_of(secs, subsec_nanos),
{
    let whole: u128 = (secs as u128) * 1_000_000_000u128;
    whole + (subsec_nanos as u128)
}

/// The nanosecond count of a duration of std: its whole seconds and the
/// nanoseconds beyond them, put together as [`duration_to_u128`] does.
pub fn duration_nanos(duration: &Duration) -> (nanos: u128)
    ensures
        nanos == duration_nanos_spec(*duration),
        nanos <= max_duration_nanos(),
{
    let secs: u64 = duration_as_secs(duration);
    let subsec: u32 = duration_subsec_nanos(duration);
    duration_to_u128(secs, subsec)
}

/// The nanosecond count of the time since an epoch, where the clock gave one:
/// the count of the duration, and `None` where there is no duration.
pub fn elapsed_nanos(elapsed: Option<Duration>) -> (nanos: Option<u128>)
    ensures
        elapsed is None ==> nanos is None,
        elapsed matches Some(duration) ==> nanos == Some(duration_nanos_spec(duration) as u128),
        nanos matches Some(count) ==> count <= max_duration_nanos(),
{
    match elapsed {
        Some(duration) => Some(duration_nanos(&duration)),
        None => None,
    }
}

/// Reads the monotonic clock: the nanoseconds elapsed since `start`.
pub fn monotonic_clock(start: &Instant) -> (now: u128)
    ensures
        now <= max_duration_nanos(),
{
    let elapsed = instant_elapsed(start);
    duration_nanos(&elapsed)
}

/// Reads the wall clock: the nanoseconds since the Unix epoch, or `None` where the
/// machine's clock reads a time before the epoch, which no count can stand for.
pub fn system_clock() -> (now: Option<u128>)
    ensures
        now matches Some(nanos) ==> nanos <= max_duration_nanos(),
{
    let time = system_time_now();
    elapsed_nanos(since_unix_epoch(&time))
}

/// The nanosecond count preserves the order of durations: a duration that is not
/// longer than another, compared by whole seconds first and by the fractional
/// part next, has a count that is not larger.
pub proof fn lemma_nanos_monotonic(secs1: u64, subsec1: u32, secs2: u64, subsec2: u32)
    requires
        subsec1 < NANOS_PER_SEC,
        subsec2 < NANOS_PER_SEC,
        secs1 < secs2 || (secs1 == secs2 && subsec1 <= subsec2),
    ensures
        nanos_of(secs1, subsec1) <= nanos_of(secs2, subsec2),
{
}

} // verus!
