//! Clocks. The library keeps points in time as nanoseconds on a monotonic scale whose zero
//! its caller picks, and wall clock time as seconds since the Unix epoch.

use crate::text::{decimal, decimal_text};
use vstd::prelude::*;

verus! {

/// `std::time::Instant`, carried as an opaque value.
#[verifier::external_type_specification]
#[verifier::external_body]
pub struct ExInstant(std::time::Instant);

/// `Instant::now`: a reading of the monotonic clock, of which nothing is claimed.
pub assume_specification[ std::time::Instant::now ]() -> (r: std::time::Instant);

/// `Instant::clone`: an instant is plain data, and the copy is the same instant.
pub assume_specification[ <std::time::Instant as Clone>::clone ](
    instant: &std::time::Instant,
) -> (r: std::time::Instant)
    ensures
        r == instant,
;

/// `Instant::elapsed`: the time since the reading was taken, of which nothing is claimed.
pub assume_specification[ std::time::Instant::elapsed ](
    instant: &std::time::Instant,
) -> (r: std::time::Duration);

/// `Duration::as_nanos`: the number of whole nanoseconds. The duration is opaque, so nothing
/// is claimed of the number.
pub assume_specification[ std::time::Duration::as_nanos ](
    duration: &std::time::Duration,
) -> (r: u128);

pub const NANOS_PER_SEC: u128 = 1_000_000_000;

pub const NANOS_PER_MILLI: u128 = 1_000_000;

/// A reading of both clocks.
#[derive(Debug, Clone, Copy, PartialEq, Eq, Structural)]
pub struct Moment {
    /// Nanoseconds on the monotonic scale.
    pub nanos: u128,
    /// Seconds since the Unix epoch.
    pub epoch_secs: u64,
}

/// The time from `since` to `now`, zero where `now` is earlier.
pub open spec fn span(since: u128, now: u128) -> u128 {
    if now >= since {
        (now - since) as u128
    } else {
        0
    }
}

/// The whole seconds from `since` to `now`.
pub open spec fn span_secs(since: u128, now: u128) -> int {
    span(since, now) as int / 1_000_000_000
}

/// The time from `since` to `now`, zero where `now` is earlier.
pub fn elapsed(since: u128, now: u128) -> (r: u128)
    ensures
        r == span(since, now),
{
    if now >= since {
        now - since
    } else {
        0
    }
}

/// The whole seconds from `since` to `now`, at most `u64::MAX`.
pub fn elapsed_secs(since: u128, now: u128) -> (r: u64)
    ensures
        r == if span_secs(since, now) <= u64::MAX { span_secs(since, now) } else { u64::MAX as int },
{
    let s: u128 = elapsed(since, now) / NANOS_PER_SEC;
    if s <= u64::MAX as u128 {
        s as u64
    } else {
        u64::MAX
    }
}

/// `secs` seconds in nanoseconds.
pub open spec fn secs_in_nanos(secs: u64) -> int {
    secs * 1_000_000_000
}

/// Whether more than `secs` seconds lie between `since` and `now`.
pub fn longer_than(since: u128, now: u128, secs: u64) -> (r: bool)
    ensures
        r == (span(since, now) > secs_in_nanos(secs)),
{
    elapsed(since, now) > (secs as u128) * NANOS_PER_SEC
}

/// Whether `secs` seconds or more lie between `since` and `now`.
pub fn at_least(since: u128, now: u128, secs: u64) -> (r: bool)
    ensures
        r == (span(since, now) >= secs_in_nanos(secs)),
{
    elapsed(since, now) >= (secs as u128) * NANOS_PER_SEC
}

/// `at` is what the monotonic clock gives at some moment.
pub open spec fn is_reading(at: std::time::Instant) -> bool {
    call_ensures(std::time::Instant::now, (), at)
}

/// `d` is what the monotonic clock gives as the time since the reading `start`.
pub open spec fn is_time_since(start: std::time::Instant, d: std::time::Duration) -> bool {
    call_ensures(std::time::Instant::elapsed, (&start,), d)
}

/// `n` is the whole nanoseconds of `d`.
pub open spec fn is_in_nanos(d: std::time::Duration, n: u128) -> bool {
    call_ensures(std::time::Duration::as_nanos, (&d,), n)
}

/// The nanoseconds since a reading of the monotonic clock. The clock decides how many; they are
/// those of a time that it gives for this reading.
pub(crate) fn nanos_since(start: &std::time::Instant) -> (r: u128)
    ensures
        exists|d: std::time::Duration| #[trigger] is_time_since(*start, d) && is_in_nanos(d, r),
{
    let d = start.elapsed();
    let n: u128 = d.as_nanos();
    assert(is_time_since(*start, d) && is_in_nanos(d, n));
    n
}

/// `std::time::SystemTime`, carried as an opaque value.
#[verifier::external_type_specification]
#[verifier::external_body]
pub struct ExSystemTime(std::time::SystemTime);

/// `std::time::SystemTimeError`, carried as an opaque value.
#[verifier::external_type_specification]
#[verifier::external_body]
pub struct ExSystemTimeError(std::time::SystemTimeError);

/// `SystemTime::now`: a reading of the system clock, of which nothing is claimed.
pub assume_specification[ std::time::SystemTime::now ]() -> (r: std::time::SystemTime);

/// `SystemTime::duration_since`: the time from the second reading to the first, an error where
/// the second is later. Both are opaque, so nothing is claimed of the result.
pub assume_specification[ std::time::SystemTime::duration_since ](
    time: &std::time::SystemTime,
    earlier: std::time::SystemTime,
) -> (r: Result<std::time::Duration, std::time::SystemTimeError>);

/// `Duration::as_secs`: the number of whole seconds. The duration is opaque, so nothing is
/// claimed of the number.
pub assume_specification[ std::time::Duration::as_secs ](
    duration: &std::time::Duration,
) -> (r: u64);

/// `std::time::UNIX_EPOCH`, the beginning of 1970.
#[verifier::external_body]
fn unix_epoch() -> (r: std::time::SystemTime) {
    std::time::UNIX_EPOCH
}

/// The system clock reads `now`, its distance from the Unix epoch is `since`, and that makes
/// `secs` seconds: none where the clock stands before the epoch.
pub closed spec fn reads_epoch(
    now: std::time::SystemTime,
    since: Result<std::time::Duration, std::time::SystemTimeError>,
    secs: u64,
) -> bool {
    &&& call_ensures(std::time::SystemTime::now, (), now)
    &&& exists|epoch: std::time::SystemTime|
        call_ensures(unix_epoch, (), epoch) && #[trigger] call_ensures(
            std::time::SystemTime::duration_since,
            (&now, epoch),
            since,
        )
    &&& match since {
        Ok(d) => call_ensures(std::time::Duration::as_secs, (&d,), secs),
        Err(_) => secs == 0,
    }
}

/// The system clock gives `secs` as the seconds since the Unix epoch.
pub open spec fn is_epoch_reading(secs: u64) -> bool {
    exists|
        now: std::time::SystemTime,
        since: Result<std::time::Duration, std::time::SystemTimeError>,
    | #[trigger] reads_epoch(now, since, secs)
}

/// The seconds since the Unix epoch by the system clock, zero where the clock stands before it.
pub fn epoch_seconds() -> (r: u64)
    ensures
        is_epoch_reading(r),
{
    let now = std::time::SystemTime::now();
    let epoch = unix_epoch();
    let since = now.duration_since(epoch);
    let ghost held = since;
    let secs: u64 = match &since {
        Ok(d) => d.as_secs(),
        Err(_) => 0,
    };
    assert(reads_epoch(now, held, secs));
    secs
}

/// The text that marks a transition in the history: seconds since the Unix epoch.
pub fn timestamp_text(epoch_secs: u64) -> (r: String)
    ensures
        r@ == decimal(epoch_secs as nat),
{
    decimal_text(epoch_secs)
}

/// The present time as a timestamp: the seconds since the Unix epoch, by the system clock, in
/// decimal.
pub fn chrono_timestamp() -> (r: String)
    ensures
        exists|secs: u64| #[trigger] is_epoch_reading(secs) && r@ == decimal(secs as nat),
{
    let secs: u64 = epoch_seconds();
    timestamp_text(secs)
}

/// Time runs forward: from a moment to one that is later by `d` it is `d`, and to an earlier one
/// it is nothing. Whole seconds are counted down.
pub proof fn time_runs_forward(since: u128, now: u128, secs: u64)
    ensures
        now >= since ==> span(since, now) == now - since,
        now < since ==> span(since, now) == 0,
        span_secs(since, now) * 1_000_000_000 <= span(since, now) < (span_secs(since, now) + 1)
            * 1_000_000_000,
        secs_in_nanos(secs) == secs * 1000 * 1000 * 1000,
{
}

/// The functions on time agree with the differences of the clock: longer than and at least as
/// long as a number of seconds, and the whole seconds in between.
pub proof fn time_is_compared(since: u128, now: u128, secs: u64, longer: bool, least: bool, whole: u64)
    requires
        call_ensures(longer_than, (since, now, secs), longer),
        call_ensures(at_least, (since, now, secs), least),
        call_ensures(elapsed_secs, (since, now), whole),
    ensures
        longer <==> now - since > secs * 1_000_000_000,
        now >= since ==> (least <==> now - since >= secs * 1_000_000_000),
        now >= since && now - since < 0x1_0000_0000_0000_0000 ==> whole == (now - since)
            / 1_000_000_000,
        now <= since ==> whole == 0,
{
}

} // verus!
