//! Wall-clock timestamps in nanoseconds since the Unix epoch.

use vstd::prelude::*;

verus! {

#[verifier::external_type_specification]
#[verifier::external_body]
pub struct ExSystemTime(std::time::SystemTime);

/// Reads the system clock with `SystemTime::now`; nothing is known of the
/// reading.
#[verifier::external_body]
fn system_now() -> std::time::SystemTime {
    std::time::SystemTime::now()
}

/// `SystemTime::duration_since(UNIX_EPOCH)`: the time elapsed since the
/// epoch, `None` for a time before it. What it returns is not stated: it
/// depends on the clock reading it is given.
#[verifier::external_body]
fn since_unix_epoch(t: std::time::SystemTime) -> Option<std::time::Duration> {
    t.duration_since(std::time::UNIX_EPOCH).ok()
}

/// `Duration::as_nanos`: the whole nanoseconds of a duration.
#[verifier::external_body]
fn whole_nanos(d: std::time::Duration) -> u128 {
    d.as_nanos()
}

/// A timestamp from the nanoseconds elapsed since the epoch: `0` for a
/// clock before the epoch, and `i64::MAX` for a count that does not fit.
pub open spec fn timestamp_of(elapsed: Option<u128>) -> i64 {
    match elapsed {
        None => 0,
        Some(n) => if n > i64::MAX as u128 {
            i64::MAX
        } else {
            n as i64
        },
    }
}

/// Turns the nanoseconds elapsed since the epoch (`None` when the clock is
/// before it) into a timestamp, saturating at `i64::MAX`.
pub fn timestamp_from_elapsed(elapsed: Option<u128>) -> (ns: i64)
    ensures
        ns == timestamp_of(elapsed),
{
    match elapsed {
        None => 0,
        Some(n) => if n > i64::MAX as u128 {
            i64::MAX
        } else {
            n as i64
        },
    }
}

/// The current wall-clock time in nanoseconds since the Unix epoch, `0`
/// when the clock is before the epoch and `i64::MAX` past the year 2262.
pub fn now_ns() -> (ns: i64)
    ensures
        ns >= 0,
{
    let elapsed = match since_unix_epoch(system_now()) {
        Some(d) => Some(whole_nanos(d)),
        None => None,
    };
    timestamp_from_elapsed(elapsed)
}

} // verus!
