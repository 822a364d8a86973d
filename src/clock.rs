//! Whole hours since the Unix epoch, as read from the system clock.

use vstd::prelude::*;

verus! {

pub const SECS_PER_HOUR: u64 = 3600;

#[verifier::external_type_specification]
#[verifier::external_body]
pub struct ExSystemTime(std::time::SystemTime);

#[verifier::external_type_specification]
#[verifier::external_body]
pub struct ExSystemTimeError(std::time::SystemTimeError);

/// `SystemTime::now`: the current time; nothing is known of its value.
pub assume_specification[ std::time::SystemTime::now ]() -> std::time::SystemTime;

/// `SystemTime::duration_since`: fails when `earlier` is later than `self`;
/// which of the two happens depends on the clock.
pub assume_specification[ std::time::SystemTime::duration_since ](
    this: &std::time::SystemTime,
    earlier: std::time::SystemTime,
) -> Result<core::time::Duration, std::time::SystemTimeError>;

/// `Duration::as_secs`: the whole seconds of a duration.
pub assume_specification[ core::time::Duration::as_secs ](d: &core::time::Duration) -> u64;

/// Relies on `std::time::UNIX_EPOCH`, the reference point of the hour count.
#[verifier::external_body]
fn unix_epoch() -> std::time::SystemTime {
    std::time::UNIX_EPOCH
}

/// The whole hours in `secs` seconds.
pub open spec fn hours_in(secs: u64) -> nat {
    (secs / SECS_PER_HOUR) as nat
}

/// Converts seconds to whole hours, rounding down.
pub fn hours_of_secs(secs: u64) -> (r: u64)
    ensures
        r == hours_in(secs),
{
    secs / SECS_PER_HOUR
}

/// Whole hours elapsed since the Unix epoch according to the system clock,
/// or `None` when the clock reads a time before the epoch.
pub fn get_hours_since_epoch() -> (r: Option<u64>)
    ensures
        r matches Some(h) ==> h <= u64::MAX / SECS_PER_HOUR,
{
    let now = std::time::SystemTime::now();
    match now.duration_since(unix_epoch()) {
        Ok(d) => Some(hours_of_secs(d.as_secs())),
        Err(_) => None,
    }
}

} // verus!
