//! The system clock, read as whole seconds since the start of the epoch.

use vstd::prelude::*;

verus! {

#[verifier::external_type_specification]
#[verifier::external_body]
pub struct ExSystemTime(std::time::SystemTime);

#[verifier::external_type_specification]
#[verifier::external_body]
pub struct ExSystemTimeError(std::time::SystemTimeError);

/// `std::time::SystemTime::now`: the present reading of the system clock.
/// Nothing is claimed of the reading.
#[verifier::external_body]
fn system_now() -> std::time::SystemTime {
    std::time::SystemTime::now()
}

/// `std::time::SystemTime::duration_since`, measured from
/// `std::time::UNIX_EPOCH`: the time that has passed since the start of the
/// epoch, or an error where `t` lies before it. Nothing is claimed of either.
#[verifier::external_body]
fn since_epoch(t: &std::time::SystemTime) -> Result<
    std::time::Duration,
    std::time::SystemTimeError,
> {
    t.duration_since(std::time::UNIX_EPOCH)
}

/// `std::time::Duration::as_secs`: the whole seconds of a duration. Nothing
/// is claimed of their number.
#[verifier::external_body]
fn whole_seconds(d: &std::time::Duration) -> u64 {
    d.as_secs()
}

/// Reads the clock: the whole seconds since the start of the epoch, or
/// `None` where the clock stands before it.
pub(crate) fn read_clock() -> Option<u64> {
    let reading = system_now();
    match since_epoch(&reading) {
        Ok(elapsed) => Some(whole_seconds(&elapsed)),
        Err(_) => None,
    }
}

} // verus!
