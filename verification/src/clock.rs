//! The time of day, as the machine has it.

use vstd::prelude::*;

verus! {

/// `std::time::SystemTime`: a reading of the machine's clock, carried from
/// `now` to `duration_since` and never looked into.
#[verifier::external_type_specification]
#[verifier::external_body]
pub struct ExSystemTime(std::time::SystemTime);

/// `SystemTime::now` reads the machine's clock. Nothing is claimed of what
/// it returns.
pub assume_specification[ std::time::SystemTime::now ]() -> (now: std::time::SystemTime);

/// `Duration::as_secs` gives the whole seconds of a duration. Nothing is
/// claimed of the number.
pub assume_specification[ core::time::Duration::as_secs ](elapsed: &core::time::Duration) -> (seconds: u64);

/// `SystemTime::duration_since`, taken from the start of 1970 (UTC): the
/// time that has passed since then, and `None` where the clock stands
/// before it. Nothing is claimed of the duration.
#[verifier::external_body]
fn since_unix_epoch(now: &std::time::SystemTime) -> (elapsed: Option<core::time::Duration>) {
    now.duration_since(std::time::UNIX_EPOCH).ok()
}

/// The current time in seconds since 1970-01-01T00:00:00Z, and zero where
/// the machine's clock stands before that.
pub fn get_unix_epoc() -> (epoch: u64) {
    let now = std::time::SystemTime::now();
    match since_unix_epoch(&now) {
        Some(elapsed) => elapsed.as_secs(),
        None => 0,
    }
}

} // verus!
