//! The wall clock, the one thing this library takes from the machine.

use vstd::prelude::*;

verus! {

/// Milliseconds that the system clock counts since the Unix epoch.
///
/// Trusted: the body reads `std::time::SystemTime::now` and turns the reading
/// into whole milliseconds. Nothing is promised of the number: the clock may
/// stand still between two reads and may be set back. A clock that reads
/// earlier than the Unix epoch is fatal and ends the process here.
#[verifier::external_body]
pub(crate) fn get_timestamp() -> (now: u64) {
    std::time::SystemTime::now()
        .duration_since(std::time::SystemTime::UNIX_EPOCH)
        .expect("Clock moved backwards!")
        .as_millis() as u64
}

} // verus!
