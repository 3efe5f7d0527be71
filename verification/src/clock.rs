//! The clock, an outside collaborator. Session recency and expiry are
//! decided by the verified store functions over a caller-supplied time;
//! this module only reads that time.

use vstd::prelude::*;

verus! {

/// Relies on `std::time::SystemTime::now`, `duration_since` and
/// `Duration::as_secs`: the wall clock as whole seconds since the Unix
/// epoch. `now` does not panic; a clock set before the epoch comes back
/// on the error arm of `duration_since` and is handed on as zero, so the
/// call is total. Nothing can be promised of a clock reading.
#[verifier::external_body]
fn unix_now_seconds() -> (r: u64) {
    match std::time::SystemTime::now().duration_since(std::time::UNIX_EPOCH) {
        Ok(since_epoch) => since_epoch.as_secs(),
        Err(_) => 0,
    }
}

/// The current time as seconds since the Unix epoch; zero under a clock
/// set before it. The value is whatever the machine's clock says; every
/// store function is verified for all values of it.
pub fn current_time() -> (r: u64) {
    unix_now_seconds()
}

} // verus!
