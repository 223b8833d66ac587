//! The wall clock, for the time stamps of reports.

use std::time::{Duration, UNIX_EPOCH};
use vstd::prelude::*;

verus! {

/// Calls `SystemTime::elapsed` on the Unix epoch, which reads the wall clock
/// and gives the time gone by since the epoch, or an error where the clock
/// stands before the epoch. The error becomes `None`. Nothing is claimed of
/// the time: it is whatever the clock says.
#[verifier::external_body]
fn since_epoch() -> Option<Duration> {
    UNIX_EPOCH.elapsed().ok()
}

/// Calls `Duration::as_millis`, which gives the whole milliseconds that the
/// duration holds, what is left of a millisecond cut off.
#[verifier::external_body]
fn whole_millis(elapsed: &Duration) -> u128 {
    elapsed.as_millis()
}

/// The whole milliseconds since the Unix epoch by the wall clock, or `None`
/// where the clock stands before the epoch: it is for the caller to fail then.
pub fn current_timestamp_millis() -> (reading: Option<u128>) {
    match since_epoch() {
        Some(elapsed) => Some(whole_millis(&elapsed)),
        None => None,
    }
}

} // verus!
