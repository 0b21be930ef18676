//! The wall clock, read as milliseconds since the Unix epoch.

use vstd::prelude::*;
use std::time::{SystemTime, UNIX_EPOCH};

verus! {

/// The current time in milliseconds since the Unix epoch, truncated to 64
/// bits; a clock set before the epoch reads as zero.
///
/// Relies on `std::time::SystemTime::now`. What it returns depends on the
/// machine's clock, so nothing is promised of the value; every function that
/// reasons about time takes the reading as an argument instead.
#[verifier::external_body]
pub fn now_ms() -> u64 {
    SystemTime::now().duration_since(UNIX_EPOCH).unwrap_or_default().as_millis() as u64
}

} // verus!
