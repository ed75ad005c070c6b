//! Readings of the system clock.

use std::time::{SystemTime, UNIX_EPOCH};
use vstd::prelude::*;

verus! {

/// Relies on `SystemTime::now` and `SystemTime::duration_since`: the
/// nanoseconds elapsed since the Unix epoch, or zero for a clock set before it.
#[verifier::external_body]
pub(crate) fn wall_clock_ns() -> (r: u64) {
    SystemTime::now().duration_since(UNIX_EPOCH).unwrap_or_default().as_nanos() as u64
}

} // verus!
