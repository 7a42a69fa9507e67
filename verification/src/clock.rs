//! The daemon's clock.

use vstd::prelude::*;

use crate::protocol::Timestamp;

verus! {

/// Relies on chrono's `Utc::now`: `timestamp` returns the whole seconds
/// since the Unix epoch and `timestamp_subsec_nanos` the nanoseconds past
/// the last second boundary, which stay below two billion even across a
/// leap second. Nothing else holds of a clock reading: two readings may
/// be anything in relation to each other.
#[verifier::external_body]
pub fn now_timestamp() -> (r: Timestamp)
    ensures
        valid_clock_reading(r),
{
    let now = chrono::Utc::now();
    Timestamp { seconds: now.timestamp(), nanos: now.timestamp_subsec_nanos() as i32 }
}

/// What the contracts state of every clock reading.
pub open spec fn valid_clock_reading(t: Timestamp) -> bool {
    0 <= t.nanos < 2_000_000_000
}

} // verus!
