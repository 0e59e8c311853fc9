//! The system clock.

use crate::context::Timestamp;
use vstd::prelude::*;

verus! {

/// What every reading of the system clock has in common: the nanoseconds
/// stay below one second, so no reading stands for a leap second.
pub open spec fn clock_reading(ts: Timestamp) -> bool {
    ts.nanos < 1_000_000_000
}

/// The current instant in UTC.
///
/// Trusted: reads `std::time::SystemTime::now`, turns it into a
/// `chrono::DateTime<Utc>` with chrono's `From<SystemTime>`, and takes that
/// apart with `DateTime::timestamp` and `DateTime::timestamp_subsec_nanos`.
/// The conversion takes an instant before 1970 as well as one after it. The
/// nanoseconds are the part of the duration from the epoch that is below one
/// second, or, before the epoch, zero or one second less that part; that
/// they stay below one second is all that is claimed.
#[verifier::external_body]
pub(crate) fn utc_now() -> (now: Timestamp)
    ensures
        clock_reading(now),
{
    let now = chrono::DateTime::<chrono::Utc>::from(std::time::SystemTime::now());
    Timestamp { secs: now.timestamp(), nanos: now.timestamp_subsec_nanos() }
}

} // verus!
