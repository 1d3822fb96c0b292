//! The clock that stamps new records.

use vstd::prelude::*;
use crate::model::Timestamp;

verus! {

/// Reads the current time.
///
/// Calls `chrono::Utc::now`, which takes the system clock's distance from
/// the Unix epoch, and splits the result with `DateTime::timestamp` and
/// `DateTime::timestamp_subsec_nanos`. The contract states what holds of
/// every reading: the seconds are not negative and the nanoseconds stay
/// below one second. The outside function panics if the system clock stands
/// before the epoch.
#[verifier::external_body]
pub(crate) fn current_time() -> (now: Timestamp)
    ensures
        now.secs >= 0,
        now.nanos < 1_000_000_000,
{
    let now = chrono::Utc::now();
    Timestamp { secs: now.timestamp(), nanos: now.timestamp_subsec_nanos() }
}

} // verus!
