//! The time of day.

use vstd::prelude::*;

verus! {

/// Reads the clock with `chrono::Utc::now` and gives the milliseconds since
/// the start of 1970. Nothing is known of the value: it is whatever the
/// machine's clock says. `chrono` gives up where that clock reads a time
/// before 1970.
#[verifier::external_body]
pub(crate) fn current_time_millis() -> (millis: i64) {
    chrono::Utc::now().timestamp_millis()
}

} // verus!
