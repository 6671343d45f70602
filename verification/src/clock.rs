//! Trusted wall-clock reading for persisted-document timestamps.

use vstd::prelude::*;

verus! {

/// Relies on `chrono::Utc::now` for the current wall-clock time, as
/// milliseconds since the Unix epoch. Nothing is assumed of the value:
/// callers must hold for every reading.
#[verifier::external_body]
pub(crate) fn current_timestamp_millis() -> i64 {
    chrono::Utc::now().timestamp_millis()
}

} // verus!
