//! Wall-clock time in milliseconds since the Unix epoch.

use vstd::prelude::*;

verus! {

/// Wraps `chrono::Utc::now().timestamp_millis()`: the current time in milliseconds since the
/// Unix epoch. It depends on the clock, so nothing is stated of its value.
#[verifier::external_body]
pub(crate) fn timestamp_ms() -> (r: i64) {
    chrono::Utc::now().timestamp_millis()
}

} // verus!
