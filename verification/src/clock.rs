//! Wall-clock time, read through the chrono crate.

use vstd::prelude::*;

verus! {

/// Relies on chrono::Utc::now: the current wall-clock time, in
/// milliseconds since the Unix epoch. Nothing is promised of the value;
/// callers state what holds whatever time comes back.
#[verifier::external_body]
pub(crate) fn now_millis() -> i64 {
    chrono::Utc::now().timestamp_millis()
}

} // verus!
