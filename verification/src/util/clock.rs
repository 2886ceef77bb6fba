//! The wall clock, read as milliseconds since the Unix epoch.

use vstd::prelude::*;

verus! {

/// The current time in milliseconds since the Unix epoch (UTC).
///
/// Trusted: wraps `chrono::Utc::now` and `DateTime::timestamp_millis`. The
/// result depends on the machine's clock, so nothing is promised of it; two
/// calls may differ. The outside function panics if the clock shows a time
/// before the Unix epoch.
#[verifier::external_body]
pub(crate) fn utc_now_millis() -> (now: i64) {
    chrono::Utc::now().timestamp_millis()
}

} // verus!
