//! The wall clock, read through `chrono`.
//!
//! Output lines carry a capture timestamp taken at formatting time. Its
//! value depends on the clock, so nothing is claimed of it: whatever
//! instant comes back, the rendering around it is pinned elsewhere.

use vstd::prelude::*;

verus! {

/// Relies on `chrono::Utc::now` and `DateTime::format`: the current UTC
/// wall-clock instant, rendered with the `%Y-%m-%dT%H:%M:%S%.3f` pattern.
/// The value depends on the clock, so nothing is claimed of it. `Utc::now`
/// panics if the system clock stands before the Unix epoch.
#[verifier::external_body]
pub(crate) fn now_iso() -> String {
    chrono::Utc::now().format("%Y-%m-%dT%H:%M:%S%.3f").to_string()
}

/// Relies on `chrono::Utc::now` and `DateTime::timestamp_millis`: the
/// current UTC wall-clock instant as milliseconds since the Unix epoch.
/// The value depends on the clock, so nothing is claimed of it. `Utc::now`
/// panics if the system clock stands before the Unix epoch.
#[verifier::external_body]
pub(crate) fn now_unix_millis() -> i64 {
    chrono::Utc::now().timestamp_millis()
}

} // verus!
