//! The wall clock, read in microseconds since the Unix epoch.

use vstd::prelude::*;

verus! {

/// Calls `chrono::Utc::now` and hands the instant out as microseconds
/// since the Unix epoch. Nothing is promised of the value: it is
/// whatever the system clock shows.
#[verifier::external_body]
pub(crate) fn now_micros() -> i64 {
    chrono::Utc::now().timestamp_micros()
}

} // verus!
