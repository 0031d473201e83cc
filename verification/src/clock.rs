//! The boundary with `chrono`: the wall clock.

use vstd::prelude::*;

verus! {

/// `chrono::Utc::now` followed by `chrono::DateTime::to_rfc3339`: the
/// current instant in UTC, written as an RFC 3339 date and time.
///
/// The text depends on the clock, so nothing is claimed about it: two
/// calls may differ. `chrono` reads the system clock as time since the
/// Unix epoch and does not return when the clock is set before it.
#[verifier::external_body]
pub(crate) fn utc_now_rfc3339() -> (stamp: String) {
    chrono::Utc::now().to_rfc3339()
}

} // verus!
