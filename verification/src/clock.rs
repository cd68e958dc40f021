//! The clock that stamps drafts and publications.

use vstd::prelude::*;

verus! {

/// A point in time without a time zone, as the store keeps it. Nothing is
/// known of its inside here: it is carried from the clock into a record.
#[verifier::external_type_specification]
#[verifier::external_body]
pub struct ExNaiveDateTime(chrono::NaiveDateTime);

/// `chrono::Utc::now().naive_utc()`: the current time in UTC. Nothing is
/// promised of the value. The outside call fails only where the system clock
/// stands before the Unix epoch.
#[verifier::external_body]
pub(crate) fn current_time() -> (now: chrono::NaiveDateTime) {
    chrono::Utc::now().naive_utc()
}

} // verus!
