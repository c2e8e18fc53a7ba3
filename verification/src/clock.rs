//! What the store takes from outside itself: the time, and fresh ids.
//!
//! Neither is a function of anything the library holds, so the contracts
//! here promise nothing about the values; the store's operations are proved
//! for every time and every id.

use crate::models::Timestamp;
use vstd::prelude::*;

verus! {

/// Reads the clock: `chrono::Utc::now`, taken apart with `timestamp` and
/// `timestamp_subsec_nanos`. Nothing is claimed of the time that comes back.
#[verifier::external_body]
pub(crate) fn current_time() -> (now: Timestamp) {
    let now = chrono::Utc::now();
    Timestamp { secs: now.timestamp(), nanos: now.timestamp_subsec_nanos() }
}

/// Draws a random id: `uuid::Uuid::new_v4`, written out in its hyphenated
/// form. Nothing is claimed of the id that comes back, not even that it is new.
#[verifier::external_body]
pub(crate) fn fresh_listing_id() -> (id: String) {
    uuid::Uuid::new_v4().to_string()
}

} // verus!
