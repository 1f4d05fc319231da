//! The two outside calls the ledger makes when it constructs an entry:
//! drawing a fresh identifier and reading the clock.

use vstd::prelude::*;

verus! {

/// Relies on uuid's `Uuid::new_v4` and its `Display` rendering: the
/// hyphenated form of a UUID is exactly 36 characters. The value is drawn
/// at random, so nothing else is assumed of it.
#[verifier::external_body]
pub(crate) fn fresh_id() -> (r: String)
    ensures
        r@.len() == 36,
{
    uuid::Uuid::new_v4().to_string()
}

/// Relies on chrono's `Utc::now` and `DateTime::timestamp`: seconds since
/// the epoch at the moment of the call. The value depends on the clock, so
/// nothing is assumed of it.
#[verifier::external_body]
pub(crate) fn now_timestamp() -> i64 {
    chrono::Utc::now().timestamp()
}

} // verus!
