//! Identifier and timestamp sources. Identifiers are carried as plain 128-bit
//! values; the generator behind them is an outside call.

use vstd::prelude::*;

verus! {

/// Relies on `uuid::Uuid::new_v4` (via `as_u128`): a random version-4 UUID.
/// Nothing is assumed of the drawn value except that it is nonzero, which
/// holds because `new_v4` always sets the version and variant bits.
#[verifier::external_body]
pub fn fresh_id() -> (r: u128)
    ensures
        r != 0,
{
    uuid::Uuid::new_v4().as_u128()
}

/// Relies on `chrono::Utc::now` (via `timestamp_millis`) for creation
/// timestamps; nothing is assumed of the clock's value.
#[verifier::external_body]
pub fn now_millis() -> i64 {
    chrono::Utc::now().timestamp_millis()
}

} // verus!
