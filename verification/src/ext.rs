//! The calls this library makes into outside crates: the clock and the
//! identifier generator. Both results depend on the environment, so nothing
//! is promised of their values.

use vstd::prelude::*;

verus! {

/// Relies on `chrono::Utc::now` and `DateTime::timestamp_millis`: the current
/// wall-clock time as milliseconds since the Unix epoch. The value depends on
/// the machine's clock, so nothing is promised of it.
#[verifier::external_body]
pub(crate) fn now_timestamp_millis() -> i64 {
    chrono::Utc::now().timestamp_millis()
}

/// Relies on `uuid::Uuid::new_v4` and `Uuid::as_u128`: a freshly drawn random
/// version-4 identifier, as its 128-bit value. The value is random, so
/// nothing is promised of it.
#[verifier::external_body]
pub(crate) fn fresh_id() -> u128 {
    uuid::Uuid::new_v4().as_u128()
}

} // verus!
