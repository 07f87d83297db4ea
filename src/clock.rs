//! The two values that come from outside the engine: the current instant and
//! fresh token identifiers.

use vstd::prelude::*;

verus! {

/// Earliest instant that chrono represents (`DateTime::<Utc>::MIN_UTC`,
/// 1 January 262144 BCE), in milliseconds since the epoch.
pub const CLOCK_MIN_MS: i64 = -8_334_601_315_200_000;

/// Latest instant that chrono represents (`DateTime::<Utc>::MAX_UTC`,
/// 31 December 262142 CE, 23:59:59.999), in milliseconds since the epoch.
pub const CLOCK_MAX_MS: i64 = 8_210_266_876_799_999;

/// The current instant, in milliseconds since the Unix epoch.
///
/// Relies on `impl From<SystemTime> for DateTime<Utc>` and
/// `DateTime::timestamp_millis`: the system clock is read as a `DateTime`,
/// before 1970 too, so the result lies within chrono's range. (The
/// conversion unwraps `Utc.timestamp_opt`, which fails only for a clock that
/// reads outside that range, more than 262,000 years from 1970.)
#[verifier::external_body]
pub(crate) fn now_millis() -> (r: i64)
    ensures
        CLOCK_MIN_MS <= r <= CLOCK_MAX_MS,
{
    chrono::DateTime::<chrono::Utc>::from(std::time::SystemTime::now()).timestamp_millis()
}

/// A fresh random identifier: the 128-bit value of a version-4 UUID.
///
/// Relies on `uuid::Uuid::new_v4` and `Uuid::as_u128`. The value is random:
/// nothing is promised of it, not even that it differs from earlier ones.
#[verifier::external_body]
pub(crate) fn new_token_id() -> (r: u128) {
    uuid::Uuid::new_v4().as_u128()
}

} // verus!
