//! Providers of server-generated values: identifiers, timestamps and
//! password hashes.  Each call goes to an outside crate and its result is
//! random or clock-dependent, so nothing is promised of the value; every
//! function that consumes one is verified for all values.

use vstd::prelude::*;

verus! {

/// Relies on uuid's `Uuid::new_v4`: a fresh random version-4 UUID, taken as
/// its 128-bit value.  The value is random, so nothing is promised of it.
#[verifier::external_body]
pub(crate) fn fresh_id() -> u128 {
    uuid::Uuid::new_v4().as_u128()
}

/// Relies on chrono's `Utc::now`: the current time in milliseconds since
/// the Unix epoch.  The value is the clock's, so nothing is promised of it.
#[verifier::external_body]
pub(crate) fn now_millis() -> i64 {
    chrono::Utc::now().timestamp_millis()
}

/// Relies on bcrypt's `hash` with the default cost: a salted one-way hash
/// of the password, or `None` when hashing fails.  The salt is drawn at
/// random, so nothing is promised of the text.
#[verifier::external_body]
pub(crate) fn hash_password(password: &str) -> Option<String> {
    bcrypt::hash(password, bcrypt::DEFAULT_COST).ok()
}

} // verus!
