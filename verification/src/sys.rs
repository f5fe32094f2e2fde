//! The library's few contacts with the environment: the wall clock and
//! random identifiers.  Each is a thin wrapper; nothing is promised of
//! the values they return, and every function that uses one takes the
//! returned value as a plain argument from there on.
//!
//! The clock wrappers go through chrono's `From<SystemTime>` conversion
//! rather than `Utc::now`, because the latter panics outright on a host
//! clock reading before the Unix epoch, while the conversion computes
//! the negative timestamp itself.
use chrono::Datelike;
use vstd::prelude::*;

verus! {

/// Relies on std::time::SystemTime::now, chrono's `From<SystemTime>`
/// for `DateTime<Utc>`, and DateTime::timestamp: the current time as
/// whole seconds since the Unix epoch, negative before 1970.  The
/// conversion handles pre-epoch readings without panicking; only a
/// reading outside chrono's representable year range could still abort.
#[verifier::external_body]
pub(crate) fn unix_now_secs() -> (r: i64) {
    chrono::DateTime::<chrono::Utc>::from(std::time::SystemTime::now()).timestamp()
}

/// Relies on the same `From<SystemTime>` conversion and on
/// chrono::Datelike::year: the current calendar year.
#[verifier::external_body]
pub(crate) fn current_year() -> (r: i32) {
    chrono::DateTime::<chrono::Utc>::from(std::time::SystemTime::now()).year()
}

/// Relies on uuid::Uuid::new_v4 and Uuid::as_u128: a freshly generated
/// random version-4 UUID, as its 128-bit value.  Aborts only if the
/// operating system's randomness facility fails.
#[verifier::external_body]
pub(crate) fn new_uuid_v4() -> (r: u128) {
    uuid::Uuid::new_v4().as_u128()
}

/// The current Unix time clamped to non-negative seconds (a host clock
/// before 1970 reads as zero).
pub(crate) fn clock_now_secs() -> u64 {
    let t = unix_now_secs();
    if t < 0 {
        0
    } else {
        t as u64
    }
}

} // verus!
