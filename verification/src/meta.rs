//! Request metadata from the process environment.

use vstd::prelude::*;

verus! {

/// Relies on `uuid::Uuid::new_v4` and its hyphenated text form, which is
/// always 36 characters; the value itself is random and unspecified.
#[verifier::external_body]
pub fn fresh_request_id() -> (r: String)
    ensures
        r@.len() == 36,
{
    uuid::Uuid::new_v4().to_string()
}

/// Relies on `std::time::SystemTime::now`: seconds since the Unix epoch,
/// zero for a clock standing before it; nothing is promised of the value.
#[verifier::external_body]
pub fn unix_time_seconds() -> (r: i64) {
    match std::time::SystemTime::now().duration_since(std::time::UNIX_EPOCH) {
        Ok(d) => d.as_secs() as i64,
        Err(_) => 0,
    }
}

} // verus!
