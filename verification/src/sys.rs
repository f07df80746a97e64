//! Machine- and chance-dependent values, each behind a trusted wrapper that
//! states only what holds of every outcome.

use vstd::prelude::*;

verus! {

/// Relies on `dirs::home_dir`: the user's home directory, when the platform
/// reports one, as a string.
#[verifier::external_body]
pub fn home_dir_string() -> Option<String> {
    match dirs::home_dir() {
        Some(p) => Some(p.to_string_lossy().to_string()),
        None => None,
    }
}

/// Relies on `dirs::config_dir`: the user's configuration directory, when the
/// platform reports one, as a string.
#[verifier::external_body]
pub fn config_dir_string() -> Option<String> {
    match dirs::config_dir() {
        Some(p) => Some(p.to_string_lossy().to_string()),
        None => None,
    }
}

/// Relies on `fastrand::usize` over `0..n`: a random index below `n`.
#[verifier::external_body]
pub fn random_below(n: usize) -> (r: usize)
    requires
        n > 0,
    ensures
        r < n,
{
    fastrand::usize(..n)
}

/// Relies on `uuid::Uuid::new_v4` and its hyphenated `to_string`: a random
/// version-4 UUID, written as 36 characters.
#[verifier::external_body]
pub fn new_uuid_string() -> (r: String)
    ensures
        r@.len() == 36,
{
    uuid::Uuid::new_v4().to_string()
}

} // verus!
