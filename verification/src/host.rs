//! Trusted calls into the host environment: the wall clock and the compiler
//! version baked into the binary. Nothing useful can be promised of their
//! results, so callers state what holds of every outcome.

use vstd::prelude::*;

verus! {

/// Relies on `chrono::Utc::now` and `chrono::DateTime::to_rfc3339`: the
/// current wall-clock time as an RFC 3339 string. The result depends on the
/// clock, so nothing is promised of it.
#[verifier::external_body]
pub(crate) fn now_rfc3339() -> String {
    chrono::Utc::now().to_rfc3339()
}

/// Relies on `std::time::SystemTime::now` and `duration_since`: milliseconds
/// since the Unix epoch, or 0 if the clock reads before the epoch. The result
/// depends on the clock, so nothing is promised of it.
#[verifier::external_body]
pub(crate) fn now_unix_ms() -> u64 {
    match std::time::SystemTime::now().duration_since(std::time::UNIX_EPOCH) {
        Ok(d) => d.as_millis() as u64,
        Err(_) => 0,
    }
}

/// Relies on `rustc_version_runtime::version`: the version of the compiler
/// that built this binary, rendered through semver's `Display`. The result
/// depends on the build, so nothing is promised of it.
#[verifier::external_body]
pub(crate) fn rustc_version_string() -> String {
    rustc_version_runtime::version().to_string()
}

} // verus!
