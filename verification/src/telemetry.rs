//! Telemetry configuration. This build carries no exporter, so initialization
//! always succeeds and shutdown has nothing to release; the decision whether
//! a collector endpoint is configured at all is made here either way.

use vstd::prelude::*;

verus! {

/// The export target that a configured endpoint value calls for: a non-empty
/// endpoint is used as given; an unset or empty one means export is skipped
/// entirely, which is not an error.
pub fn otlp_export_target(endpoint: Option<String>) -> (r: Option<String>)
    ensures
        r is Some <==> (endpoint matches Some(e) && e@.len() > 0),
        r matches Some(t) ==> (endpoint matches Some(e) && t@ == e@),
{
    match endpoint {
        Some(e) => {
            if e.as_str().is_empty() {
                None
            } else {
                Some(e)
            }
        },
        None => None,
    }
}

/// Sets up tracing. Without an exporter there is nothing to start, so this
/// never fails.
pub fn init_tracer() -> (r: Result<(), String>)
    ensures
        r is Ok,
{
    Ok(())
}

/// Tears tracing down. Without an exporter there is nothing to release.
pub fn shutdown_tracer() {
}

} // verus!
