//! Verified core of a small demonstration HTTP microservice.
//!
//! The library holds the logic that every request goes through: the uniform
//! response envelope, the route handlers' computations, the security-header
//! middleware, and the request metrics with their text exposition. The
//! surrounding HTTP server, system probing and serialization live outside
//! the library and hand it plain values.

pub mod handlers;
pub mod metrics;
pub mod middleware;
pub mod models;
pub mod openapi;
pub mod telemetry;

mod host;
