//! The computation behind each route: every handler is a function from the
//! process state and plain input values to an envelope, with a contract that
//! pins the payload down.

use vstd::prelude::*;
use crate::host;
use crate::models::{
    ApiResponse, AppState, WelcomeData, Documentation, Links, Endpoint, HealthData, MemoryInfo,
    SystemInfo, SystemSnapshot, InfoData, DetailedSystemInfo, EnvironmentInfo, VersionData,
    EchoRequest, EchoResponse,
};

verus! {

/// One endpoint entry equals the given path, method and description.
pub open spec fn endpoint_is(
    e: Endpoint,
    path: Seq<char>,
    method: Seq<char>,
    description: Seq<char>,
) -> bool {
    e.path@ == path && e.method@ == method && e.description@ == description
}

/// The welcome payload, pinned field by field: the fixed message, links and
/// the eight-entry endpoint table that documents this service's surface.
pub open spec fn welcome_ok(w: WelcomeData) -> bool {
    &&& w.message@ == "Welcome to learn-rust API"@
    &&& w.description@ == "A simple Rust microservice for learning and demonstration"@
    &&& w.documentation.swagger is None
    &&& w.documentation.postman is None
    &&& w.links.repository@ == "https://github.com/dxas90/learn-rust"@
    &&& w.links.issues@ == "https://github.com/dxas90/learn-rust/issues"@
    &&& w.endpoints@.len() == 8
    &&& endpoint_is(w.endpoints@[0], "/"@, "GET"@, "API welcome and documentation"@)
    &&& endpoint_is(w.endpoints@[1], "/ping"@, "GET"@, "Simple ping-pong response"@)
    &&& endpoint_is(w.endpoints@[2], "/healthz"@, "GET"@, "Health check endpoint"@)
    &&& endpoint_is(w.endpoints@[3], "/info"@, "GET"@, "Application and system information"@)
    &&& endpoint_is(w.endpoints@[4], "/version"@, "GET"@, "Application version information"@)
    &&& endpoint_is(w.endpoints@[5], "/echo"@, "POST"@, "Echo back the request body"@)
    &&& endpoint_is(w.endpoints@[6], "/metrics"@, "GET"@, "Prometheus metrics endpoint"@)
    &&& endpoint_is(w.endpoints@[7], "/openapi.json"@, "GET"@, "OpenAPI specification"@)
}

fn endpoint(path: &str, method: &str, description: &str) -> (e: Endpoint)
    ensures
        endpoint_is(e, path@, method@, description@),
{
    Endpoint { path: path.to_string(), method: method.to_string(), description: description.to_string() }
}

/// Welcome route: a successful envelope around the static welcome payload.
pub fn index() -> (r: ApiResponse<WelcomeData>)
    ensures
        r.success,
        r.error is None,
        r.data is Some,
        welcome_ok(r.data->0),
        r.well_formed(),
{
    let mut endpoints: Vec<Endpoint> = Vec::new();
    endpoints.push(endpoint("/", "GET", "API welcome and documentation"));
    endpoints.push(endpoint("/ping", "GET", "Simple ping-pong response"));
    endpoints.push(endpoint("/healthz", "GET", "Health check endpoint"));
    endpoints.push(endpoint("/info", "GET", "Application and system information"));
    endpoints.push(endpoint("/version", "GET", "Application version information"));
    endpoints.push(endpoint("/echo", "POST", "Echo back the request body"));
    endpoints.push(endpoint("/metrics", "GET", "Prometheus metrics endpoint"));
    endpoints.push(endpoint("/openapi.json", "GET", "OpenAPI specification"));
    let welcome = WelcomeData {
        message: "Welcome to learn-rust API".to_string(),
        description: "A simple Rust microservice for learning and demonstration".to_string(),
        documentation: Documentation { swagger: None, postman: None },
        links: Links {
            repository: "https://github.com/dxas90/learn-rust".to_string(),
            issues: "https://github.com/dxas90/learn-rust/issues".to_string(),
        },
        endpoints,
    };
    ApiResponse::success(welcome)
}

/// Ping route: always the literal text `pong`.
pub fn ping() -> (r: &'static str)
    ensures
        r@ == "pong"@,
{
    "pong"
}

/// Uptime in milliseconds: the clock reading minus the start instant, or 0
/// where the clock reads earlier than the start.
pub open spec fn uptime_of(start_ms: u64, now_ms: u64) -> u64 {
    if now_ms >= start_ms {
        (now_ms - start_ms) as u64
    } else {
        0
    }
}

/// The health payload against the snapshot it was computed from: the status
/// is always the literal `healthy`, and the memory figures satisfy
/// `used == total - available` exactly.
pub open spec fn health_ok(h: HealthData, snap: SystemSnapshot) -> bool {
    &&& h.status@ == "healthy"@
    &&& h.memory.total == snap.total_memory
    &&& h.memory.available == snap.available_memory
    &&& h.memory.used == snap.total_memory - snap.available_memory
    &&& h.system.os@ == snap.os@
    &&& h.system.arch@ == snap.arch@
    &&& h.system.cpu_count == snap.cpu_count
    &&& h.system.hostname@ == snap.hostname@
}

/// Health route at a given clock reading.
pub fn healthz_at(state: &AppState, now_ms: u64, snap: SystemSnapshot) -> (r: ApiResponse<
    HealthData,
>)
    requires
        snap.available_memory <= snap.total_memory,
    ensures
        r.success,
        r.error is None,
        r.data is Some,
        health_ok(r.data->0, snap),
        r.data->0.uptime_ms == uptime_of(state.start_time_ms, now_ms),
        r.well_formed(),
{
    let used = snap.total_memory - snap.available_memory;
    let health = HealthData {
        status: "healthy".to_string(),
        uptime_ms: if now_ms >= state.start_time_ms {
            now_ms - state.start_time_ms
        } else {
            0
        },
        memory: MemoryInfo {
            total: snap.total_memory,
            available: snap.available_memory,
            used,
        },
        system: SystemInfo {
            os: snap.os,
            arch: snap.arch,
            cpu_count: snap.cpu_count,
            hostname: snap.hostname,
        },
    };
    ApiResponse::success(health)
}

/// Health route: reads the clock for the uptime, of which nothing is
/// promised, and computes the rest of the payload exactly.
pub fn healthz(state: &AppState, snap: SystemSnapshot) -> (r: ApiResponse<HealthData>)
    requires
        snap.available_memory <= snap.total_memory,
    ensures
        r.success,
        r.error is None,
        r.data is Some,
        health_ok(r.data->0, snap),
        r.well_formed(),
{
    let now_ms = host::now_unix_ms();
    healthz_at(state, now_ms, snap)
}

/// The given value, or the default where none was given: the pattern every
/// optional configuration value goes through.
pub fn or_default(value: Option<String>, default: &str) -> (r: String)
    ensures
        value matches Some(v) ==> r@ == v@,
        value is None ==> r@ == default@,
{
    match value {
        Some(v) => v,
        None => default.to_string(),
    }
}

/// The detailed system block against the snapshot it was computed from.
pub open spec fn detailed_system_ok(s: DetailedSystemInfo, snap: SystemSnapshot) -> bool {
    &&& s.os@ == snap.os@
    &&& s.arch@ == snap.arch@
    &&& s.hostname@ == snap.hostname@
    &&& s.cpu_count == snap.cpu_count
    &&& s.memory.total == snap.total_memory
    &&& s.memory.available == snap.available_memory
    &&& s.memory.used == snap.total_memory - snap.available_memory
}

/// The environment block against the configured values: a given value is
/// kept, a missing one falls back to the fixed default.
pub open spec fn environment_ok(
    e: EnvironmentInfo,
    port_env: Option<String>,
    host_env: Option<String>,
) -> bool {
    &&& (port_env matches Some(p) ==> e.port@ == p@)
    &&& (port_env is None ==> e.port@ == "8080"@)
    &&& (host_env matches Some(h) ==> e.host@ == h@)
    &&& (host_env is None ==> e.host@ == "0.0.0.0"@)
}

/// Info route at a given clock reading.
pub fn info_at(
    state: &AppState,
    now_ms: u64,
    snap: SystemSnapshot,
    port_env: Option<String>,
    host_env: Option<String>,
) -> (r: ApiResponse<InfoData>)
    requires
        snap.available_memory <= snap.total_memory,
    ensures
        r.success,
        r.error is None,
        r.data is Some,
        r.data->0.application.name@ == state.app_info.name@,
        r.data->0.application.version@ == state.app_info.version@,
        r.data->0.application.environment@ == state.app_info.environment@,
        r.data->0.application.timestamp@ == state.app_info.timestamp@,
        detailed_system_ok(r.data->0.system, snap),
        r.data->0.system.uptime_ms == uptime_of(state.start_time_ms, now_ms),
        environment_ok(r.data->0.environment, port_env, host_env),
        r.well_formed(),
{
    let used = snap.total_memory - snap.available_memory;
    let info = InfoData {
        application: state.app_info.clone(),
        system: DetailedSystemInfo {
            os: snap.os,
            arch: snap.arch,
            hostname: snap.hostname,
            cpu_count: snap.cpu_count,
            uptime_ms: if now_ms >= state.start_time_ms {
                now_ms - state.start_time_ms
            } else {
                0
            },
            memory: MemoryInfo {
                total: snap.total_memory,
                available: snap.available_memory,
                used,
            },
        },
        environment: EnvironmentInfo {
            rust_version: host::rustc_version_string(),
            port: or_default(port_env, "8080"),
            host: or_default(host_env, "0.0.0.0"),
        },
    };
    ApiResponse::success(info)
}

/// Info route: reads the clock for the uptime, of which nothing is promised,
/// and computes the rest of the payload exactly.
pub fn info(
    state: &AppState,
    snap: SystemSnapshot,
    port_env: Option<String>,
    host_env: Option<String>,
) -> (r: ApiResponse<InfoData>)
    requires
        snap.available_memory <= snap.total_memory,
    ensures
        r.success,
        r.error is None,
        r.data is Some,
        r.data->0.application.name@ == state.app_info.name@,
        r.data->0.application.version@ == state.app_info.version@,
        r.data->0.application.environment@ == state.app_info.environment@,
        r.data->0.application.timestamp@ == state.app_info.timestamp@,
        detailed_system_ok(r.data->0.system, snap),
        environment_ok(r.data->0.environment, port_env, host_env),
        r.well_formed(),
{
    let now_ms = host::now_unix_ms();
    info_at(state, now_ms, snap, port_env, host_env)
}

/// Version route: the running version from the process state, and build
/// metadata falling back to the literal `unknown` where unset.
pub fn version_handler(
    state: &AppState,
    build_date: Option<String>,
    commit: Option<String>,
) -> (r: ApiResponse<VersionData>)
    ensures
        r.success,
        r.error is None,
        r.data is Some,
        r.data->0.version@ == state.app_info.version@,
        (build_date matches Some(b) ==> r.data->0.build_date@ == b@),
        (build_date is None ==> r.data->0.build_date@ == "unknown"@),
        (commit matches Some(c) ==> r.data->0.commit@ == c@),
        (commit is None ==> r.data->0.commit@ == "unknown"@),
        r.well_formed(),
{
    let version = VersionData {
        version: state.app_info.version.clone(),
        build_date: or_default(build_date, "unknown"),
        commit: or_default(commit, "unknown"),
    };
    ApiResponse::success(version)
}

/// Echo route: the response carries back exactly the message that came in.
/// The received-at timestamp is read from the clock, of which nothing is
/// promised.
pub fn echo(payload: EchoRequest) -> (r: ApiResponse<EchoResponse>)
    ensures
        r.success,
        r.error is None,
        r.data is Some,
        r.data->0.message@ == payload.message@,
        r.well_formed(),
{
    let response = EchoResponse { message: payload.message, received_at: host::now_rfc3339() };
    ApiResponse::success(response)
}

} // verus!
