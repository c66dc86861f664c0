//! Data types of the service: the uniform response envelope and the payloads
//! of each route.

use vstd::prelude::*;
use crate::host;

verus! {

/// Application identity, established once at startup and never changed.
pub struct AppInfo {
    pub name: String,
    pub version: String,
    pub environment: String,
    pub timestamp: String,
}

impl Clone for AppInfo {
    fn clone(&self) -> (res: Self)
        ensures
            res.name@ == self.name@,
            res.version@ == self.version@,
            res.environment@ == self.environment@,
            res.timestamp@ == self.timestamp@,
    {
        AppInfo {
            name: self.name.clone(),
            version: self.version.clone(),
            environment: self.environment.clone(),
            timestamp: self.timestamp.clone(),
        }
    }
}

/// Process-wide state: the application identity and the start instant,
/// held as milliseconds since the Unix epoch. Read-only after construction.
pub struct AppState {
    pub app_info: AppInfo,
    pub start_time_ms: u64,
}

impl AppState {
    /// Builds the state at startup. The name is fixed; version and
    /// environment come from configuration. The timestamp and the start
    /// instant are read from the clock, of which nothing is promised.
    pub fn new(version: String, environment: String) -> (r: Self)
        ensures
            r.app_info.name@ == "learn-rust"@,
            r.app_info.version == version,
            r.app_info.environment == environment,
    {
        AppState {
            app_info: AppInfo {
                name: "learn-rust".to_string(),
                version,
                environment,
                timestamp: host::now_rfc3339(),
            },
            start_time_ms: host::now_unix_ms(),
        }
    }
}

/// Uniform wrapper around every JSON payload: a success flag, exactly one of
/// a payload or an error message, and a timestamp.
pub struct ApiResponse<T> {
    pub success: bool,
    pub data: Option<T>,
    pub error: Option<String>,
    pub timestamp: String,
}

impl<T> ApiResponse<T> {
    /// The envelope's invariant: the success flag decides which of the two
    /// optional fields is present, and exactly one of them is.
    pub open spec fn well_formed(&self) -> bool {
        &&& self.success <==> self.data is Some
        &&& self.success <==> self.error is None
    }

    /// Wraps a payload as a successful response. The timestamp is read from
    /// the clock, of which nothing is promised.
    pub fn success(data: T) -> (r: Self)
        ensures
            r.success,
            r.data == Some(data),
            r.error is None,
            r.well_formed(),
    {
        ApiResponse {
            success: true,
            data: Some(data),
            error: None,
            timestamp: host::now_rfc3339(),
        }
    }

    /// Wraps an error message as a failed response.
    pub fn error(message: String) -> (r: ApiResponse<()>)
        ensures
            !r.success,
            r.data is None,
            r.error == Some(message),
            r.well_formed(),
    {
        ApiResponse {
            success: false,
            data: None,
            error: Some(message),
            timestamp: host::now_rfc3339(),
        }
    }
}

/// Welcome-page payload: a message, a description, documentation and
/// repository links, and the fixed list of endpoints this service exposes.
pub struct WelcomeData {
    pub message: String,
    pub description: String,
    pub documentation: Documentation,
    pub links: Links,
    pub endpoints: Vec<Endpoint>,
}

pub struct Documentation {
    pub swagger: Option<String>,
    pub postman: Option<String>,
}

pub struct Links {
    pub repository: String,
    pub issues: String,
}

/// One entry of the endpoint table: path, HTTP method and description.
pub struct Endpoint {
    pub path: String,
    pub method: String,
    pub description: String,
}

/// Health-check payload. Uptime is held in milliseconds.
pub struct HealthData {
    pub status: String,
    pub uptime_ms: u64,
    pub memory: MemoryInfo,
    pub system: SystemInfo,
}

/// Memory figures in bytes. `used` is always `total - available`.
pub struct MemoryInfo {
    pub total: u64,
    pub available: u64,
    pub used: u64,
}

pub struct SystemInfo {
    pub os: String,
    pub arch: String,
    pub cpu_count: usize,
    pub hostname: String,
}

/// A reading of the host system, handed in as plain values by whoever can
/// query the operating system.
pub struct SystemSnapshot {
    pub total_memory: u64,
    pub available_memory: u64,
    pub cpu_count: usize,
    pub os: String,
    pub arch: String,
    pub hostname: String,
}

/// Info payload: application identity, system details and environment values.
pub struct InfoData {
    pub application: AppInfo,
    pub system: DetailedSystemInfo,
    pub environment: EnvironmentInfo,
}

pub struct DetailedSystemInfo {
    pub os: String,
    pub arch: String,
    pub hostname: String,
    pub cpu_count: usize,
    pub uptime_ms: u64,
    pub memory: MemoryInfo,
}

pub struct EnvironmentInfo {
    pub rust_version: String,
    pub port: String,
    pub host: String,
}

/// Version payload: the running version and build metadata.
pub struct VersionData {
    pub version: String,
    pub build_date: String,
    pub commit: String,
}

pub struct EchoRequest {
    pub message: String,
}

pub struct EchoResponse {
    pub message: String,
    pub received_at: String,
}

/// What an envelope promises its readers: the success flag alone tells which
/// of the payload and the error message is present.
pub proof fn lemma_envelope_exclusive<T>(r: ApiResponse<T>)
    requires
        r.well_formed(),
    ensures
        r.success ==> r.data is Some && r.error is None,
        !r.success ==> r.data is None && r.error is Some,
{
}

} // verus!
