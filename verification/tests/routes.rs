use learn_rust::handlers::{echo, healthz, healthz_at, index, info, info_at, or_default, ping, version_handler};
use learn_rust::models::{AppState, EchoRequest, SystemSnapshot};
use learn_rust::openapi::get_openapi_json;
use learn_rust::telemetry::{init_tracer, otlp_export_target, shutdown_tracer};

fn snapshot() -> SystemSnapshot {
    SystemSnapshot {
        total_memory: 16_000_000_000,
        available_memory: 6_000_000_000,
        cpu_count: 8,
        os: "linux".to_string(),
        arch: "x86_64".to_string(),
        hostname: "testhost".to_string(),
    }
}

#[test]
fn test_index() {
    let response = index();
    assert!(response.success);
    assert!(response.error.is_none());
    let welcome = response.data.expect("index carries a payload");
    assert_eq!(welcome.message, "Welcome to learn-rust API");
    assert_eq!(
        welcome.description,
        "A simple Rust microservice for learning and demonstration"
    );
    assert!(welcome.documentation.swagger.is_none());
    assert!(welcome.documentation.postman.is_none());
    assert_eq!(welcome.links.repository, "https://github.com/dxas90/learn-rust");
    assert_eq!(welcome.links.issues, "https://github.com/dxas90/learn-rust/issues");
    assert_eq!(welcome.endpoints.len(), 8);
    let expected = vec![
        ("/", "GET", "API welcome and documentation"),
        ("/ping", "GET", "Simple ping-pong response"),
        ("/healthz", "GET", "Health check endpoint"),
        ("/info", "GET", "Application and system information"),
        ("/version", "GET", "Application version information"),
        ("/echo", "POST", "Echo back the request body"),
        ("/metrics", "GET", "Prometheus metrics endpoint"),
        ("/openapi.json", "GET", "OpenAPI specification"),
    ];
    for (entry, (path, method, description)) in welcome.endpoints.iter().zip(expected.iter()) {
        assert_eq!(entry.path, *path);
        assert_eq!(entry.method, *method);
        assert_eq!(entry.description, *description);
    }
}

#[test]
fn test_ping() {
    assert_eq!(ping(), "pong");
}

#[test]
fn test_healthz() {
    let state = AppState::new("0.0.1".to_string(), "test".to_string());
    let response = healthz(&state, snapshot());
    assert!(response.success);
    assert!(response.error.is_none());
    let health = response.data.expect("healthz carries a payload");
    assert_eq!(health.status, "healthy");
    assert_eq!(health.memory.total, 16_000_000_000);
    assert_eq!(health.memory.available, 6_000_000_000);
    assert_eq!(health.memory.used, 10_000_000_000);
    assert_eq!(health.memory.used, health.memory.total - health.memory.available);
    assert_eq!(health.system.os, "linux");
    assert_eq!(health.system.arch, "x86_64");
    assert_eq!(health.system.cpu_count, 8);
    assert_eq!(health.system.hostname, "testhost");
}

#[test]
fn healthz_uptime_from_clock_reading() {
    let mut state = AppState::new("0.0.1".to_string(), "test".to_string());
    state.start_time_ms = 1_000;
    let response = healthz_at(&state, 4_500, snapshot());
    assert_eq!(response.data.expect("payload").uptime_ms, 3_500);
    let before_start = healthz_at(&state, 500, snapshot());
    assert_eq!(before_start.data.expect("payload").uptime_ms, 0);
}

#[test]
fn test_info() {
    let state = AppState::new("0.0.1".to_string(), "test".to_string());
    let response = info(&state, snapshot(), None, None);
    assert!(response.success);
    assert!(response.error.is_none());
    let payload = response.data.expect("info carries a payload");
    assert_eq!(payload.application.name, "learn-rust");
    assert_eq!(payload.application.version, "0.0.1");
    assert_eq!(payload.application.environment, "test");
    assert_eq!(payload.system.os, "linux");
    assert_eq!(payload.system.hostname, "testhost");
    assert_eq!(payload.system.cpu_count, 8);
    assert_eq!(payload.system.memory.used, 10_000_000_000);
    assert_eq!(payload.environment.port, "8080");
    assert_eq!(payload.environment.host, "0.0.0.0");
}

#[test]
fn info_keeps_configured_values() {
    let mut state = AppState::new("1.2.3".to_string(), "production".to_string());
    state.start_time_ms = 0;
    let response = info_at(
        &state,
        2_000,
        snapshot(),
        Some("9090".to_string()),
        Some("127.0.0.1".to_string()),
    );
    let payload = response.data.expect("payload");
    assert_eq!(payload.environment.port, "9090");
    assert_eq!(payload.environment.host, "127.0.0.1");
    assert_eq!(payload.system.uptime_ms, 2_000);
}

#[test]
fn test_version() {
    let state = AppState::new("0.0.1".to_string(), "test".to_string());
    let response = version_handler(&state, None, None);
    assert!(response.success);
    let payload = response.data.expect("version carries a payload");
    assert_eq!(payload.version, "0.0.1");
    assert_eq!(payload.build_date, "unknown");
    assert_eq!(payload.commit, "unknown");
}

#[test]
fn version_keeps_build_metadata() {
    let state = AppState::new("0.0.1".to_string(), "test".to_string());
    let response = version_handler(
        &state,
        Some("2024-01-01".to_string()),
        Some("abc123".to_string()),
    );
    let payload = response.data.expect("payload");
    assert_eq!(payload.build_date, "2024-01-01");
    assert_eq!(payload.commit, "abc123");
}

#[test]
fn test_echo() {
    let response = echo(EchoRequest { message: "test".to_string() });
    assert!(response.success);
    assert!(response.error.is_none());
    let payload = response.data.expect("echo carries a payload");
    assert_eq!(payload.message, "test");
}

#[test]
fn or_default_prefers_given_value() {
    assert_eq!(or_default(Some("x".to_string()), "d"), "x");
    assert_eq!(or_default(None, "d"), "d");
    assert_eq!(or_default(Some("".to_string()), "d"), "");
}

#[test]
fn openapi_document_is_valid_json() {
    let text = get_openapi_json();
    let doc: serde_json::Value = serde_json::from_str(&text).expect("the document parses");
    assert_eq!(doc["info"]["title"], "Learn-Rust API");
    assert_eq!(doc["info"]["version"], "0.0.1");
    let paths = doc["paths"].as_object().expect("paths is an object");
    for route in ["/", "/ping", "/healthz", "/info", "/version", "/echo", "/metrics", "/openapi.json"] {
        assert!(paths.contains_key(route), "missing route {}", route);
    }
}

#[test]
fn telemetry_is_optional_and_never_fails() {
    assert!(init_tracer().is_ok());
    shutdown_tracer();
    assert!(otlp_export_target(None).is_none());
    assert!(otlp_export_target(Some("".to_string())).is_none());
    assert_eq!(
        otlp_export_target(Some("http://collector:4317".to_string())),
        Some("http://collector:4317".to_string())
    );
}
