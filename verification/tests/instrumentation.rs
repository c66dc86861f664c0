use learn_rust::metrics::{init_metrics, ms_to_seconds_string, render_metrics, u64_to_string};
use learn_rust::middleware::{security_header_list, security_headers, HttpResponse};
use learn_rust::models::ApiResponse;

#[test]
fn test_metrics() {
    let mut metrics = init_metrics();
    metrics.inc_requests();
    metrics.observe_duration_ms(3);
    let text = render_metrics(&metrics);
    assert!(text.contains("http_requests_total"));
    assert!(text.contains("http_request_duration_seconds"));
}

#[test]
fn counter_counts_each_request() {
    let mut metrics = init_metrics();
    let before = metrics.http_requests_total;
    for _ in 0..100 {
        metrics.inc_requests();
    }
    assert_eq!(metrics.http_requests_total, before + 100);
}

#[test]
fn counter_is_monotone_across_renderings() {
    let mut metrics = init_metrics();
    let mut last = 0u64;
    for _ in 0..5 {
        metrics.inc_requests();
        metrics.observe_duration_ms(1);
        assert!(metrics.http_requests_total >= last);
        last = metrics.http_requests_total;
        let text = render_metrics(&metrics);
        assert!(text.contains(&format!("http_requests_total {}", last)));
    }
}

#[test]
fn histogram_buckets_are_cumulative() {
    let mut metrics = init_metrics();
    metrics.observe_duration_ms(3);
    metrics.observe_duration_ms(30);
    metrics.observe_duration_ms(30_000);
    assert_eq!(metrics.duration_count, 3);
    assert_eq!(metrics.duration_sum_ms, 30_033);
    // 3 ms falls into every bucket from le=0.005 up; 30 ms from le=0.05 up;
    // 30 s only into the implicit infinity bucket.
    assert_eq!(metrics.buckets, vec![1, 1, 1, 2, 2, 2, 2, 2, 2, 2, 2]);
    let text = render_metrics(&metrics);
    assert!(text.contains("http_request_duration_seconds_bucket{le=\"0.005\"} 1"));
    assert!(text.contains("http_request_duration_seconds_bucket{le=\"0.05\"} 2"));
    assert!(text.contains("http_request_duration_seconds_bucket{le=\"+Inf\"} 3"));
    assert!(text.contains("http_request_duration_seconds_sum 30.033"));
    assert!(text.contains("http_request_duration_seconds_count 3"));
}

#[test]
fn exposition_text_is_exact_for_fresh_metrics() {
    let mut metrics = init_metrics();
    metrics.inc_requests();
    metrics.observe_duration_ms(7);
    let text = render_metrics(&metrics);
    let expected = "\
# HELP http_requests_total Total number of HTTP requests\n\
# TYPE http_requests_total counter\n\
http_requests_total 1\n\
# HELP http_request_duration_seconds HTTP request duration in seconds\n\
# TYPE http_request_duration_seconds histogram\n\
http_request_duration_seconds_bucket{le=\"0.005\"} 0\n\
http_request_duration_seconds_bucket{le=\"0.01\"} 1\n\
http_request_duration_seconds_bucket{le=\"0.025\"} 1\n\
http_request_duration_seconds_bucket{le=\"0.05\"} 1\n\
http_request_duration_seconds_bucket{le=\"0.1\"} 1\n\
http_request_duration_seconds_bucket{le=\"0.25\"} 1\n\
http_request_duration_seconds_bucket{le=\"0.5\"} 1\n\
http_request_duration_seconds_bucket{le=\"1\"} 1\n\
http_request_duration_seconds_bucket{le=\"2.5\"} 1\n\
http_request_duration_seconds_bucket{le=\"5\"} 1\n\
http_request_duration_seconds_bucket{le=\"10\"} 1\n\
http_request_duration_seconds_bucket{le=\"+Inf\"} 1\n\
http_request_duration_seconds_sum 0.007\n\
http_request_duration_seconds_count 1\n";
    assert_eq!(text, expected);
}

#[test]
fn decimal_renderings_are_exact() {
    assert_eq!(u64_to_string(0), "0");
    assert_eq!(u64_to_string(7), "7");
    assert_eq!(u64_to_string(1234567890), "1234567890");
    assert_eq!(u64_to_string(u64::MAX), "18446744073709551615");
    assert_eq!(ms_to_seconds_string(0), "0.000");
    assert_eq!(ms_to_seconds_string(7), "0.007");
    assert_eq!(ms_to_seconds_string(42), "0.042");
    assert_eq!(ms_to_seconds_string(999), "0.999");
    assert_eq!(ms_to_seconds_string(30_033), "30.033");
    assert_eq!(ms_to_seconds_string(1_000), "1.000");
}

#[test]
fn security_headers_have_their_fixed_values() {
    let list = security_header_list();
    let expected = vec![
        ("x-content-type-options", "nosniff"),
        ("x-frame-options", "DENY"),
        ("x-xss-protection", "1; mode=block"),
        ("referrer-policy", "strict-origin-when-cross-origin"),
        ("content-security-policy", "default-src 'self'"),
    ];
    assert_eq!(list.len(), expected.len());
    for ((name, value), (expected_name, expected_value)) in list.iter().zip(expected.iter()) {
        assert_eq!(name, expected_name);
        assert_eq!(value, expected_value);
    }
}

#[test]
fn security_headers_override_and_preserve() {
    let mut response = HttpResponse {
        status: 200,
        headers: vec![
            ("content-type".to_string(), "application/json".to_string()),
            ("x-frame-options".to_string(), "SAMEORIGIN".to_string()),
        ],
        body: b"pong".to_vec(),
    };
    security_headers(&mut response);
    assert_eq!(response.status, 200);
    assert_eq!(response.body, b"pong".to_vec());
    let last_value = |name: &str| {
        response
            .headers
            .iter()
            .rev()
            .find(|(n, _)| n == name)
            .map(|(_, v)| v.clone())
    };
    assert_eq!(last_value("x-content-type-options"), Some("nosniff".to_string()));
    assert_eq!(last_value("x-frame-options"), Some("DENY".to_string()));
    assert_eq!(last_value("x-xss-protection"), Some("1; mode=block".to_string()));
    assert_eq!(
        last_value("referrer-policy"),
        Some("strict-origin-when-cross-origin".to_string())
    );
    assert_eq!(
        last_value("content-security-policy"),
        Some("default-src 'self'".to_string())
    );
    assert_eq!(last_value("content-type"), Some("application/json".to_string()));
}

#[test]
fn envelope_error_carries_only_the_message() {
    let response = ApiResponse::<()>::error("boom".to_string());
    assert!(!response.success);
    assert!(response.data.is_none());
    assert_eq!(response.error, Some("boom".to_string()));
}
