use rust_tmpl::observability::{
    completed_request, duration_millis, failed_request, incoming_request_id, next_request_id,
    request_attributes, signal_endpoint, AttributeValue, ConsoleFormat,
};
use std::time::Duration;

#[test]
fn generated_request_ids_are_sixteen_hex_digits() {
    assert_eq!(next_request_id(1), "0000000000000001");
    assert_eq!(next_request_id(255), "00000000000000ff");
    assert_eq!(next_request_id(u64::MAX), "ffffffffffffffff");
    for n in [0u64, 1, 42, 0xdead_beef, u64::MAX / 3] {
        assert_eq!(next_request_id(n), format!("{:016x}", n));
    }
    assert_ne!(next_request_id(16), next_request_id(1));
}

#[test]
fn incoming_request_ids_are_reused_up_to_128_bytes() {
    assert_eq!(incoming_request_id(Some("abc")), Some("abc".to_string()));
    let long = "x".repeat(128);
    assert_eq!(incoming_request_id(Some(&long)), Some(long.clone()));
    let too_long = "x".repeat(129);
    assert_eq!(incoming_request_id(Some(&too_long)), None);
    assert_eq!(incoming_request_id(None), None);
}

#[test]
fn duration_millis_matches_as_millis_and_saturates() {
    for d in [Duration::ZERO, Duration::from_millis(1500), Duration::new(3, 999_999_999), Duration::new(u64::MAX / 1000, 0)] {
        assert_eq!(duration_millis(d.as_secs(), d.subsec_nanos()), u64::try_from(d.as_millis()).unwrap_or(u64::MAX));
    }
    assert_eq!(duration_millis(2, 345_678_901), 2345);
    assert_eq!(duration_millis(u64::MAX, 0), u64::MAX);
}

#[test]
fn request_attributes_name_method_route_and_status() {
    let attrs = request_attributes("GET", "/healthz", 200);
    assert_eq!(attrs.len(), 3);
    assert_eq!(attrs[0].key, "http.request.method");
    assert!(matches!(&attrs[0].value, AttributeValue::Text(v) if v == "GET"));
    assert_eq!(attrs[1].key, "http.route");
    assert!(matches!(&attrs[1].value, AttributeValue::Text(v) if v == "/healthz"));
    assert_eq!(attrs[2].key, "http.response.status_code");
    assert!(matches!(attrs[2].value, AttributeValue::Integer(200)));
}

#[test]
fn server_errors_and_failures_count_as_errors() {
    let ok = completed_request("GET", Some("/users/me"), 200);
    assert_eq!(ok.route, "/users/me");
    assert!(!ok.counts_as_error);
    let unmatched = completed_request("GET", None, 404);
    assert_eq!(unmatched.route, "unmatched");
    assert!(!unmatched.counts_as_error);
    assert!(completed_request("POST", Some("/users/register"), 500).counts_as_error);
    assert!(completed_request("POST", Some("/users/register"), 599).counts_as_error);
    assert!(!completed_request("POST", Some("/users/register"), 600).counts_as_error);
    let failed = failed_request("GET", 401);
    assert_eq!(failed.route, "unmatched");
    assert_eq!(failed.status, 401);
    assert!(!failed.counts_as_error);
    assert!(failed_request("GET", 503).counts_as_error);
}

#[test]
fn signal_endpoints_drop_trailing_slashes() {
    assert_eq!(signal_endpoint("http://collector:4318", "traces"), "http://collector:4318/v1/traces");
    assert_eq!(signal_endpoint("http://collector:4318///", "metrics"), "http://collector:4318/v1/metrics");
    assert_eq!(signal_endpoint("", "traces"), "/v1/traces");
}

#[test]
fn only_local_environment_gets_compact_logs() {
    assert_eq!(ConsoleFormat::for_environment("local"), ConsoleFormat::Compact);
    assert_eq!(ConsoleFormat::for_environment("production"), ConsoleFormat::Json);
    assert_eq!(ConsoleFormat::for_environment("Local"), ConsoleFormat::Json);
}
