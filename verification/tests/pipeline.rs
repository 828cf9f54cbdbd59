//! Request instrumentation and the operational endpoints.

use edge_server::endpoints::{
    health_response, HEALTH_BODY, HEALTH_CONTENT_TYPE, HEALTH_PATH, METRICS_PATH,
};
use edge_server::pipeline::{
    instrumentation_for, is_operational, is_under_prefix, Instrumentation, LATENCY_BUCKETS,
    OPERATIONAL_PREFIX,
};

#[test]
fn operational_paths_are_recognised() {
    assert_eq!(OPERATIONAL_PREFIX, "/internal-backstage");
    assert!(is_operational("/internal-backstage"));
    assert!(is_operational("/internal-backstage/"));
    assert!(is_operational("/internal-backstage/health"));
    assert!(is_operational("/internal-backstage/metrics"));
    assert!(is_operational("/internal-backstage/anything/else"));
    assert!(is_operational(&format!("{OPERATIONAL_PREFIX}{HEALTH_PATH}")));
    assert!(is_operational(&format!("{OPERATIONAL_PREFIX}{METRICS_PATH}")));
}

#[test]
fn other_paths_are_not_operational() {
    assert!(!is_operational(""));
    assert!(!is_operational("/"));
    assert!(!is_operational("/health"));
    assert!(!is_operational("/internal-backstag"));
    assert!(!is_operational("/internal-backstagex"));
    assert!(!is_operational("/internal-backstage-2/health"));
    assert!(!is_operational("/api/internal-backstage/health"));
    assert!(!is_operational("/Internal-Backstage/health"));
    assert!(!is_operational("internal-backstage/health"));
}

#[test]
fn prefix_test_counts_characters_not_bytes() {
    assert!(is_under_prefix("/caf\u{e9}/menu", "/caf\u{e9}"));
    assert!(is_under_prefix("/caf\u{e9}", "/caf\u{e9}"));
    assert!(!is_under_prefix("/caf\u{e9}s", "/caf\u{e9}"));
    assert!(!is_under_prefix("/cafe/menu", "/caf\u{e9}"));
    assert!(is_under_prefix("/anything", ""));
    assert!(is_under_prefix("", ""));
    assert!(!is_under_prefix("anything", ""));
}

#[test]
fn operational_requests_are_measured_but_not_logged() {
    for path in ["/internal-backstage/health", "/internal-backstage/metrics", "/internal-backstage"]
    {
        assert_eq!(
            instrumentation_for(path),
            Instrumentation { access_log: false, tracing: true, metrics: true }
        );
    }
}

#[test]
fn application_requests_pass_every_stage() {
    for path in ["/", "/api/features", "/internal-backstagex"] {
        assert_eq!(
            instrumentation_for(path),
            Instrumentation { access_log: true, tracing: true, metrics: true }
        );
    }
}

#[test]
fn latency_buckets_are_fixed_and_increasing() {
    assert_eq!(LATENCY_BUCKETS, [1, 2, 5, 10, 20, 50]);
    assert!(LATENCY_BUCKETS.windows(2).all(|pair| pair[0] < pair[1]));
}

#[test]
fn health_probe_answers_ok() {
    let r = health_response();
    assert_eq!(r.status, 200);
    assert_eq!(r.content_type, "application/json");
    assert_eq!(r.body, "{\"status\":\"OK\"}");
    assert_eq!(r.body, HEALTH_BODY);
    assert_eq!(r.content_type, HEALTH_CONTENT_TYPE);
    // The same answer every time.
    assert_eq!(health_response(), r);
}

#[test]
fn operational_endpoints_have_their_paths() {
    assert_eq!(HEALTH_PATH, "/health");
    assert_eq!(METRICS_PATH, "/metrics");
}
