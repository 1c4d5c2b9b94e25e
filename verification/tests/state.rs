use aether_proxy::registration::{
    classify_heartbeat, jitter_delay, should_retry_status, HeartbeatError, HeartbeatResult, RemoteConfig,
    RetryDecision, RetryPolicy, RetryState,
};
use aether_proxy::state::ProxyMetrics;
use aether_proxy::tunnel::heartbeat::{build_heartbeat_report, emits_heartbeat};

#[test]
fn metrics_start_at_zero() {
    let m = ProxyMetrics::new();
    assert_eq!(
        m,
        ProxyMetrics { total_requests: 0, total_latency_ns: 0, failed_requests: 0, dns_failures: 0, stream_errors: 0 }
    );
}

#[test]
fn record_request_adds_up() {
    let mut m = ProxyMetrics::new();
    m.record_request(1_500_000);
    m.record_request(500_000);
    assert_eq!(m.total_requests, 2);
    assert_eq!(m.total_latency_ns, 2_000_000);
    assert_eq!(m.failed_requests, 0);
}

#[test]
fn record_request_clamps_and_wraps() {
    let mut m = ProxyMetrics::new();
    m.record_request(u128::MAX);
    assert_eq!(m.total_latency_ns, u64::MAX);
    m.record_request(2);
    assert_eq!(m.total_latency_ns, 1);
    assert_eq!(m.total_requests, 2);
    let mut m = ProxyMetrics { total_requests: u64::MAX, ..ProxyMetrics::new() };
    m.record_request(0);
    assert_eq!(m.total_requests, 0);
}

#[test]
fn failures_are_counted_apart() {
    let mut m = ProxyMetrics::new();
    m.record_failure();
    m.record_dns_failure();
    m.record_dns_failure();
    m.record_stream_error();
    m.record_stream_error();
    m.record_stream_error();
    assert_eq!(
        m,
        ProxyMetrics { total_requests: 0, total_latency_ns: 0, failed_requests: 1, dns_failures: 2, stream_errors: 3 }
    );
}

#[test]
fn take_resets_the_counters() {
    let mut m = ProxyMetrics { total_requests: 4, total_latency_ns: 9, failed_requests: 1, dns_failures: 2, stream_errors: 3 };
    let taken = m.take();
    assert_eq!(taken.total_requests, 4);
    assert_eq!(taken.stream_errors, 3);
    assert_eq!(m, ProxyMetrics::new());
}

#[test]
fn heartbeat_report_swaps_the_counters_to_zero() {
    let mut m = ProxyMetrics { total_requests: 4, total_latency_ns: 8_000_000, failed_requests: 1, dns_failures: 2, stream_errors: 3 };
    let r = build_heartbeat_report("node-1", 17, &mut m);
    assert_eq!(r.node_id, "node-1");
    assert_eq!(r.active_connections, 17);
    assert_eq!(r.total_requests, 4);
    assert_eq!(r.total_latency_ns, Some(8_000_000));
    assert_eq!(r.failed_requests, 1);
    assert_eq!(r.dns_failures, 2);
    assert_eq!(r.stream_errors, 3);
    assert_eq!(m, ProxyMetrics::new());
    // an interval without requests has no latency
    let r = build_heartbeat_report("node-1", 0, &mut m);
    assert_eq!(r.total_requests, 0);
    assert_eq!(r.total_latency_ns, None);
}

#[test]
fn only_the_primary_connection_sends_heartbeats() {
    assert!(emits_heartbeat(0));
    assert!(!emits_heartbeat(1));
    assert!(!emits_heartbeat(2));
}

#[test]
fn retriable_statuses() {
    for s in [500u16, 502, 503, 599, 429, 408] {
        assert!(should_retry_status(s), "{s}");
    }
    for s in [200u16, 204, 301, 400, 401, 404, 409, 499, 600] {
        assert!(!should_retry_status(s), "{s}");
    }
}

#[test]
fn jitter_is_under_a_hundred_milliseconds() {
    assert_eq!(jitter_delay(0, 999_999_999), 0);
    assert_eq!(jitter_delay(200, 0), 200);
    assert_eq!(jitter_delay(200, 123_456_789), 289);
    assert_eq!(jitter_delay(200, 99), 299);
    assert_eq!(jitter_delay(200, 100), 200);
    assert_eq!(jitter_delay(u64::MAX - 5, 50), u64::MAX);
}

#[test]
fn retry_policy_is_normalised() {
    let p = RetryPolicy::new(0, 500, 100);
    assert_eq!(p, RetryPolicy { max_attempts: 1, base_delay_ms: 500, max_delay_ms: 500 });
    let p = RetryPolicy::new(3, 200, 2000);
    assert_eq!(p, RetryPolicy { max_attempts: 3, base_delay_ms: 200, max_delay_ms: 2000 });
    assert_eq!(p.start(), RetryState { attempt: 0, delay_ms: 200 });
}

#[test]
fn retries_double_the_delay_up_to_the_cap() {
    let p = RetryPolicy::new(5, 200, 700);
    let mut s = p.start();
    assert_eq!(s.record_attempt(&p, true, 7), RetryDecision::RetryAfter(207));
    assert_eq!(s, RetryState { attempt: 1, delay_ms: 400 });
    assert_eq!(s.record_attempt(&p, true, 0), RetryDecision::RetryAfter(400));
    assert_eq!(s, RetryState { attempt: 2, delay_ms: 700 });
    assert_eq!(s.record_attempt(&p, true, 0), RetryDecision::RetryAfter(700));
    assert_eq!(s, RetryState { attempt: 3, delay_ms: 700 });
    assert_eq!(s.record_attempt(&p, true, 0), RetryDecision::RetryAfter(700));
    // the fifth attempt is the last
    assert_eq!(s.record_attempt(&p, true, 0), RetryDecision::Done);
    assert_eq!(s.attempt, 5);
}

#[test]
fn success_ends_the_retries() {
    let p = RetryPolicy::new(3, 200, 2000);
    let mut s = p.start();
    assert_eq!(s.record_attempt(&p, false, 0), RetryDecision::Done);
    assert_eq!(s, RetryState { attempt: 1, delay_ms: 200 });
    let one = RetryPolicy::new(1, 200, 2000);
    let mut s = one.start();
    assert_eq!(s.record_attempt(&one, true, 0), RetryDecision::Done);
}

#[test]
fn heartbeat_status_classes() {
    assert_eq!(classify_heartbeat(200, "ok".to_string()), Ok(()));
    assert_eq!(classify_heartbeat(204, String::new()), Ok(()));
    assert_eq!(
        classify_heartbeat(404, "gone".to_string()),
        Err(HeartbeatError::NodeNotFound("gone".to_string()))
    );
    assert_eq!(
        classify_heartbeat(503, "busy".to_string()),
        Err(HeartbeatError::Other("heartbeat failed (HTTP 503): busy".to_string()))
    );
    assert_eq!(
        classify_heartbeat(300, String::new()),
        Err(HeartbeatError::Other("heartbeat failed (HTTP 300): ".to_string()))
    );
    assert_eq!(HeartbeatError::NodeNotFound("gone".to_string()).message(), "node not found: gone");
    assert_eq!(HeartbeatError::Other("boom".to_string()).message(), "boom");
}

#[test]
fn heartbeat_result_defaults_the_version() {
    let r = HeartbeatResult::new(None, None);
    assert!(r.remote_config.is_none());
    assert_eq!(r.config_version, 0);
    let rc = RemoteConfig { node_name: Some("n".to_string()), allowed_ports: None, log_level: None, heartbeat_interval: None };
    let r = HeartbeatResult::new(Some(rc), Some(4));
    assert_eq!(r.remote_config.unwrap().node_name.as_deref(), Some("n"));
    assert_eq!(r.config_version, 4);
}
