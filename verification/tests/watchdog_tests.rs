use zenoh_plugin_mavlink::watchdog::{
    classify_heartbeat_age, evaluate_cycle, watchdog_period_valid, Severity,
    MAX_SLEEP_DELTA_US, REPORT_THRESHOLD_INFO_US, REPORT_THRESHOLD_WARN_US,
};

const PERIOD_US: u64 = 1_000_000;

#[test]
fn severity_matches_thresholds_at_boundaries() {
    // 9 ms: no report; 11 ms: info; 101 ms: warn; beyond the period: error.
    assert_eq!(classify_heartbeat_age(9_000, PERIOD_US), Severity::Silent);
    assert_eq!(classify_heartbeat_age(11_000, PERIOD_US), Severity::Info);
    assert_eq!(classify_heartbeat_age(101_000, PERIOD_US), Severity::Warn);
    assert_eq!(classify_heartbeat_age(PERIOD_US + 1, PERIOD_US), Severity::Error);
}

#[test]
fn severity_boundaries_are_inclusive() {
    assert_eq!(classify_heartbeat_age(0, PERIOD_US), Severity::Silent);
    assert_eq!(classify_heartbeat_age(REPORT_THRESHOLD_INFO_US, PERIOD_US), Severity::Silent);
    assert_eq!(classify_heartbeat_age(REPORT_THRESHOLD_INFO_US + 1, PERIOD_US), Severity::Info);
    assert_eq!(classify_heartbeat_age(REPORT_THRESHOLD_WARN_US, PERIOD_US), Severity::Info);
    assert_eq!(classify_heartbeat_age(REPORT_THRESHOLD_WARN_US + 1, PERIOD_US), Severity::Warn);
    assert_eq!(classify_heartbeat_age(PERIOD_US, PERIOD_US), Severity::Warn);
}

#[test]
fn period_must_exceed_largest_threshold() {
    assert!(!watchdog_period_valid(0));
    assert!(!watchdog_period_valid(REPORT_THRESHOLD_WARN_US));
    assert!(watchdog_period_valid(REPORT_THRESHOLD_WARN_US + 1));
    assert!(watchdog_period_valid(PERIOD_US));
}

#[test]
fn cycle_reports_own_thread_delay_separately() {
    let on_time = evaluate_cycle(PERIOD_US + MAX_SLEEP_DELTA_US, 5_000, PERIOD_US);
    assert!(!on_time.own_thread_delayed);
    assert_eq!(on_time.severity, Severity::Silent);

    let delayed = evaluate_cycle(PERIOD_US + MAX_SLEEP_DELTA_US + 1, 5_000, PERIOD_US);
    assert!(delayed.own_thread_delayed);
    assert_eq!(delayed.severity, Severity::Silent);

    let stalled = evaluate_cycle(PERIOD_US, 2 * PERIOD_US, PERIOD_US);
    assert!(!stalled.own_thread_delayed);
    assert_eq!(stalled.severity, Severity::Error);
}
