use skunk_bat::integrations::forwarding::{event_forwarded, ForwardingConfig, MIN_FORWARD_SEVERITY};
use skunk_bat::observability::audit_log::{AuditLog, EventKind, EventSeverity, EventSource};

fn scan_event(i: u32) -> EventKind {
    EventKind::ThreatDetected {
        threat_id: format!("t-{i}"),
        threat_type: "scan".to_owned(),
        severity: "Medium".to_owned(),
        source: "10.0.0.1".to_owned(),
    }
}

#[test]
fn skips_low_severity_events() {
    assert!(EventSeverity::Info < MIN_FORWARD_SEVERITY);
    assert!(!ForwardingConfig::default().should_forward(EventSeverity::Info));
}

#[test]
fn multiple_events_forwarding() {
    let mut log = AuditLog::new();
    for i in 0..5 {
        log.record(EventSource::ThreatDetection, EventSeverity::Warn, scan_event(i));
    }
    assert_eq!(log.latest_seq(), 5);
}

#[test]
fn cursor_stops_on_failed_forward() {
    let mut log = AuditLog::new();
    for i in 0..3 {
        log.record(EventSource::ThreatDetection, EventSeverity::Warn, scan_event(i));
    }
    let batch: Vec<(u64, EventSeverity)> = log.query(0, 50).iter().map(|e| (e.seq, e.severity)).collect();
    let config = ForwardingConfig::default();
    // Both targets unreachable: the first forward fails and the cursor stays.
    let first = event_forwarded(Some(false), Some(false));
    assert_eq!(config.advance_cursor(0, &batch, &[first]), 0);
    assert_eq!(log.latest_seq(), 3, "events remain available for retry after failure");
}

#[test]
fn forwarding_loop_advances_cursor() {
    let mut log = AuditLog::new();
    log.record(EventSource::ThreatDetection, EventSeverity::Warn, scan_event(1));
    let batch: Vec<(u64, EventSeverity)> = log.query(0, 50).iter().map(|e| (e.seq, e.severity)).collect();
    let config = ForwardingConfig::default();
    let delivered = event_forwarded(Some(true), None);
    assert_eq!(config.advance_cursor(0, &batch, &[delivered]), 1);
    assert_eq!(log.latest_seq(), 1);
}

#[test]
fn low_severity_events_advance_cursor() {
    let mut log = AuditLog::new();
    log.record(
        EventSource::Lifecycle,
        EventSeverity::Info,
        EventKind::LifecycleTransition { from_state: "Created".to_owned(), to_state: "Running".to_owned() },
    );
    log.record(EventSource::ThreatDetection, EventSeverity::Warn, scan_event(9));
    assert_eq!(log.latest_seq(), 2);
    let batch: Vec<(u64, EventSeverity)> = log.query(0, 50).iter().map(|e| (e.seq, e.severity)).collect();
    let config = ForwardingConfig::default();
    // The info event is skipped (the cursor passes it); the warn event fails.
    assert_eq!(config.advance_cursor(0, &batch, &[false]), 1);
}

#[test]
fn cycle_keeps_failed_event_ahead_of_cursor() {
    let config = ForwardingConfig::default();
    let batch = [(5, EventSeverity::Warn), (6, EventSeverity::Info), (7, EventSeverity::Warn), (8, EventSeverity::Error)];
    let next = config.advance_cursor(4, &batch, &[true, false]);
    assert_eq!(next, 6);
    assert!(next >= 4);
    assert!(next < 7);
}
