use skunk_bat::observability::audit_log::{AuditLog, EventKind, EventSeverity, EventSource};

fn transition(from: &str, to: &str) -> EventKind {
    EventKind::LifecycleTransition { from_state: from.to_owned(), to_state: to.to_owned() }
}

fn negotiate(session: &str, cipher: &str) -> EventKind {
    EventKind::BtspNegotiate { session_id: session.to_owned(), cipher: cipher.to_owned(), success: true }
}

#[test]
fn record_and_query() {
    let mut log = AuditLog::new();
    log.record(
        EventSource::MethodGate,
        EventSeverity::Warn,
        EventKind::GateRejection { method: "security.scan".to_owned(), origin: "Remote".to_owned() },
    );

    let events = log.query(0, 10);
    assert_eq!(events.len(), 1);
    assert_eq!(events[0].seq, 1);
    assert_eq!(events[0].source, EventSource::MethodGate);
}

#[test]
fn query_with_cursor() {
    let mut log = AuditLog::new();
    for i in 0..5 {
        log.record(
            EventSource::ThreatDetection,
            EventSeverity::Error,
            EventKind::ThreatDetected {
                threat_id: format!("t-{i}"),
                threat_type: "intrusion".to_owned(),
                severity: "High".to_owned(),
                source: "10.0.0.1".to_owned(),
            },
        );
    }

    let events = log.query(3, 10);
    assert_eq!(events.len(), 2);
    assert_eq!(events[0].seq, 4);
    assert_eq!(events[1].seq, 5);
}

#[test]
fn ring_buffer_eviction() {
    let mut log = AuditLog::with_capacity(3);
    for i in 0..5 {
        log.record(
            EventSource::Lifecycle,
            EventSeverity::Info,
            transition(&format!("s{i}"), &format!("s{}", i + 1)),
        );
    }

    assert_eq!(log.len(), 3);
    let events = log.query(0, 10);
    assert_eq!(events[0].seq, 3);
    assert_eq!(events[2].seq, 5);
}

#[test]
fn latest_seq_tracking() {
    let mut log = AuditLog::new();
    assert_eq!(log.latest_seq(), 0);

    log.record(EventSource::Transport, EventSeverity::Info, negotiate("s1", "chacha20-poly1305"));

    assert_eq!(log.latest_seq(), 1);
}

#[test]
fn correlation_id() {
    let mut log = AuditLog::new();
    log.record_with_correlation(
        EventSource::DefenseEngine,
        EventSeverity::Warn,
        EventKind::DefenseAction { threat_id: "t-99".to_owned(), action: "quarantine".to_owned() },
        Some("incident-42".to_owned()),
    );

    let events = log.query(0, 10);
    assert_eq!(events[0].correlation_id.as_deref(), Some("incident-42"));
}

#[test]
fn empty_query_returns_empty() {
    let log = AuditLog::new();
    let events = log.query(0, 100);
    assert!(events.is_empty());
}

#[test]
fn is_empty_tracks_state() {
    let mut log = AuditLog::new();
    assert!(log.is_empty());

    log.record(EventSource::Lifecycle, EventSeverity::Info, transition("init", "running"));

    assert!(!log.is_empty());
}

#[test]
fn query_zero_limit_returns_empty() {
    let mut log = AuditLog::new();
    log.record(EventSource::Transport, EventSeverity::Info, negotiate("s1", "null"));

    let events = log.query(0, 0);
    assert!(events.is_empty());
}

#[test]
fn sequential_seq_numbers() {
    let mut log = AuditLog::new();
    for _ in 0..10 {
        log.record(
            EventSource::ThreatDetection,
            EventSeverity::Warn,
            EventKind::ThreatDetected {
                threat_id: "t".to_owned(),
                threat_type: "test".to_owned(),
                severity: "Low".to_owned(),
                source: "local".to_owned(),
            },
        );
    }

    let events = log.query(0, 100);
    for (i, event) in events.iter().enumerate() {
        assert_eq!(event.seq, (i + 1) as u64);
    }
}

#[test]
fn cursor_beyond_latest_returns_empty() {
    let mut log = AuditLog::new();
    log.record(EventSource::Lifecycle, EventSeverity::Info, transition("a", "b"));

    let events = log.query(999, 100);
    assert!(events.is_empty());
}

#[test]
fn all_severity_levels_recordable() {
    let mut log = AuditLog::new();
    for severity in [EventSeverity::Info, EventSeverity::Warn, EventSeverity::Error, EventSeverity::Critical] {
        log.record(
            EventSource::DefenseEngine,
            severity,
            EventKind::DefenseAction { threat_id: "t".to_owned(), action: "test".to_owned() },
        );
    }
    assert_eq!(log.len(), 4);
}

#[test]
fn all_event_sources_recordable() {
    let mut log = AuditLog::new();
    for source in [
        EventSource::MethodGate,
        EventSource::ThreatDetection,
        EventSource::DefenseEngine,
        EventSource::Transport,
        EventSource::Lifecycle,
    ] {
        log.record(source, EventSeverity::Info, transition("x", "y"));
    }
    assert_eq!(log.len(), 5);
}

#[test]
fn correlation_id_none_by_default() {
    let mut log = AuditLog::new();
    log.record(EventSource::Lifecycle, EventSeverity::Info, transition("a", "b"));

    let events = log.query(0, 1);
    assert!(events[0].correlation_id.is_none());
}

#[test]
fn default_and_new_equivalent() {
    let log1 = AuditLog::new();
    let log2 = AuditLog::default();
    assert_eq!(log1.latest_seq(), log2.latest_seq());
    assert_eq!(log1.len(), log2.len());
}

#[test]
fn limit_caps_results() {
    let mut log = AuditLog::new();
    for _ in 0..20 {
        log.record(EventSource::Transport, EventSeverity::Info, negotiate("s", "null"));
    }

    let events = log.query(0, 5);
    assert_eq!(events.len(), 5);
}
