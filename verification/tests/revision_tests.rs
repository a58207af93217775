use skunk_bat::integrations::songbird::{federation_cursor, FederationPass};
use skunk_bat::integrations::toadstool::DiscoveryClient;
use skunk_bat::observability::audit_log::{EventKind, EventSeverity};
use skunk_bat::primal_foundation::health::HealthReport;
use skunk_bat::primal_foundation::types::Timestamp;

#[test]
fn display_falls_back_to_debug_rendering() {
    let ts = Timestamp { secs: 3, nanos: 5 };
    assert_eq!(ts.display_from(None), "Timestamp(3.000000005)");
    assert_eq!(ts.display_from(Some(String::new())), "Timestamp(3.000000005)");
    assert_eq!(ts.display_from(Some("rendered".to_owned())), "rendered");
    assert!(!ts.display_text().is_empty());
}

#[test]
fn display_carries_whole_seconds_out_of_nanos() {
    let ts = Timestamp { secs: 1, nanos: 2_500_000_000 };
    assert!(!ts.display_text().is_empty());
}

#[test]
fn with_detail_replaces_an_existing_key() {
    let report = HealthReport::new("p", "1").with_detail("uptime", "1h").with_detail("mode", "x").with_detail("uptime", "2h");
    assert_eq!(report.details.len(), 2);
    assert_eq!(report.detail("uptime").map(String::as_str), Some("2h"));
    assert_eq!(report.detail("mode").map(String::as_str), Some("x"));
}

#[test]
fn federation_pass_matches_cursor() {
    // (seq, severity, is threat): info passed over, threat broadcast ok,
    // warn non-threat passed over, threat broadcast fails, later event untouched.
    let batch = [
        (11, EventSeverity::Info, false),
        (12, EventSeverity::Warn, true),
        (13, EventSeverity::Warn, false),
        (14, EventSeverity::Error, true),
        (15, EventSeverity::Info, false),
    ];
    let outcomes_of = [true, false];
    let mut pass = FederationPass::start(10);
    let mut k = 0;
    for (seq, sev, threat) in batch {
        let mut outcome = None;
        if pass.wants(sev, threat) {
            outcome = Some(outcomes_of[k]);
            k += 1;
        }
        pass = pass.record(seq, sev, threat, outcome);
    }
    assert!(pass.halted);
    assert_eq!(pass.cursor, 13);
    assert_eq!(federation_cursor(10, &batch, &outcomes_of), 13);
}

#[test]
fn threat_detected_payload_is_recognised() {
    let t = EventKind::ThreatDetected {
        threat_id: "t".into(),
        threat_type: "scan".into(),
        severity: "High".into(),
        source: "10.0.0.1".into(),
    };
    assert!(t.is_threat_detected());
    let l = EventKind::LifecycleTransition { from_state: "a".into(), to_state: "b".into() };
    assert!(!l.is_threat_detected());
}

#[test]
fn only_plain_sock_files_are_probed() {
    assert!(DiscoveryClient::is_probe_candidate(Some("sock"), false));
    assert!(!DiscoveryClient::is_probe_candidate(Some("sock"), true));
    assert!(!DiscoveryClient::is_probe_candidate(Some("txt"), false));
    assert!(!DiscoveryClient::is_probe_candidate(None, false));
}
