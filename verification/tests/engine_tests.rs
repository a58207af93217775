use skunk_bat::config::FeatureFlags;
use skunk_bat::defense::{ActionType, ConfidenceCheck, DefenseAction, DefenseEngine, ThreatFacts};
use skunk_bat::gossip_analysis::{analyze_gossip_entry, GossipEntryParams};
use skunk_bat::integrations::forwarding::MIN_FORWARD_SEVERITY;
use skunk_bat::integrations::rpc::DEFAULT_INTEGRATION_TIMEOUT_MS;
use skunk_bat::integrations::songbird::{FederationClient, FederationThreatBroadcaster};
use skunk_bat::integrations::toadstool::{CapabilityPrimalDiscovery, DiscoveredPrimal};
use skunk_bat::observability::audit_log::EventSeverity;
use skunk_bat::observability::SecurityObserver;
use skunk_bat::primal_foundation::config::new_instance_id;
use skunk_bat::primal_foundation::health::{DependencyHealth, HealthReport, HealthStatus};
use skunk_bat::primal_foundation::types::Timestamp;
use skunk_bat::reconnaissance::{capability_names, NetworkScope, ReconnaissanceEngine};
use skunk_bat::threats::types::{PathValidation, Severity};
use skunk_bat::{Verdict, PRIMAL_ID, PRIMAL_NAME};

// Confidence thresholds of the default configuration.
const QUARANTINE_CRITICAL_CONFIDENCE: f64 = 0.9;
const QUARANTINE_HIGH_CONFIDENCE: f64 = 0.7;

fn features() -> FeatureFlags {
    FeatureFlags {
        reconnaissance: true,
        threat_detection: true,
        auto_defense: true,
        observability: true,
    }
}

fn test_threat(severity: Severity) -> ThreatFacts {
    ThreatFacts {
        id: "test-threat-1".to_string(),
        severity,
        source: "192.168.1.100".to_string(),
        description: "Test threat".to_string(),
    }
}

fn check(confidence: f64) -> ConfidenceCheck {
    ConfidenceCheck {
        exceeds_critical: confidence > QUARANTINE_CRITICAL_CONFIDENCE,
        exceeds_high: confidence > QUARANTINE_HIGH_CONFIDENCE,
    }
}

#[test]
fn test_defense_engine_creation() {
    let engine = DefenseEngine::new(features().auto_defense);
    assert!(engine.is_healthy());
}

#[test]
fn test_defense_engine_start_stop() {
    let engine = DefenseEngine::new(features().auto_defense);
    assert!(engine.start().is_ok());
    assert!(engine.stop().is_ok());
}

#[test]
fn defense_tests_test_respond_to_threat() {
    let mut engine = DefenseEngine::new(features().auto_defense);
    let threat = test_threat(Severity::Medium);
    let result = engine.respond(&threat, check(0.7), Timestamp::now());
    assert!(result.is_ok());
}

#[test]
fn test_critical_threat_response() {
    let engine = DefenseEngine::new(features().auto_defense);
    let threat = test_threat(Severity::Critical);
    let action = engine.determine_action(&threat, check(0.95));
    assert_eq!(action.action_type, ActionType::Quarantine);
    assert!(!action.requires_approval);
}

#[test]
fn test_high_severity_response() {
    let engine = DefenseEngine::new(features().auto_defense);
    let threat = test_threat(Severity::High);
    let action = engine.determine_action(&threat, check(0.8));
    assert_eq!(action.action_type, ActionType::QuarantineAndAlert);
    assert!(!action.requires_approval);
}

#[test]
fn test_medium_severity_response() {
    let engine = DefenseEngine::new(features().auto_defense);
    let threat = test_threat(Severity::Medium);
    let action = engine.determine_action(&threat, check(0.6));
    assert_eq!(action.action_type, ActionType::MonitorAndAlert);
    assert!(action.requires_approval);
}

#[test]
fn test_low_confidence_threat() {
    let engine = DefenseEngine::new(features().auto_defense);
    let threat = test_threat(Severity::Critical);
    let action = engine.determine_action(&threat, check(0.5));
    assert_eq!(action.action_type, ActionType::MonitorAndAlert);
}

#[test]
fn test_disabled_defense() {
    let mut f = features();
    f.auto_defense = false;
    let mut engine = DefenseEngine::new(f.auto_defense);
    assert!(!engine.is_healthy());
    let threat = test_threat(Severity::Critical);
    let result = engine.respond(&threat, check(0.95), Timestamp::now());
    assert!(result.is_ok());
}

#[test]
fn test_disabled_defense_start() {
    let engine = DefenseEngine::new(false);
    assert!(engine.start().is_ok());
    assert!(engine.stop().is_ok());
}

#[test]
fn test_quarantine_lifecycle() {
    let mut engine = DefenseEngine::new(features().auto_defense);
    let threat = test_threat(Severity::High);
    engine.respond(&threat, check(0.8), Timestamp::now()).expect("respond should succeed");

    let snapshot = engine.quarantine_snapshot();
    assert!(!snapshot.is_empty(), "Should have quarantined the source");
    let record = snapshot.iter().find(|r| r.source == threat.source).expect("source quarantined");
    assert_eq!(record.threat_id, threat.id);
}

#[test]
fn test_quarantine_and_alert() {
    let mut engine = DefenseEngine::new(features().auto_defense);
    let threat = ThreatFacts {
        id: "qa-test".to_string(),
        severity: Severity::High,
        source: "10.0.0.50".to_string(),
        description: "Unknown lineage detected".to_string(),
    };
    engine.respond(&threat, check(0.8), Timestamp::now()).expect("respond should succeed");
    let action = engine.determine_action(&threat, check(0.8));
    assert_eq!(action.action_type, ActionType::QuarantineAndAlert);
}

#[test]
fn test_auto_response_and_quarantine_accessors() {
    let engine = DefenseEngine::new(features().auto_defense);
    assert!(engine.auto_response_enabled());
    let snapshot = engine.quarantine_snapshot();
    assert!(snapshot.is_empty());
}

#[test]
fn test_block_action_response() {
    let threat = ThreatFacts {
        id: "test-block".to_string(),
        severity: Severity::Critical,
        source: "192.168.1.200".to_string(),
        description: "Port scanning".to_string(),
    };
    let mut engine = DefenseEngine::new(features().auto_defense);
    engine.quarantine(&threat.source, "earlier", "t-0");

    let action = DefenseAction {
        action_type: ActionType::Block,
        target: threat.source.clone(),
        requires_approval: false,
        reason: "High confidence attack".to_string(),
    };
    engine.execute_action(&action, &threat, Timestamp::now());
    assert!(!engine.is_quarantined(&threat.source));
}

#[test]
fn test_all_action_types_execute() {
    let mut engine = DefenseEngine::new(features().auto_defense);
    let threat = test_threat(Severity::Critical);

    for action_type in [
        ActionType::Quarantine,
        ActionType::QuarantineAndAlert,
        ActionType::MonitorAndAlert,
        ActionType::Block,
    ] {
        let action = DefenseAction {
            action_type,
            target: "test-target".to_string(),
            requires_approval: false,
            reason: "test".to_string(),
        };
        engine.execute_action(&action, &threat, Timestamp::now());
        let held = engine.is_quarantined("test-target");
        assert_eq!(held, action_type != ActionType::Block);
    }
}

#[test]
fn execute_action_without_auto_response_changes_nothing() {
    let mut engine = DefenseEngine::new(false);
    let threat = test_threat(Severity::Critical);
    let action = DefenseAction {
        action_type: ActionType::Quarantine,
        target: threat.source.clone(),
        requires_approval: false,
        reason: "test".to_string(),
    };
    engine.execute_action(&action, &threat, Timestamp::now());
    assert!(!engine.is_quarantined(&threat.source));
}

#[test]
fn quarantine_persistence_round_trip() {
    let mut engine = DefenseEngine::new(features().auto_defense);
    engine.quarantine("10.0.0.1", "test threat", "threat-001");
    engine.quarantine("10.0.0.2", "second threat", "threat-002");

    assert!(engine.is_quarantined("10.0.0.1"));
    assert!(engine.is_quarantined("10.0.0.2"));

    let saved = engine.quarantine_snapshot();
    assert_eq!(saved.len(), 2);

    let mut engine2 = DefenseEngine::new(features().auto_defense);
    engine2.restore(saved);
    assert!(engine2.is_quarantined("10.0.0.1"));
    assert!(engine2.is_quarantined("10.0.0.2"));

    engine2.release("10.0.0.1");
    assert!(!engine2.is_quarantined("10.0.0.1"));
    assert!(engine2.is_quarantined("10.0.0.2"));

    let mut engine3 = DefenseEngine::new(features().auto_defense);
    engine3.restore(engine2.quarantine_snapshot());
    assert!(!engine3.is_quarantined("10.0.0.1"));
    assert!(engine3.is_quarantined("10.0.0.2"));
    let record = engine3.quarantine_record("10.0.0.2").expect("restored record");
    assert_eq!(record.reason, "second threat");
    assert_eq!(record.threat_id, "threat-002");
}

fn now_epoch() -> u64 {
    Timestamp::now().secs
}

fn entry(topic: &str, key: &str, origin: &str) -> GossipEntryParams {
    let now = now_epoch();
    GossipEntryParams {
        topic: topic.to_owned(),
        key: key.to_owned(),
        payload: "{\"test\":true}".to_owned(),
        origin_gate: origin.to_owned(),
        ttl: 5,
        version: now,
        created_at_epoch: now,
        expires_at_epoch: now + 600,
    }
}

fn no_quarantine(_: &str) -> bool {
    false
}

#[test]
fn valid_entry_passes_all_checks() {
    let e = entry("tower", "capability.advertise:sporeGate:nestGate", "sporeGate");
    let v = analyze_gossip_entry(&e, no_quarantine);
    assert_eq!(v.verdict, Verdict::Allow);
    assert!(v.checks.iter().all(|c| c.passed));
}

#[test]
fn unknown_topic_warns() {
    let e = entry("unknown", "some.key", "sporeGate");
    let v = analyze_gossip_entry(&e, no_quarantine);
    assert_eq!(v.verdict, Verdict::Warn);
    assert!(!v.checks.iter().find(|c| c.check == "topic_valid").unwrap().passed);
}

#[test]
fn empty_key_warns() {
    let e = entry("tower", "", "sporeGate");
    let v = analyze_gossip_entry(&e, no_quarantine);
    assert_eq!(v.verdict, Verdict::Warn);
}

#[test]
fn key_too_long_warns() {
    let long_key = "k".repeat(300);
    let e = entry("tower", &long_key, "sporeGate");
    let v = analyze_gossip_entry(&e, no_quarantine);
    assert_eq!(v.verdict, Verdict::Warn);
}

#[test]
fn empty_origin_blocks() {
    let e = entry("tower", "some.key", "");
    let v = analyze_gossip_entry(&e, no_quarantine);
    assert_eq!(v.verdict, Verdict::Block);
}

#[test]
fn suspicious_origin_blocks() {
    let e = entry("tower", "some.key", "../escape");
    let v = analyze_gossip_entry(&e, no_quarantine);
    assert_eq!(v.verdict, Verdict::Block);
}

#[test]
fn zero_ttl_warns() {
    let mut e = entry("tower", "some.key", "sporeGate");
    e.ttl = 0;
    let v = analyze_gossip_entry(&e, no_quarantine);
    assert_eq!(v.verdict, Verdict::Warn);
}

#[test]
fn excessive_ttl_warns() {
    let mut e = entry("tower", "some.key", "sporeGate");
    e.ttl = 200;
    let v = analyze_gossip_entry(&e, no_quarantine);
    assert_eq!(v.verdict, Verdict::Warn);
}

#[test]
fn oversized_payload_warns() {
    let big = format!("{{\"data\":\"{}\"}}", "x".repeat(20_000));
    let mut e = entry("tower", "some.key", "sporeGate");
    e.payload = big;
    let v = analyze_gossip_entry(&e, no_quarantine);
    assert_eq!(v.verdict, Verdict::Warn);
}

#[test]
fn expired_entry_warns() {
    let mut e = entry("tower", "some.key", "sporeGate");
    e.expires_at_epoch = 1_000_000;
    let v = analyze_gossip_entry(&e, no_quarantine);
    assert_eq!(v.verdict, Verdict::Warn);
}

#[test]
fn excessive_lifetime_warns() {
    let now = now_epoch();
    let mut e = entry("tower", "some.key", "sporeGate");
    e.created_at_epoch = now;
    e.expires_at_epoch = now + 200_000;
    let v = analyze_gossip_entry(&e, no_quarantine);
    assert_eq!(v.verdict, Verdict::Warn);
}

#[test]
fn quarantined_origin_blocks() {
    let e = entry("tower", "some.key", "evilGate");
    let v = analyze_gossip_entry(&e, |g| g == "evilGate");
    assert_eq!(v.verdict, Verdict::Block);
}

#[test]
fn locally_injected_entry_no_expiry() {
    let mut e = entry("data", "cas.have:sporeGate", "sporeGate");
    e.expires_at_epoch = 0;
    e.created_at_epoch = 0;
    let v = analyze_gossip_entry(&e, no_quarantine);
    assert_eq!(v.verdict, Verdict::Allow);
}

#[test]
fn all_three_topics_valid() {
    for topic in &["tower", "data", "compute"] {
        let e = entry(topic, "test.key", "sporeGate");
        let v = analyze_gossip_entry(&e, no_quarantine);
        assert_eq!(v.verdict, Verdict::Allow, "topic={topic}");
    }
}

#[test]
fn control_chars_in_key_warns() {
    let e = entry("tower", "bad\x00key", "sporeGate");
    let v = analyze_gossip_entry(&e, no_quarantine);
    assert_eq!(v.verdict, Verdict::Warn);
}

#[test]
fn test_primal_constants() {
    assert_eq!(PRIMAL_NAME, "skunkBat");
    assert_eq!(PRIMAL_ID, "skunkbat");
    let caps = capability_names();
    assert_eq!(caps.len(), 4);
    assert!(caps.contains(&"reconnaissance".to_owned()));
    assert!(caps.contains(&"defense".to_owned()));
}

#[test]
fn test_security_observer_creation() {
    let observer = SecurityObserver::new(&features());
    assert!(observer.is_healthy());
}

#[test]
fn test_security_observer_start_stop() {
    let observer = SecurityObserver::new(&features());
    assert!(observer.start().is_ok());
    assert!(observer.stop().is_ok());
}

#[test]
fn test_get_metrics() {
    let observer = SecurityObserver::new(&features());
    let metrics = observer.get_metrics();
    assert_eq!(metrics.threats.detected, 0);
    assert_eq!(metrics.threats.mitigated, 0);
    assert_eq!(metrics.scanning.performed, 0);
}

#[test]
fn test_record_threat_detected() {
    let mut observer = SecurityObserver::new(&features());
    observer.record_threat_detected();
    observer.record_threat_detected();
    let metrics = observer.get_metrics();
    assert_eq!(metrics.threats.detected, 2);
}

#[test]
fn test_record_threat_mitigated() {
    let mut observer = SecurityObserver::new(&features());
    observer.record_threat_mitigated();
    let metrics = observer.get_metrics();
    assert_eq!(metrics.threats.mitigated, 1);
}

#[test]
fn test_record_scan_performed() {
    let mut observer = SecurityObserver::new(&features());
    observer.record_scan_performed();
    observer.record_scan_performed();
    observer.record_scan_performed();
    let metrics = observer.get_metrics();
    assert_eq!(metrics.scanning.performed, 3);
}

#[test]
fn test_record_quarantine() {
    let mut observer = SecurityObserver::new(&features());
    observer.record_quarantine();
    let metrics = observer.get_metrics();
    assert_eq!(metrics.defense.connections_quarantined, 1);
}

#[test]
fn test_record_alert() {
    let mut observer = SecurityObserver::new(&features());
    observer.record_alert();
    observer.record_alert();
    let metrics = observer.get_metrics();
    assert_eq!(metrics.defense.alerts_sent, 2);
}

#[test]
fn test_multiple_operations() {
    let mut observer = SecurityObserver::new(&features());
    observer.record_threat_detected();
    observer.record_threat_detected();
    observer.record_threat_mitigated();
    observer.record_scan_performed();
    observer.record_quarantine();
    observer.record_alert();
    let metrics = observer.get_metrics();
    assert_eq!(metrics.threats.detected, 2);
    assert_eq!(metrics.threats.mitigated, 1);
    assert_eq!(metrics.scanning.performed, 1);
    assert_eq!(metrics.defense.connections_quarantined, 1);
    assert_eq!(metrics.defense.alerts_sent, 1);
}

#[test]
fn test_disabled_observer() {
    let mut f = features();
    f.observability = false;
    let observer = SecurityObserver::new(&f);
    assert!(!observer.is_healthy());
    let metrics = observer.get_metrics();
    assert_eq!(metrics.threats.detected, 0);
}

#[test]
fn test_metrics_timestamp() {
    let observer = SecurityObserver::new(&features());
    let metrics = observer.get_metrics();
    assert!(metrics.last_updated.is_some());
}

#[test]
fn test_http_advisory_metrics() {
    let mut observer = SecurityObserver::new(&features());
    observer.record_http_advisory(Verdict::Allow);
    observer.record_http_advisory(Verdict::Allow);
    observer.record_http_advisory(Verdict::Warn);
    observer.record_http_advisory(Verdict::Block);
    let metrics = observer.get_metrics();
    assert_eq!(metrics.http.requests_screened, 4);
    assert_eq!(metrics.http.allows, 2);
    assert_eq!(metrics.http.warns, 1);
    assert_eq!(metrics.http.blocks, 1);
}

#[test]
fn test_http_metrics_empty_when_unused() {
    let observer = SecurityObserver::new(&features());
    let metrics = observer.get_metrics();
    assert!(metrics.http.is_empty());
    assert_eq!(metrics.http.requests_screened, 0);
}

#[test]
fn instance_id_is_hex() {
    let id = new_instance_id(4242);
    assert_eq!(id.len(), 32);
    assert!(id.chars().all(|c| c.is_ascii_hexdigit()));
    let other = new_instance_id(4243);
    assert_eq!(other.len(), 32);
}

#[test]
fn health_report_builder() {
    let report = HealthReport::new("test-primal", "1.0.0")
        .with_status(HealthStatus::Healthy)
        .with_dependency(DependencyHealth::healthy("db", "database"))
        .with_detail("uptime", "1h");
    assert_eq!(report.name, "test-primal");
    assert!(report.readiness);
    assert_eq!(report.dependencies.len(), 1);
    assert_eq!(report.detail("uptime"), Some(&"1h".to_owned()));
}

#[test]
fn test_reconnaissance_engine_creation() {
    let engine = ReconnaissanceEngine::new(&features(), NetworkScope::default());
    assert!(engine.is_healthy());
}

#[test]
fn test_reconnaissance_start_stop() {
    let engine = ReconnaissanceEngine::new(&features(), NetworkScope::default());
    assert!(engine.start().is_ok());
    assert!(engine.stop().is_ok());
}

#[test]
fn path_validation_construction() {
    let pv = PathValidation {
        is_valid: false,
        expected_path: vec![1, 2, 3],
        actual_path: vec![1, 3],
        bypassed_layers: vec![2],
    };
    assert!(!pv.is_valid);
    assert_eq!(pv.bypassed_layers.len(), 1);
}

#[test]
fn warn_severity_meets_minimum() {
    assert!(EventSeverity::Warn >= MIN_FORWARD_SEVERITY);
}

#[test]
fn error_severity_meets_minimum() {
    assert!(EventSeverity::Error >= MIN_FORWARD_SEVERITY);
}

#[test]
fn critical_severity_meets_minimum() {
    assert!(EventSeverity::Critical >= MIN_FORWARD_SEVERITY);
}

#[test]
fn test_tcp_endpoint_empty() {
    let client = FederationClient::new("", "x".into(), DEFAULT_INTEGRATION_TIMEOUT_MS);
    assert!(client.tcp_endpoint().is_none());
    assert!(client.endpoint().is_empty());
}

#[test]
fn test_tcp_endpoint_present() {
    let client = FederationClient::new("10.0.0.1:5000", "x".into(), DEFAULT_INTEGRATION_TIMEOUT_MS);
    assert_eq!(client.tcp_endpoint().as_deref(), Some("10.0.0.1:5000"));
    assert_eq!(client.endpoint(), "10.0.0.1:5000");
}

#[test]
fn test_create_intel_all_fields() {
    let client = FederationClient::new("", "node-abc".into(), DEFAULT_INTEGRATION_TIMEOUT_MS);
    let broadcaster = FederationThreatBroadcaster::new(client);
    let intel = broadcaster.create_intel("GeneticViolation", "attacker", "Critical", "Identity mismatch");
    assert_eq!(intel.source_node, "node-abc");
    assert_eq!(intel.threat_type, "GeneticViolation");
    assert_eq!(intel.severity, "Critical");
    assert!(intel.evidence.is_none());
}

#[test]
fn test_convert_to_nodes_populates() {
    let discovered = vec![DiscoveredPrimal {
        service_id: "svc-1".into(),
        capabilities: vec!["cap-a".into()],
        endpoint: "127.0.0.1:5000".into(),
        version: "1.0.0".into(),
    }];
    let nodes = CapabilityPrimalDiscovery::convert_to_nodes(discovered);
    assert_eq!(nodes.len(), 1);
    assert_eq!(nodes[0].id, "svc-1");
    assert_eq!(nodes[0].capabilities, vec!["cap-a"]);
}
