use skunk_bat::config::{data_dir_from, lineage_id_from, parse_topology_path, FeatureFlags};
use skunk_bat::defense::{ActionType, ConfidenceCheck, DefenseEngine, QuarantineRecord, ThreatFacts};
use skunk_bat::error::SkunkBatError;
use skunk_bat::integrations::beardog::RemoteLineageVerifier;
use skunk_bat::integrations::forwarding::{event_forwarded, resolve_target, ForwardingConfig};
use skunk_bat::integrations::nestgate::{tally_sweep, ContentProtector};
use skunk_bat::integrations::rpc::{dial_target, parse_tcp_host_port, transport_env_name, CapabilityClient, DialTarget, RpcError, TransportEndpoint};
use skunk_bat::integrations::songbird::{call_outcome, federation_cursor, is_broadcast, FederationClient};
use skunk_bat::integrations::toadstool::{CapabilityPrimalDiscovery, DiscoveryClient};
use skunk_bat::observability::audit_log::{AuditLog, EventKind, EventSeverity, EventSource};
use skunk_bat::observability::SecurityObserver;
use skunk_bat::platform::{parse_proc_uid, read_total_forks, uid_fallback};
use skunk_bat::primal::{advisory_check, dependency_health, health_status, record_response, PrimalCore};
use skunk_bat::primal_foundation::health::HealthStatus;
use skunk_bat::primal_foundation::lifecycle::PrimalState;
use skunk_bat::primal_foundation::types::Timestamp;
use skunk_bat::reconnaissance::{LocalDiscovery, NetworkScope, ReconnaissanceEngine};
use skunk_bat::tarpc_service::tarpc_socket_from_jsonrpc;
use skunk_bat::text::split_trimmed;
use skunk_bat::threats::detection::{drift_severity, is_port_scan, sensitive_ports_accessed, topology_violation_severity};
use skunk_bat::threats::genetic::LayerTopologyValidator;
use skunk_bat::threats::types::{ConfigSnapshot, Severity};
use skunk_bat::universal_adapter::{Capability, LocalUniversalAdapter};
use skunk_bat::Verdict;
use std::time::Duration;

fn all_features() -> FeatureFlags {
    FeatureFlags::default()
}

fn threat(severity: Severity, source: &str) -> ThreatFacts {
    ThreatFacts {
        id: format!("threat-{source}"),
        severity,
        source: source.to_owned(),
        description: "observed".to_owned(),
    }
}

const SURE: ConfidenceCheck = ConfidenceCheck { exceeds_critical: true, exceeds_high: true };

#[test]
fn audit_log_read_after_write() {
    let mut log = AuditLog::new();
    log.record(
        EventSource::ThreatDetection,
        EventSeverity::Warn,
        EventKind::ThreatDetected {
            threat_id: "t-1".to_owned(),
            threat_type: "behavioral".to_owned(),
            severity: "High".to_owned(),
            source: "10.0.0.1".to_owned(),
        },
    );
    assert_eq!(log.latest_seq(), 1);
    let events = log.query(0, 10);
    assert_eq!(events.len(), 1);
    assert_eq!(events[0].seq, 1);
    assert_eq!(events[0].severity, EventSeverity::Warn);
    assert!(log.query(1, 10).is_empty());
}

#[test]
fn audit_log_evicts_oldest_at_capacity() {
    let mut log = AuditLog::with_capacity(2);
    for i in 0..3 {
        log.record(
            EventSource::Lifecycle,
            EventSeverity::Info,
            EventKind::BtspDecryptFailure { reason: format!("r{i}") },
        );
    }
    assert_eq!(log.len(), 2);
    let events = log.query(0, 10);
    assert_eq!(events[0].seq, 2);
    assert_eq!(events[1].seq, 3);
    assert_eq!(log.query(0, 1).len(), 1);
}

#[test]
fn quarantine_release_roundtrip() {
    let mut engine = DefenseEngine::new(true);
    engine.quarantine("10.0.0.1", "manual", "threat-001");
    engine.quarantine("10.0.0.2", "manual", "threat-002");
    assert!(engine.is_quarantined("10.0.0.1"));
    assert_eq!(engine.quarantined_count(), 2);
    assert!(engine.release("10.0.0.1"));
    assert!(!engine.is_quarantined("10.0.0.1"));
    assert!(engine.is_quarantined("10.0.0.2"));
    assert!(!engine.release("10.0.0.1"));
    assert_eq!(engine.quarantined_count(), 1);
}

#[test]
fn requarantine_replaces_record() {
    let mut engine = DefenseEngine::new(true);
    engine.quarantine("10.0.0.1", "first", "t-1");
    engine.quarantine("10.0.0.1", "second", "t-2");
    assert_eq!(engine.quarantined_count(), 1);
    assert_eq!(engine.quarantine_record("10.0.0.1").unwrap().threat_id, "t-2");
}

#[test]
fn respond_quarantines_critical_source() {
    let mut engine = DefenseEngine::new(true);
    let t = threat(Severity::Critical, "10.0.0.99");
    let action = engine.respond(&t, SURE, Timestamp::from_secs(5)).unwrap();
    assert_eq!(action, ActionType::Quarantine);
    let rec = engine.quarantine_record("10.0.0.99").unwrap();
    assert_eq!(rec.threat_id, "threat-10.0.0.99");
    assert_eq!(rec.started_at, Timestamp::from_secs(5));
}

#[test]
fn disabled_engine_only_monitors() {
    let mut engine = DefenseEngine::new(false);
    let t = threat(Severity::Critical, "10.0.0.99");
    assert_eq!(engine.respond(&t, SURE, Timestamp::now()).unwrap(), ActionType::MonitorAndAlert);
    assert!(!engine.is_quarantined("10.0.0.99"));
    let a = engine.evaluate(&t, SURE);
    assert_eq!(a.reason, "defense engine disabled — advisory only");
}

#[test]
fn advisory_blocks_quarantined_source() {
    let mut engine = DefenseEngine::new(true);
    let mut observer = SecurityObserver::new(&all_features());
    engine.quarantine("10.0.0.7", "manual", "threat-7");
    let v = advisory_check(&engine, &mut observer, "10.0.0.7", Some(3));
    assert_eq!(v.verdict, Verdict::Block);
    assert_eq!(v.reason, "source is quarantined");
    assert_eq!(v.threat_ids, vec!["threat-7".to_owned()]);
    assert_eq!(observer.get_metrics().http.requests_screened, 0);
    engine.release("10.0.0.7");
    let v = advisory_check(&engine, &mut observer, "10.0.0.7", None);
    assert_eq!(v.verdict, Verdict::Allow);
    assert_eq!(v.reason, "no threats detected for source");
}

#[test]
fn advisory_warns_on_http_anomalies() {
    let engine = DefenseEngine::new(true);
    let mut observer = SecurityObserver::new(&all_features());
    let v = advisory_check(&engine, &mut observer, "10.0.0.8", Some(2));
    assert_eq!(v.verdict, Verdict::Warn);
    assert_eq!(v.reason, "2 HTTP anomalies detected for source");
    let v = advisory_check(&engine, &mut observer, "10.0.0.8", Some(1));
    assert_eq!(v.reason, "1 HTTP anomaly detected for source");
    let v = advisory_check(&engine, &mut observer, "10.0.0.8", Some(0));
    assert_eq!(v.verdict, Verdict::Allow);
    let m = observer.get_metrics();
    assert_eq!(m.http.requests_screened, 3);
    assert_eq!(m.http.warns, 2);
    assert_eq!(m.http.allows, 1);
}

#[test]
fn advisory_exempt_when_defense_disabled() {
    let engine = DefenseEngine::new(false);
    let mut observer = SecurityObserver::new(&all_features());
    let v = advisory_check(&engine, &mut observer, "10.0.0.8", Some(2));
    assert_eq!(v.verdict, Verdict::Allow);
    assert_eq!(v.reason, "defense engine disabled — no advisory");
}

#[test]
fn response_counters() {
    let mut observer = SecurityObserver::new(&all_features());
    record_response(&mut observer, ActionType::QuarantineAndAlert);
    record_response(&mut observer, ActionType::MonitorAndAlert);
    record_response(&mut observer, ActionType::Quarantine);
    record_response(&mut observer, ActionType::Block);
    let m = observer.get_metrics();
    assert_eq!(m.threats.mitigated, 4);
    assert_eq!(m.defense.connections_quarantined, 2);
    assert_eq!(m.defense.alerts_sent, 2);
}

#[test]
fn primal_core_lifecycle_and_response() {
    let mut core = PrimalCore::new(&all_features(), NetworkScope::default(), 16, false);
    assert_eq!(core.state(), PrimalState::Created);
    assert!(matches!(core.health_status(true), HealthStatus::Unhealthy { .. }));
    core.start(Ok(())).unwrap();
    assert_eq!(core.state(), PrimalState::Running);
    assert!(core.health_status(true).is_healthy());
    assert_eq!(core.audit_log().len(), 1);
    let t = threat(Severity::Critical, "10.0.0.99");
    assert_eq!(core.respond_to_threat(&t, SURE, Timestamp::now()).unwrap(), ActionType::Quarantine);
    assert!(core.is_quarantined("10.0.0.99"));
    assert_eq!(core.advisory_check_http("10.0.0.99", None).verdict, Verdict::Block);
    let m = core.get_security_metrics();
    assert_eq!(m.threats.mitigated, 1);
    assert_eq!(m.defense.connections_quarantined, 1);
    assert!(core.release_quarantine("10.0.0.99"));
    core.stop(Ok(())).unwrap();
    assert_eq!(core.state(), PrimalState::Stopped);
    assert_eq!(core.audit_log().len(), 2);
}

#[test]
fn primal_core_start_failure_is_lifecycle_error() {
    let mut core = PrimalCore::new(&all_features(), NetworkScope::default(), 16, true);
    let r = core.start(Err(SkunkBatError::ThreatDetection("broken".to_owned())));
    let e = r.unwrap_err();
    assert_eq!(e.message(), "lifecycle error: threat detection error: broken");
    assert_eq!(core.state(), PrimalState::Starting);
    assert!(core.audit_log().is_empty());
}

#[test]
fn degraded_health_names_subsystems() {
    match health_status(PrimalState::Running, true, false, true, true) {
        HealthStatus::Degraded { reason } => {
            assert_eq!(reason, "recon:true detector:false defense:true observer:true");
        }
        other => panic!("unexpected {other:?}"),
    }
    match health_status(PrimalState::Stopped, true, true, true, true) {
        HealthStatus::Unhealthy { reason } => assert_eq!(reason, "state: stopped"),
        other => panic!("unexpected {other:?}"),
    }
    let deps = dependency_health(false, true);
    assert_eq!(deps[0].name, "lineage-verifier");
    assert!(!deps[0].status.is_healthy());
    assert!(deps[1].status.is_healthy());
}

#[test]
fn adapter_announce_then_discover() {
    let mut adapter = LocalUniversalAdapter::new();
    adapter
        .announce(Capability {
            primal_id: "nest-1".to_owned(),
            capabilities: vec!["content".to_owned(), "storage".to_owned()],
            endpoint: "/run/nest.sock".to_owned(),
            metadata: vec![],
        })
        .unwrap();
    let found = adapter.discover_capability("content").unwrap();
    assert_eq!(found.len(), 1);
    assert_eq!(found[0].id, "nest-1");
    assert!(adapter.discover_capability("lineage").unwrap().is_empty());
    adapter.remove("nest-1").unwrap();
    assert!(adapter.discover_capability("content").unwrap().is_empty());
    assert_eq!(adapter.total_primals(), 0);
}

#[test]
fn topology_validation_reports_bypassed_layers() {
    let v = LayerTopologyValidator::new(vec![1, 2, 3]);
    let ok = v.validate_path(&[1, 2, 3]);
    assert!(ok.is_valid);
    assert!(ok.bypassed_layers.is_empty());
    let bad = v.validate_path(&[1, 3]);
    assert!(!bad.is_valid);
    assert_eq!(bad.bypassed_layers, vec![2]);
    assert_eq!(topology_violation_severity(&bad.bypassed_layers), Severity::High);
    assert_eq!(topology_violation_severity(&[]), Severity::Medium);
}

#[test]
fn sensitive_port_scan_detection() {
    let sensitive = [22, 23, 3389, 445, 135];
    let hits = sensitive_ports_accessed(&[80, 22, 443, 3389, 22], &sensitive);
    assert_eq!(hits, vec![22, 3389, 22]);
    assert!(is_port_scan(&hits));
    assert!(!is_port_scan(&sensitive_ports_accessed(&[80, 22], &sensitive)));
}

#[test]
fn drift_is_reported_per_field() {
    let a = ConfigSnapshot {
        features_json: "{\"a\":1}".to_owned(),
        lineage_id: None,
        topology_configured: false,
        threshold_fingerprint: "sigma=2.50".to_owned(),
    };
    let b = ConfigSnapshot {
        features_json: "{\"a\":1}".to_owned(),
        lineage_id: Some("fam".to_owned()),
        topology_configured: true,
        threshold_fingerprint: "sigma=2.50".to_owned(),
    };
    assert!(a.diff(&a).is_empty());
    let d = a.diff(&b);
    assert_eq!(d.len(), 2);
    assert_eq!(d[0], ("lineage_id", "None".to_owned(), "Some(\"fam\")".to_owned()));
    assert_eq!(d[1], ("topology_configured", "false".to_owned(), "true".to_owned()));
    assert_eq!(drift_severity(d[0].0), Severity::High);
    assert_eq!(drift_severity(d[1].0), Severity::Medium);
}

#[test]
fn topology_path_and_lineage_parsing() {
    assert_eq!(parse_topology_path("1, 2,x,3"), Some(vec![1, 2, 3]));
    assert_eq!(parse_topology_path("x, 300"), None);
    assert_eq!(parse_topology_path(""), None);
    assert_eq!(lineage_id_from(Some("")), None);
    assert_eq!(lineage_id_from(Some("fam-1")), Some("fam-1".to_owned()));
    assert_eq!(data_dir_from(None), "./data");
}

#[test]
fn owned_networks_are_split_and_trimmed() {
    assert_eq!(split_trimmed(" a, b ,c", ','), vec!["a", "b", "c"]);
    assert_eq!(split_trimmed("", ','), vec![""]);
    let scope = NetworkScope::from_owned_networks(Some("10.0.0.0/8, 192.168.0.0/16"));
    assert_eq!(scope.owned_networks, vec!["10.0.0.0/8", "192.168.0.0/16"]);
}

#[test]
fn self_identity_fallbacks() {
    assert_eq!(LocalDiscovery::discover_self_id(None, 42, 100), "skunkbat-42-100");
    assert_eq!(LocalDiscovery::discover_self_id(Some("sb-1"), 42, 100), "sb-1");
    assert_eq!(LocalDiscovery::discover_self_address(None), "127.0.0.1");
}

#[test]
fn disabled_reconnaissance_scans_nothing() {
    let mut f = all_features();
    f.reconnaissance = false;
    let engine = ReconnaissanceEngine::new(&f, NetworkScope::default());
    let node = LocalDiscovery::local_node(None, None, 1, Timestamp::now());
    let scan = engine.scan_result(vec![node], Vec::new(), Timestamp::now());
    assert!(scan.nodes.is_empty());
    assert!(scan.scan_time.is_none());
}

#[test]
fn tarpc_socket_under_root() {
    assert_eq!(tarpc_socket_from_jsonrpc("/skunkbat.sock"), "/skunkbat.tarpc.sock");
}

#[test]
fn forwarding_severity_from_env_ignores_case() {
    assert_eq!(ForwardingConfig::from_env(None, None, Some("INFO")).min_severity, EventSeverity::Info);
    assert_eq!(ForwardingConfig::from_env(None, None, Some("Critical")).min_severity, EventSeverity::Error);
    assert_eq!(ForwardingConfig::from_env(None, None, Some("bogus")).min_severity, EventSeverity::Warn);
    let c = ForwardingConfig::from_env(Some("30"), Some("x"), None);
    assert_eq!(c.poll_interval, Duration::from_secs(30));
    assert_eq!(c.timeout, Duration::from_secs(5));
}

#[test]
fn forwarding_cursor_stops_at_failure() {
    let c = ForwardingConfig::default();
    let events = [
        (5, EventSeverity::Info),
        (6, EventSeverity::Warn),
        (7, EventSeverity::Error),
        (8, EventSeverity::Warn),
    ];
    assert_eq!(c.advance_cursor(4, &events, &[true, true, true]), 8);
    assert_eq!(c.advance_cursor(4, &events, &[true, false]), 6);
    assert_eq!(c.advance_cursor(4, &events, &[false]), 5);
    assert_eq!(c.advance_cursor(4, &[], &[]), 4);
    assert!(event_forwarded(Some(true), None));
    assert!(!event_forwarded(Some(true), Some(false)));
}

#[test]
fn federation_cursor_retries_failed_threat() {
    let events = [
        (1, EventSeverity::Info, true),
        (2, EventSeverity::Warn, false),
        (3, EventSeverity::Critical, true),
        (4, EventSeverity::Warn, true),
    ];
    assert_eq!(federation_cursor(0, &events, &[true, true]), 4);
    assert_eq!(federation_cursor(0, &events, &[false]), 2);
    assert!(is_broadcast(EventSeverity::Error, true));
    assert!(!is_broadcast(EventSeverity::Info, true));
}

#[test]
fn federation_client_connects_on_probe() {
    let mut client = FederationClient::new("10.0.0.1:5000", "node".to_owned(), 100);
    assert!(client.ensure_connected().is_err());
    client.connect(Err(RpcError::Io("refused".to_owned()))).unwrap();
    assert!(!client.is_connected());
    client.connect(Ok(())).unwrap();
    assert!(client.is_connected());
    assert!(client.ensure_connected().is_ok());
    let e = call_outcome(Err(RpcError::Timeout("late".to_owned())), "broadcast").unwrap_err();
    assert_eq!(e.message(), "integration error: broadcast: timeout: late");
}

#[test]
fn lineage_reply_outcomes() {
    assert_eq!(RemoteLineageVerifier::family_outcome(Ok(Some(true))), Ok(true));
    assert_eq!(RemoteLineageVerifier::family_outcome(Ok(None)), Ok(false));
    let e = RemoteLineageVerifier::family_outcome(Err(RpcError::Io("down".to_owned()))).unwrap_err();
    assert_eq!(e.message(), "integration error: lineage provider unreachable: io: down");
}

#[test]
fn discovery_degrades_to_self() {
    let client = DiscoveryClient::new("unreachable.invalid:9999", 100);
    let listing = DiscoveryClient::listing_outcome(Err(RpcError::Io("refused".to_owned())));
    let discovery = CapabilityPrimalDiscovery::new(client, "my-skunkbat".to_owned());
    let nodes = discovery.assemble_all(listing);
    assert_eq!(nodes.len(), 1);
    assert_eq!(nodes[0].id, "my-skunkbat");
    assert_eq!(nodes[0].node_type, "skunkBat");
    let local = DiscoveryClient::local_primal("/run/x.sock", None, None, vec![]);
    assert_eq!(local.service_id, "unknown");
    assert_eq!(local.version, "0.0.0");
}

#[test]
fn integrity_sweep_tally() {
    let addresses = vec!["a".to_owned(), "b".to_owned(), "c".to_owned(), "d".to_owned()];
    let replies = vec![
        Ok(Some("h1".to_owned())),
        Ok(Some(String::new())),
        Err(RpcError::Io("gone".to_owned())),
        Ok(None),
    ];
    let (result, errors) = tally_sweep(&addresses, &replies);
    assert_eq!(result.total_checked, 4);
    assert_eq!(result.violations_found, 2);
    assert_eq!(result.violation_addresses, vec!["b".to_owned(), "d".to_owned()]);
    assert_eq!(errors, 1);
    assert_eq!(ContentProtector::integrity_outcome(Ok(Some("h".to_owned())), "h"), Ok(true));
    assert_eq!(ContentProtector::integrity_outcome(Ok(None), "h"), Ok(false));
}

#[test]
fn transport_parsing() {
    assert_eq!(
        parse_tcp_host_port("http://10.0.0.1:9300"),
        Some(TransportEndpoint::Tcp { host: "10.0.0.1".to_owned(), port: 9300 })
    );
    assert_eq!(parse_tcp_host_port("10.0.0.1"), None);
    assert_eq!(parse_tcp_host_port(""), None);
    assert_eq!(transport_env_name("LINEAGE_ENDPOINT"), "LINEAGE_TRANSPORT");
    let uds = TransportEndpoint::Uds { path: "/run/x.sock".to_owned() };
    assert_eq!(dial_target(&uds), Ok(DialTarget::Unix("/run/x.sock".to_owned())));
    let mesh = TransportEndpoint::MeshRelay { peer_id: "p".to_owned(), capability: "c".to_owned() };
    assert!(dial_target(&mesh).is_err());
    assert_eq!(
        resolve_target(None, Some("bad"), "/run/provenance.sock", true),
        Some(TransportEndpoint::Uds { path: "/run/provenance.sock".to_owned() })
    );
}

#[test]
fn proc_accounting_parsing() {
    assert_eq!(read_total_forks("cpu 1 2\nprocesses 77\n"), 77);
    assert_eq!(read_total_forks("cpu 1 2\n"), 0);
    assert_eq!(parse_proc_uid("Name:\tx\nUid:\t1000\t1000\t1000\t1000\n"), Some(1000));
    assert_eq!(parse_proc_uid("Name:\tx\n"), None);
    assert_eq!(uid_fallback(Some(" 501\n")), 501);
    assert_eq!(uid_fallback(None), 1000);
}

#[test]
fn timestamp_debug_text_pads_nanos() {
    let ts = Timestamp { secs: 3, nanos: 5 };
    assert_eq!(ts.debug_text(), "Timestamp(3.000000005)");
}

#[test]
fn capability_client_timeout_is_milliseconds() {
    let c = CapabilityClient::new("127.0.0.1:9", 1500);
    assert_eq!(c.timeout(), std::time::Duration::from_millis(1500));
    let c = c.with_timeout(20);
    assert_eq!(c.timeout(), std::time::Duration::from_millis(20));
}

fn saved_record(source: &str, reason: &str, secs: u64) -> QuarantineRecord {
    QuarantineRecord {
        source: source.to_owned(),
        started_at: Timestamp { secs, nanos: 0 },
        reason: reason.to_owned(),
        threat_id: format!("t-{secs}"),
    }
}

#[test]
fn restore_keeps_the_last_record_per_source() {
    let mut engine = DefenseEngine::new(true);
    engine.quarantine("10.9.9.9", "live", "t-live");
    engine.restore(vec![
        saved_record("10.0.0.1", "first", 1),
        saved_record("10.0.0.2", "other", 2),
        saved_record("10.0.0.1", "second", 3),
    ]);
    assert_eq!(engine.quarantined_count(), 3);
    let r = engine.quarantine_record("10.0.0.1").expect("restored");
    assert_eq!(r.reason, "second");
    assert_eq!(r.started_at, Timestamp { secs: 3, nanos: 0 });
    assert_eq!(engine.quarantine_record("10.9.9.9").expect("kept").threat_id, "t-live");
}

#[test]
fn diff_is_empty_only_for_the_same_configuration() {
    let a = ConfigSnapshot {
        features_json: "{}".to_owned(),
        lineage_id: Some("fam".to_owned()),
        topology_configured: true,
        threshold_fingerprint: "sigma=2.50".to_owned(),
    };
    let same = ConfigSnapshot {
        features_json: "{}".to_owned(),
        lineage_id: Some("fam".to_owned()),
        topology_configured: true,
        threshold_fingerprint: "sigma=2.50".to_owned(),
    };
    assert!(a.diff(&same).is_empty());
    let other = ConfigSnapshot {
        features_json: "{}".to_owned(),
        lineage_id: None,
        topology_configured: true,
        threshold_fingerprint: "sigma=3.00".to_owned(),
    };
    let names: Vec<&str> = a.diff(&other).iter().map(|d| d.0).collect();
    assert_eq!(names, vec!["lineage_id", "thresholds"]);
}

#[test]
fn primal_core_advisory_health_and_dependencies() {
    let mut core = PrimalCore::new(&all_features(), NetworkScope::default(), 16, false);
    core.start(Ok(())).unwrap();
    core.quarantine("10.0.0.5", "port scan", "t-1");
    let m0 = core.get_security_metrics();
    let blocked = core.advisory_check_http("10.0.0.5", Some(3));
    assert_eq!(blocked.verdict, Verdict::Block);
    assert_eq!(blocked.reason, "source is quarantined");
    assert_eq!(blocked.threat_ids, vec!["t-1".to_owned()]);
    let after = core.get_security_metrics().http;
    assert_eq!(after.requests_screened, m0.http.requests_screened);
    assert_eq!(after.allows, m0.http.allows);
    assert_eq!(after.warns, m0.http.warns);
    assert_eq!(after.blocks, m0.http.blocks);

    let warned = core.advisory_check_http("10.0.0.6", Some(2));
    assert_eq!(warned.verdict, Verdict::Warn);
    assert!(warned.threat_ids.is_empty());
    let m1 = core.get_security_metrics();
    assert_eq!(m1.http.requests_screened, m0.http.requests_screened + 1);
    assert_eq!(m1.http.warns, m0.http.warns + 1);

    match core.health_status(false) {
        HealthStatus::Degraded { reason } => {
            assert_eq!(reason, "recon:true detector:false defense:true observer:true");
        }
        other => panic!("unexpected {other:?}"),
    }
    let deps = core.dependency_health();
    assert_eq!(deps[0].name, "lineage-verifier");
    assert_eq!(deps[0].dependency_type, "capability");
    match &deps[0].status {
        HealthStatus::Unhealthy { reason } => assert_eq!(reason, "no lineage_id configured"),
        other => panic!("unexpected {other:?}"),
    }
    assert_eq!(deps[1].name, "security-observer");
    assert!(deps[1].status.is_healthy());
    core.stop(Ok(())).unwrap();
    match core.health_status(true) {
        HealthStatus::Unhealthy { reason } => assert_eq!(reason, "state: stopped"),
        other => panic!("unexpected {other:?}"),
    }
}
