use skunk_bat::universal_adapter::{Capability, LocalUniversalAdapter};

fn announcement(id: &str, caps: &[&str], endpoint: &str) -> Capability {
    Capability {
        primal_id: id.into(),
        capabilities: caps.iter().map(|c| (*c).to_owned()).collect(),
        endpoint: endpoint.into(),
        metadata: Vec::new(),
    }
}

#[test]
fn test_announce_and_discover() {
    let mut adapter = LocalUniversalAdapter::new();
    adapter
        .announce(announcement("skunkbat-01", &["threat-detection", "reconnaissance"], "http://127.0.0.1:8000"))
        .unwrap();
    adapter
        .announce(announcement("beardog-01", &["lineage-verification", "genetic-trust"], "http://127.0.0.1:8001"))
        .unwrap();

    let verifiers = adapter.discover_capability("lineage-verification").unwrap();
    assert_eq!(verifiers.len(), 1);
    assert_eq!(verifiers[0].id, "beardog-01");

    let detectors = adapter.discover_capability("threat-detection").unwrap();
    assert_eq!(detectors.len(), 1);
    assert_eq!(detectors[0].id, "skunkbat-01");
}

#[test]
fn test_multiple_providers() {
    let mut adapter = LocalUniversalAdapter::new();
    adapter.announce(announcement("skunkbat-01", &["threat-detection"], "http://127.0.0.1:8000")).unwrap();
    adapter.announce(announcement("skunkbat-02", &["threat-detection"], "http://127.0.0.1:8001")).unwrap();

    let detectors = adapter.discover_capability("threat-detection").unwrap();
    assert_eq!(detectors.len(), 2);
}

#[test]
fn test_re_announce_updates() {
    let mut adapter = LocalUniversalAdapter::new();
    adapter.announce(announcement("skunkbat-01", &["threat-detection"], "http://127.0.0.1:8000")).unwrap();
    adapter
        .announce(announcement("skunkbat-01", &["threat-detection", "reconnaissance"], "http://127.0.0.1:8000"))
        .unwrap();

    let primals = adapter.discover_all().unwrap();
    assert_eq!(primals.len(), 1);
    assert_eq!(primals[0].capabilities.len(), 2);
}

#[test]
fn test_remove_primal() {
    let mut adapter = LocalUniversalAdapter::new();
    adapter.announce(announcement("skunkbat-01", &["threat-detection"], "http://127.0.0.1:8000")).unwrap();

    adapter.remove("skunkbat-01").unwrap();

    let detectors = adapter.discover_capability("threat-detection").unwrap();
    assert_eq!(detectors.len(), 0);
}

#[test]
fn test_zero_knowledge_discovery() {
    let mut adapter = LocalUniversalAdapter::new();
    adapter.announce(announcement("primal-a", &["capability-x"], "http://a.local")).unwrap();
    adapter.announce(announcement("primal-b", &["capability-y"], "http://b.local")).unwrap();

    let providers = adapter.discover_capability("capability-x").unwrap();
    assert_eq!(providers.len(), 1);
}

#[test]
fn test_adapter_stats() {
    let mut adapter = LocalUniversalAdapter::new();
    adapter.announce(announcement("primal-1", &["cap-a", "cap-b"], "http://1.local")).unwrap();
    adapter.announce(announcement("primal-2", &["cap-c"], "http://2.local")).unwrap();

    let counts = adapter.counts();
    assert_eq!(counts.total_primals, 2);
    assert_eq!(counts.total_capabilities, 3);
    let per_primal = counts.capability_entries as f64 / counts.total_primals as f64;
    assert!((per_primal - 1.5).abs() < 0.01);
}

#[test]
fn reannounce_replaces_capabilities() {
    let mut adapter = LocalUniversalAdapter::new();
    adapter.announce(announcement("p-1", &["cap-a", "cap-b"], "http://old")).unwrap();
    adapter.announce(announcement("p-2", &["cap-a"], "http://two")).unwrap();
    adapter.announce(announcement("p-1", &["cap-c"], "http://new")).unwrap();

    let all = adapter.discover_all().unwrap();
    assert_eq!(all.len(), 2);
    assert_eq!(all.iter().filter(|p| p.id == "p-1").count(), 1);
    let p1 = all.iter().find(|p| p.id == "p-1").unwrap();
    assert_eq!(p1.endpoint, "http://new");
    assert!(adapter.discover_capability("cap-a").unwrap().iter().all(|p| p.id != "p-1"));
    assert!(adapter.discover_capability("cap-b").unwrap().is_empty());
    assert_eq!(adapter.discover_capability("cap-c").unwrap()[0].id, "p-1");
    assert_eq!(adapter.discover_capability("cap-a").unwrap()[0].id, "p-2");
}
