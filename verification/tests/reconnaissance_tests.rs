use skunk_bat::primal_foundation::types::Timestamp;
use skunk_bat::reconnaissance::{
    Connection, ConnectionStatus, LocalDiscovery, NetworkScan, NetworkScope, Node, NodeStatus,
};
use skunk_bat::PRIMAL_NAME;

fn local_node() -> Node {
    // No identity or address given to the process.
    LocalDiscovery::local_node(None, None, 4242, Timestamp::now())
}

#[test]
fn local_node_has_self_knowledge() {
    let node = local_node();
    assert_eq!(node.node_type, PRIMAL_NAME);
    assert!(matches!(node.status, NodeStatus::Healthy));
    assert!(!node.capabilities.is_empty());
    assert!(node.last_seen.is_some());
}

#[test]
fn local_node_address_has_fallback() {
    let node = local_node();
    assert!(!node.address.is_empty());
}

#[test]
fn local_node_id_is_unique() {
    let n1 = local_node();
    let n2 = local_node();
    assert!(!n1.id.is_empty());
    assert!(!n2.id.is_empty());
}

#[test]
fn test_network_scope_default() {
    let scope = NetworkScope::default();
    assert!(scope.owned_networks.is_empty());
    assert!(scope.managed_systems.is_empty());
    assert!(scope.excluded.is_empty());
}

#[test]
fn test_node_creation() {
    let node = Node {
        id: "test-node".to_string(),
        address: "192.168.1.1".to_string(),
        node_type: "testPrimal".to_string(),
        status: NodeStatus::Healthy,
        capabilities: vec!["test".to_string()],
        last_seen: Some(Timestamp::now()),
    };
    assert_eq!(node.id, "test-node");
    assert!(matches!(node.status, NodeStatus::Healthy));
}

#[test]
fn test_connection_creation() {
    let conn = Connection {
        from: "node1".to_string(),
        to: "node2".to_string(),
        protocol: "http".to_string(),
        status: ConnectionStatus::Active,
    };
    assert_eq!(conn.from, "node1");
    assert!(matches!(conn.status, ConnectionStatus::Active));
}

#[test]
fn test_local_discovery_self_knowledge() {
    let node = local_node();
    assert_eq!(node.node_type, "skunkBat");
    assert!(matches!(node.status, NodeStatus::Healthy));
    assert!(node.capabilities.contains(&"reconnaissance".to_string()));
}

#[test]
fn test_node_status_variants() {
    assert!(matches!(NodeStatus::Healthy, NodeStatus::Healthy));
    assert!(matches!(NodeStatus::Degraded, NodeStatus::Degraded));
    assert!(matches!(NodeStatus::Unhealthy, NodeStatus::Unhealthy));
    assert!(matches!(NodeStatus::Unknown, NodeStatus::Unknown));
}

#[test]
fn test_connection_status_variants() {
    assert!(matches!(ConnectionStatus::Active, ConnectionStatus::Active));
    assert!(matches!(ConnectionStatus::Idle, ConnectionStatus::Idle));
    assert!(matches!(ConnectionStatus::Closed, ConnectionStatus::Closed));
}

#[test]
fn test_network_scan_default() {
    let scan = NetworkScan::default();
    assert!(scan.nodes.is_empty());
    assert!(scan.topology.is_empty());
    assert!(scan.scan_time.is_none());
}

#[test]
fn network_scan_default() {
    let scan = NetworkScan::default();
    assert!(scan.nodes.is_empty());
    assert!(scan.topology.is_empty());
    assert!(scan.scan_time.is_none());
}

#[test]
fn network_scope_default() {
    let scope = NetworkScope::default();
    assert!(scope.managed_systems.is_empty());
    assert!(scope.excluded.is_empty());
}

fn recon_features(enabled: bool) -> skunk_bat::config::FeatureFlags {
    skunk_bat::config::FeatureFlags {
        reconnaissance: enabled,
        threat_detection: true,
        auto_defense: true,
        observability: true,
    }
}

fn scan_with(engine: &skunk_bat::reconnaissance::ReconnaissanceEngine) -> NetworkScan {
    let nodes = vec![local_node()];
    let topology = skunk_bat::reconnaissance::SimpleTopologyMapper.map_connections(&nodes);
    engine.scan_result(nodes, topology, Timestamp::now())
}

#[test]
fn test_network_scan() {
    let engine = skunk_bat::reconnaissance::ReconnaissanceEngine::new(&recon_features(true), NetworkScope::default());
    let scan = scan_with(&engine);
    assert!(!scan.nodes.is_empty(), "Should discover at least local node");
    assert!(scan.scan_time.is_some());
}

#[test]
fn test_disabled_reconnaissance() {
    let engine = skunk_bat::reconnaissance::ReconnaissanceEngine::new(&recon_features(false), NetworkScope::default());
    assert!(!engine.is_healthy());
    let scan = scan_with(&engine);
    assert_eq!(scan.nodes.len(), 0);
}

#[test]
fn test_simple_topology_mapper() {
    let mapper = skunk_bat::reconnaissance::SimpleTopologyMapper;
    let connections = mapper.map_connections(&[]);
    assert!(connections.is_empty());
}

#[test]
fn test_local_discovery_by_capability() {
    // Local discovery knows only itself, whatever the capability asked for.
    let nodes = vec![local_node()];
    assert_eq!(nodes.len(), 1);
    assert_eq!(nodes[0].node_type, "skunkBat");
    assert!(nodes[0].capabilities.contains(&"reconnaissance".to_string()));
}
