use skunk_bat::error::SkunkBatError;
use skunk_bat::integrations::rpc::{RpcError, DEFAULT_INTEGRATION_TIMEOUT_MS};
use skunk_bat::integrations::songbird::{call_outcome, FederationClient, FederationThreatBroadcaster};

fn client(endpoint: &str, node: &str) -> FederationClient {
    FederationClient::new(endpoint, node.to_owned(), DEFAULT_INTEGRATION_TIMEOUT_MS)
}

#[test]
fn test_threat_conversion() {
    let broadcaster = FederationThreatBroadcaster::new(client("", "my-skunkbat"));
    let intel = broadcaster.create_intel("ResourceExhaustion", "attacker-node", "Critical", "DoS attack detected");
    assert_eq!(intel.source_node, "my-skunkbat");
    assert_eq!(intel.threat_source, "attacker-node");
    assert!(intel.threat_type.contains("ResourceExhaustion"));
}

#[test]
fn test_broadcast_without_connect() {
    let c = client("", "skunkbat");
    let result = c.ensure_connected();
    assert!(result.is_err(), "Should error when not connected");
}

#[test]
fn test_subscribe_without_connect() {
    let c = client("", "skunkbat");
    match c.ensure_connected() {
        Err(SkunkBatError::Integration(m)) => assert_eq!(m, "Not connected to federation provider"),
        other => panic!("unexpected: {other:?}"),
    }
}

#[test]
fn test_is_connected_default() {
    let c = client("127.0.0.1:1", "test");
    assert!(!c.is_connected());
}

#[test]
fn test_broadcaster_is_connected() {
    let broadcaster = FederationThreatBroadcaster::new(client("", "test"));
    assert!(!broadcaster.client().is_connected());
}

#[test]
fn test_broadcast_error_propagation() {
    let reply: Result<(), RpcError> = Err(RpcError::Io("connection refused".to_owned()));
    let result = call_outcome(reply, "broadcast failed");
    assert!(result.is_err(), "Should propagate RPC failure to caller");
}
