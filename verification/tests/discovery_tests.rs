use skunk_bat::integrations::rpc::{RpcError, DEFAULT_INTEGRATION_TIMEOUT_MS};
use skunk_bat::integrations::toadstool::{CapabilityPrimalDiscovery, DiscoveryClient};

fn unreachable_client() -> DiscoveryClient {
    DiscoveryClient::new("unreachable.invalid:9999", DEFAULT_INTEGRATION_TIMEOUT_MS)
}

fn unreachable_listing() -> Result<Result<Vec<skunk_bat::integrations::toadstool::DiscoveredPrimal>, String>, RpcError> {
    Err(RpcError::Io("connection refused".to_owned()))
}

#[test]
fn test_self_knowledge_principle() {
    let discovery = CapabilityPrimalDiscovery::new(unreachable_client(), "my-skunkbat".into());
    let listing = DiscoveryClient::listing_outcome(unreachable_listing());
    let nodes = discovery.assemble_all(listing);
    assert!(!nodes.is_empty());
    let self_node = &nodes[0];
    assert_eq!(self_node.id, "my-skunkbat");
    assert_eq!(self_node.node_type, "skunkBat");
    assert!(self_node.capabilities.contains(&"reconnaissance".to_string()));
}

#[test]
fn test_graceful_degradation() {
    let discovery = CapabilityPrimalDiscovery::new(unreachable_client(), "skunkbat".into());
    let listing = DiscoveryClient::listing_outcome(unreachable_listing());
    assert!(listing.is_ok(), "Should gracefully degrade");
    let nodes = discovery.assemble_all(listing);
    assert_eq!(nodes.len(), 1, "Should have self node");
}

#[test]
fn test_discover_by_capability_degradation() {
    let result = DiscoveryClient::listing_outcome(unreachable_listing());
    assert!(result.is_ok());
    assert!(result.expect("ok").is_empty());
}

#[test]
fn test_capability_discovery_by_cap_graceful() {
    let listing = DiscoveryClient::listing_outcome(unreachable_listing());
    let nodes = CapabilityPrimalDiscovery::by_capability_outcome(listing).expect("graceful");
    assert!(nodes.is_empty());
}
