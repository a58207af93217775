use skunk_bat::integrations::beardog::RemoteLineageVerifier;
use skunk_bat::integrations::forwarding::{ForwardingConfig, MIN_FORWARD_SEVERITY};
use skunk_bat::integrations::nestgate::ContentProtector;
use skunk_bat::integrations::rpc::{capability_socket, socket_dir_from, DEFAULT_INTEGRATION_TIMEOUT_MS};
use skunk_bat::integrations::runtime_verifier::RuntimeVerifier;
use skunk_bat::integrations::toadstool::{CapabilityPrimalDiscovery, DiscoveryClient};
use skunk_bat::observability::audit_log::EventSeverity;
use skunk_bat::tarpc_service::tarpc_socket_from_jsonrpc;
use std::path::PathBuf;
use std::time::Duration;

#[test]
fn tarpc_socket_from_jsonrpc_standalone() {
    let tarpc = tarpc_socket_from_jsonrpc("/run/user/1000/biomeos/skunkbat.sock");
    assert_eq!(
        PathBuf::from(tarpc),
        PathBuf::from("/run/user/1000/biomeos/skunkbat.tarpc.sock")
    );
}

#[test]
fn tarpc_socket_from_jsonrpc_family() {
    let tarpc = tarpc_socket_from_jsonrpc("/run/user/1000/biomeos/skunkbat-mygate.sock");
    assert_eq!(
        PathBuf::from(tarpc),
        PathBuf::from("/run/user/1000/biomeos/skunkbat-mygate.tarpc.sock")
    );
}

#[test]
fn tarpc_socket_from_bare_filename() {
    let tarpc = tarpc_socket_from_jsonrpc("skunkbat.sock");
    assert_eq!(PathBuf::from(tarpc), PathBuf::from("skunkbat.tarpc.sock"));
}

#[test]
fn test_construction() {
    let verifier = RemoteLineageVerifier::new("10.0.0.1:9300", DEFAULT_INTEGRATION_TIMEOUT_MS);
    assert_eq!(verifier.tcp_endpoint().as_deref(), Some("10.0.0.1:9300"));
}

#[test]
fn beardog_test_from_env_construction() {
    // Nothing configured and no capability socket present.
    let verifier = RemoteLineageVerifier::from_env(
        None,
        None,
        "/run/user/1000/biomeos/lineage-verification.sock",
        false,
        None,
    );
    let _ = verifier.tcp_endpoint();
}

#[test]
fn test_builder() {
    let verifier = RemoteLineageVerifier::new("", DEFAULT_INTEGRATION_TIMEOUT_MS).with_timeout(1000);
    assert!(verifier.tcp_endpoint().is_none());
}

#[test]
fn default_config() {
    let config = ForwardingConfig::default();
    assert_eq!(config.poll_interval, Duration::from_secs(10));
    assert!(config.dag_enabled);
    assert!(config.braid_enabled);
    assert_eq!(config.min_severity, EventSeverity::Warn);
}

#[test]
fn config_with_custom_values() {
    let config = ForwardingConfig {
        poll_interval: Duration::from_secs(30),
        timeout: Duration::from_secs(5),
        dag_enabled: false,
        braid_enabled: true,
        min_severity: EventSeverity::Critical,
    };
    assert_eq!(config.poll_interval, Duration::from_secs(30));
    assert!(!config.dag_enabled);
    assert_eq!(config.min_severity, EventSeverity::Critical);
}

#[test]
fn min_forward_severity_is_warn() {
    assert_eq!(MIN_FORWARD_SEVERITY, EventSeverity::Warn);
}

#[test]
fn config_default_timeout() {
    let config = ForwardingConfig::default();
    assert_eq!(config.timeout, Duration::from_secs(5));
}

#[test]
fn forwarding_tests_from_env_defaults_when_unset() {
    let config = ForwardingConfig::from_env(None, None, None);
    assert_eq!(config.poll_interval, Duration::from_secs(10));
    assert_eq!(config.timeout, Duration::from_secs(5));
    assert_eq!(config.min_severity, MIN_FORWARD_SEVERITY);
}

#[test]
fn from_env_construction() {
    // The content socket is used only if it exists on this host.
    let protector = ContentProtector::from_env(None, "/run/user/1000/biomeos/content.sock", false);
    let _ = protector.uds_path();
}

#[test]
fn new_with_endpoint() {
    let protector = ContentProtector::new("127.0.0.1:9500".to_owned());
    assert_eq!(protector.tcp_endpoint(), Some("127.0.0.1:9500"));
    assert!(protector.uds_path().is_none());
}

#[test]
fn test_capability_socket_path() {
    let dir = socket_dir_from(None, None, 1000);
    let path = capability_socket(&dir, "discovery");
    assert!(path.ends_with("discovery.sock"));
}

#[test]
fn test_client_builder() {
    let client = DiscoveryClient::new("host:1234", DEFAULT_INTEGRATION_TIMEOUT_MS).with_timeout(5000);
    assert_eq!(client.endpoint(), "host:1234");
}

#[test]
fn test_client_tcp_endpoint_empty() {
    let client = DiscoveryClient::new("", DEFAULT_INTEGRATION_TIMEOUT_MS);
    assert!(client.tcp_endpoint().is_none());
}

#[test]
fn test_client_tcp_endpoint_present() {
    let client = DiscoveryClient::new("10.0.0.1:3000", DEFAULT_INTEGRATION_TIMEOUT_MS);
    assert_eq!(client.tcp_endpoint().as_deref(), Some("10.0.0.1:3000"));
}

#[test]
fn toadstool_test_from_env_construction() {
    let client = DiscoveryClient::from_env(
        None,
        None,
        "/run/user/1000/biomeos/discovery.sock",
        false,
        None,
    );
    let _ = client.endpoint();
}

#[test]
fn test_convert_to_nodes_empty() {
    let nodes = CapabilityPrimalDiscovery::convert_to_nodes(Vec::new());
    assert!(nodes.is_empty());
}

#[test]
fn from_env_without_provider_selects_local() {
    let verifier = RuntimeVerifier::from_env(
        None,
        None,
        "/run/user/1000/biomeos/lineage-verification.sock",
        false,
        None,
    );
    assert!(matches!(verifier, RuntimeVerifier::Local(_)));
}
