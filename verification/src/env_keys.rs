//! Environment variable names read by the skunkBat process.

use vstd::prelude::*;

verus! {

/// Directory for `BiomeOS` Unix domain sockets (production deployments).
pub const BIOMEOS_SOCKET_DIR: &'static str = "BIOMEOS_SOCKET_DIR";

/// XDG Base Directory runtime path (typically `/run/user/{uid}`).
pub const XDG_RUNTIME_DIR: &'static str = "XDG_RUNTIME_DIR";

/// Development mode flag (`1` disables production BTSP constraints).
pub const BIOMEOS_INSECURE: &'static str = "BIOMEOS_INSECURE";

/// Family identifier for BTSP socket naming and handshake scoping.
pub const FAMILY_ID: &'static str = "FAMILY_ID";

/// Family seed for BTSP key derivation and session creation.
pub const FAMILY_SEED: &'static str = "FAMILY_SEED";

/// Explicit path to the BTSP security provider UDS socket.
pub const BTSP_PROVIDER_SOCKET: &'static str = "BTSP_PROVIDER_SOCKET";

/// BTSP capability name for provider socket resolution.
pub const BTSP_PROVIDER: &'static str = "BTSP_PROVIDER";

/// Explicit override path for the biomeOS Neural API socket.
pub const NEURAL_API_SOCKET: &'static str = "NEURAL_API_SOCKET";

/// TCP endpoint override for capability-based discovery.
pub const DISCOVERY_ENDPOINT: &'static str = "DISCOVERY_ENDPOINT";

/// TCP endpoint override for federation broadcast.
pub const FEDERATION_ENDPOINT: &'static str = "FEDERATION_ENDPOINT";

/// TCP endpoint override for genetic lineage verification.
pub const LINEAGE_ENDPOINT: &'static str = "LINEAGE_ENDPOINT";

/// skunkBat instance identifier (defaults to [`crate::PRIMAL_ID`]).
pub const SKUNKBAT_ID: &'static str = "SKUNKBAT_ID";

/// skunkBat network listen/bind address.
pub const SKUNKBAT_ADDRESS: &'static str = "SKUNKBAT_ADDRESS";

/// skunkBat JSON-RPC TCP port.
pub const SKUNKBAT_PORT: &'static str = "SKUNKBAT_PORT";

/// skunkBat JSON-RPC TCP listen address.
pub const SKUNKBAT_LISTEN_ADDR: &'static str = "SKUNKBAT_LISTEN_ADDR";

/// Comma-separated list of networks owned by this deployment.
pub const SKUNKBAT_OWNED_NETWORKS: &'static str = "SKUNKBAT_OWNED_NETWORKS";

/// IPC method-gate enforcement mode (`enforced` / `permissive`).
pub const SKUNKBAT_AUTH_MODE: &'static str = "SKUNKBAT_AUTH_MODE";

/// Launcher-injected transport endpoint (JSON, sourDough-compatible).
///
/// Format: `{"transport":"uds","path":"/run/membrane/beardog.sock"}`
/// or `{"transport":"tcp","host":"127.0.0.1","port":9100}`.
/// When set, overrides per-capability endpoint env vars.
pub const TRANSPORT_ENDPOINT: &'static str = "TRANSPORT_ENDPOINT";

/// Primal bind mode — standard startup contract.
///
/// - Unset or `uds-only`: UDS only, no TCP (zero-port standard, default).
/// - `tcp-only` / `tcp_only`: TCP only, no UDS (Android/grapheneGate `SELinux`).
/// - `fallback`: UDS + TCP (debug/standalone/both-transport environments).
pub const PRIMAL_BIND_MODE: &'static str = "PRIMAL_BIND_MODE";

/// `TransportEndpoint` JSON for lineage-verification capability.
pub const LINEAGE_TRANSPORT: &'static str = "LINEAGE_TRANSPORT";

/// `TransportEndpoint` JSON for federation capability.
pub const FEDERATION_TRANSPORT: &'static str = "FEDERATION_TRANSPORT";

/// `TransportEndpoint` JSON for discovery capability.
pub const DISCOVERY_TRANSPORT: &'static str = "DISCOVERY_TRANSPORT";

/// `TransportEndpoint` JSON for rhizoCrypt provenance forwarding.
pub const RHIZOCRYPT_TRANSPORT: &'static str = "RHIZOCRYPT_TRANSPORT";

/// `TransportEndpoint` JSON for sweetGrass attribution forwarding.
pub const SWEETGRASS_TRANSPORT: &'static str = "SWEETGRASS_TRANSPORT";

/// TCP endpoint override for rhizoCrypt provenance forwarding.
pub const RHIZOCRYPT_ENDPOINT: &'static str = "RHIZOCRYPT_ENDPOINT";

/// TCP endpoint override for sweetGrass attribution forwarding.
pub const SWEETGRASS_ENDPOINT: &'static str = "SWEETGRASS_ENDPOINT";

/// TCP endpoint override for `NestGate` content integrity.
pub const NESTGATE_ENDPOINT: &'static str = "NESTGATE_ENDPOINT";

/// Explicit path to the discovery service UDS socket.
pub const DISCOVERY_SOCKET: &'static str = "DISCOVERY_SOCKET";

/// Explicit path to the `SongBird` discovery/federation socket.
pub const SONGBIRD_SOCKET: &'static str = "SONGBIRD_SOCKET";

/// Session TTL in seconds (default: 3600).
pub const SKUNKBAT_SESSION_TTL: &'static str = "SKUNKBAT_SESSION_TTL";

/// Session sweep interval in seconds (default: 300).
pub const SKUNKBAT_SESSION_SWEEP: &'static str = "SKUNKBAT_SESSION_SWEEP";

/// Audit forwarding poll interval in seconds (default: 10).
pub const SKUNKBAT_FORWARD_INTERVAL: &'static str = "SKUNKBAT_FORWARD_INTERVAL";

/// Audit forwarding RPC timeout in seconds (default: 5).
pub const SKUNKBAT_FORWARD_TIMEOUT: &'static str = "SKUNKBAT_FORWARD_TIMEOUT";

/// Minimum severity for audit forwarding: `info`, `warn`, `error` (default: `warn`).
pub const SKUNKBAT_FORWARD_MIN_SEVERITY: &'static str = "SKUNKBAT_FORWARD_MIN_SEVERITY";

/// Registration RPC timeout in seconds (default: 3).
pub const SKUNKBAT_REGISTRATION_TIMEOUT: &'static str = "SKUNKBAT_REGISTRATION_TIMEOUT";

/// Lineage ID for genetic verification (enables `BearDog` integration).
pub const SKUNKBAT_LINEAGE_ID: &'static str = "SKUNKBAT_LINEAGE_ID";

/// Expected topology path as comma-separated layer bytes (e.g. `1,2,3`).
pub const SKUNKBAT_TOPOLOGY_PATH: &'static str = "SKUNKBAT_TOPOLOGY_PATH";

/// Integration RPC timeout in milliseconds (default: 3000).
pub const SKUNKBAT_INTEGRATION_TIMEOUT_MS: &'static str = "SKUNKBAT_INTEGRATION_TIMEOUT_MS";

} // verus!
