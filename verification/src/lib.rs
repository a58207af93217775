//! skunkBat — reconnaissance and automated defense for sovereign computing.
//!
//! The library holds the decision logic of the primal: the audit trail, the
//! quarantine registry and defense decisions, gossip-entry screening, the
//! capability registry, topology validation, configuration drift, health and
//! lifecycle state, and the transport-endpoint parsing used by the
//! capability clients. Network I/O, file persistence and statistics over
//! floating-point telemetry live outside the library.

pub mod clock;
pub mod config;
pub mod env_keys;
pub mod reconnaissance;
pub mod tarpc_service;
pub mod defense;
pub mod error;
pub mod gossip_analysis;
pub mod integrations;
pub mod threats;
pub mod universal_adapter;
pub mod observability;
pub mod platform;
pub mod primal;
pub mod primal_foundation;
pub mod text;

pub use primal::AdvisoryVerdict;
use vstd::prelude::*;

verus! {

/// Primal self-knowledge: display name.
pub const PRIMAL_NAME: &'static str = "skunkBat";

/// Binary/IPC name (lowercase, no punctuation).
pub const PRIMAL_ID: &'static str = "skunkbat";

/// Default TCP port for JSON-RPC (fallback only).
pub const DEFAULT_PORT: u16 = 9750;

/// Security advisory verdict level.
#[derive(Debug, Clone, Copy, PartialEq, Eq, Structural)]
pub enum Verdict {
    /// No security concern — route normally.
    Allow,
    /// Suspicious but not blocked — log and proceed with caution.
    Warn,
    /// Quarantined or actively hostile — recommend rejection.
    Block,
}

} // verus!
