//! Capability-based integration layer: transport endpoints and the clients
//! that reach lineage verification, federation, discovery, provenance and
//! content providers at runtime.

pub mod beardog;
pub mod forwarding;
pub mod nestgate;
pub mod rpc;
pub mod songbird;
pub mod toadstool;
pub mod runtime_verifier;
