//! Threat detection: shared types, topology validation, lineage defaults and
//! configuration drift.

pub mod detection;
pub mod genetic;
pub mod types;
pub mod window;

pub use genetic::{LayerTopologyValidator, LocalLineageVerifier};
pub use types::{PathValidation, Severity};
