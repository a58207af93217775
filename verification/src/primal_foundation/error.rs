//! Common errors that any primal might encounter.

use crate::text;
use vstd::prelude::*;

verus! {

/// std's I/O error, carried through opaquely.
#[verifier::external_type_specification]
#[verifier::external_body]
pub struct ExIoError(std::io::Error);

/// Result type for primal operations.
pub type PrimalResult<T> = Result<T, PrimalError>;

/// Common errors that any primal might encounter.
#[derive(Debug)]
pub enum PrimalError {
    /// Configuration error.
    Config(String),
    /// Identity/signing error.
    Identity(String),
    /// Discovery/registration error.
    Discovery(String),
    /// Lifecycle error (start/stop/reload).
    Lifecycle(String),
    /// Health check error.
    Health(String),
    /// I/O error.
    Io(std::io::Error),
    /// Serialization error.
    Serialization(String),
    /// Network error.
    Network(String),
    /// Storage error.
    Storage(String),
    /// Timeout.
    Timeout(String),
    /// Operation cancelled.
    Cancelled(String),
    /// Resource not found.
    NotFound(String),
    /// Already exists.
    AlreadyExists(String),
    /// Permission denied.
    PermissionDenied(String),
    /// Invalid input.
    InvalidInput(String),
    /// Internal error.
    Internal(String),
    /// Dependency error (upstream service failed).
    Dependency {
        /// Name of the dependency that failed.
        service: String,
        /// Error message.
        message: String,
    },
    /// Custom domain-specific error.
    Domain {
        /// Domain/primal name.
        domain: String,
        /// Error message.
        message: String,
    },
}

/// Calls `ToString::to_string` on an I/O error (its `Display` text).
/// The text comes from the operating system, so nothing is claimed of it.
#[verifier::external_body]
fn io_error_text(e: &std::io::Error) -> String {
    e.to_string()
}

impl From<std::io::Error> for PrimalError {
    fn from(e: std::io::Error) -> (r: Self) {
        PrimalError::Io(e)
    }
}

impl vstd::std_specs::convert::FromSpecImpl<std::io::Error> for PrimalError {
    open spec fn obeys_from_spec() -> bool {
        true
    }

    open spec fn from_spec(v: std::io::Error) -> Self {
        PrimalError::Io(v)
    }
}

impl PrimalError {
    /// Create a configuration error.
    pub fn config(msg: &str) -> (e: Self)
        ensures
            e matches PrimalError::Config(m) && m@ == msg@,
    {
        PrimalError::Config(text::owned(msg))
    }

    /// Create an identity error.
    pub fn identity(msg: &str) -> (e: Self)
        ensures
            e matches PrimalError::Identity(m) && m@ == msg@,
    {
        PrimalError::Identity(text::owned(msg))
    }

    /// Create a discovery error.
    pub fn discovery(msg: &str) -> (e: Self)
        ensures
            e matches PrimalError::Discovery(m) && m@ == msg@,
    {
        PrimalError::Discovery(text::owned(msg))
    }

    /// Create a lifecycle error.
    pub fn lifecycle(msg: &str) -> (e: Self)
        ensures
            e matches PrimalError::Lifecycle(m) && m@ == msg@,
    {
        PrimalError::Lifecycle(text::owned(msg))
    }

    /// Create a dependency error.
    pub fn dependency(service: &str, msg: &str) -> (e: Self)
        ensures
            e matches PrimalError::Dependency { service: s, message: m } && s@ == service@ && m@
                == msg@,
    {
        PrimalError::Dependency { service: text::owned(service), message: text::owned(msg) }
    }

    /// Create a domain-specific error.
    pub fn domain(domain: &str, msg: &str) -> (e: Self)
        ensures
            e matches PrimalError::Domain { domain: d, message: m } && d@ == domain@ && m@
                == msg@,
    {
        PrimalError::Domain { domain: text::owned(domain), message: text::owned(msg) }
    }

    /// Whether the error is retryable: network, timeout and dependency errors are.
    pub open spec fn spec_is_retryable(&self) -> bool {
        self is Network || self is Timeout || self is Dependency
    }

    /// Check if this is a retryable error.
    pub fn is_retryable(&self) -> (r: bool)
        ensures
            r == self.spec_is_retryable(),
    {
        match self {
            PrimalError::Network(_) | PrimalError::Timeout(_) | PrimalError::Dependency { .. } => true,
            _ => false,
        }
    }

    /// The human-readable message of the error (its display text).
    /// For `Io` the operating system's text follows the prefix.
    pub fn message(&self) -> (r: String)
        ensures
            self matches PrimalError::Config(m) ==> r@ == "configuration error: "@ + m@,
            self matches PrimalError::Identity(m) ==> r@ == "identity error: "@ + m@,
            self matches PrimalError::Discovery(m) ==> r@ == "discovery error: "@ + m@,
            self matches PrimalError::Lifecycle(m) ==> r@ == "lifecycle error: "@ + m@,
            self matches PrimalError::Health(m) ==> r@ == "health error: "@ + m@,
            self matches PrimalError::Io(_) ==> text::has_prefix(r@, "I/O error: "@),
            self matches PrimalError::Serialization(m) ==> r@ == "serialization error: "@ + m@,
            self matches PrimalError::Network(m) ==> r@ == "network error: "@ + m@,
            self matches PrimalError::Storage(m) ==> r@ == "storage error: "@ + m@,
            self matches PrimalError::Timeout(m) ==> r@ == "operation timed out: "@ + m@,
            self matches PrimalError::Cancelled(m) ==> r@ == "operation cancelled: "@ + m@,
            self matches PrimalError::NotFound(m) ==> r@ == "not found: "@ + m@,
            self matches PrimalError::AlreadyExists(m) ==> r@ == "already exists: "@ + m@,
            self matches PrimalError::PermissionDenied(m) ==> r@ == "permission denied: "@ + m@,
            self matches PrimalError::InvalidInput(m) ==> r@ == "invalid input: "@ + m@,
            self matches PrimalError::Internal(m) ==> r@ == "internal error: "@ + m@,
            self matches PrimalError::Dependency { service, message } ==> r@ == "dependency error: "@
                + service@ + ": "@ + message@,
            self matches PrimalError::Domain { domain, message } ==> r@ == domain@ + " error: "@
                + message@,
    {
        match self {
            PrimalError::Config(m) => text::concat2("configuration error: ", m.as_str()),
            PrimalError::Identity(m) => text::concat2("identity error: ", m.as_str()),
            PrimalError::Discovery(m) => text::concat2("discovery error: ", m.as_str()),
            PrimalError::Lifecycle(m) => text::concat2("lifecycle error: ", m.as_str()),
            PrimalError::Health(m) => text::concat2("health error: ", m.as_str()),
            PrimalError::Io(e) => {
                let t = io_error_text(e);
                let r = text::concat2("I/O error: ", t.as_str());
                assert(r@.subrange(0, "I/O error: "@.len() as int) =~= "I/O error: "@);
                r
            },
            PrimalError::Serialization(m) => text::concat2("serialization error: ", m.as_str()),
            PrimalError::Network(m) => text::concat2("network error: ", m.as_str()),
            PrimalError::Storage(m) => text::concat2("storage error: ", m.as_str()),
            PrimalError::Timeout(m) => text::concat2("operation timed out: ", m.as_str()),
            PrimalError::Cancelled(m) => text::concat2("operation cancelled: ", m.as_str()),
            PrimalError::NotFound(m) => text::concat2("not found: ", m.as_str()),
            PrimalError::AlreadyExists(m) => text::concat2("already exists: ", m.as_str()),
            PrimalError::PermissionDenied(m) => text::concat2("permission denied: ", m.as_str()),
            PrimalError::InvalidInput(m) => text::concat2("invalid input: ", m.as_str()),
            PrimalError::Internal(m) => text::concat2("internal error: ", m.as_str()),
            PrimalError::Dependency { service, message } => text::concat4(
                "dependency error: ",
                service.as_str(),
                ": ",
                message.as_str(),
            ),
            PrimalError::Domain { domain, message } => text::concat3(
                domain.as_str(),
                " error: ",
                message.as_str(),
            ),
        }
    }
}

} // verus!
