//! skunkBat error types.

use crate::text;
use vstd::prelude::*;

verus! {

/// Errors specific to skunkBat.
#[derive(Debug, Clone, PartialEq, Eq)]
pub enum SkunkBatError {
    /// Configuration error.
    Config(String),
    /// Reconnaissance error.
    Reconnaissance(String),
    /// Threat detection error.
    ThreatDetection(String),
    /// Defense error.
    Defense(String),
    /// Observability error.
    Observability(String),
    /// Lineage verification error.
    LineageVerification(String),
    /// Integration error with external primal.
    Integration(String),
    /// Internal error.
    Internal(String),
}

impl SkunkBatError {
    /// The display text of the error: a prefix naming the kind, then the detail.
    pub open spec fn spec_message(&self) -> Seq<char> {
        match self {
            SkunkBatError::Config(m) => "configuration error: "@ + m@,
            SkunkBatError::Reconnaissance(m) => "reconnaissance error: "@ + m@,
            SkunkBatError::ThreatDetection(m) => "threat detection error: "@ + m@,
            SkunkBatError::Defense(m) => "defense error: "@ + m@,
            SkunkBatError::Observability(m) => "observability error: "@ + m@,
            SkunkBatError::LineageVerification(m) => "lineage verification error: "@ + m@,
            SkunkBatError::Integration(m) => "integration error: "@ + m@,
            SkunkBatError::Internal(m) => "internal error: "@ + m@,
        }
    }

    /// The display text of the error.
    pub fn message(&self) -> (r: String)
        ensures
            r@ == self.spec_message(),
    {
        match self {
            SkunkBatError::Config(m) => text::concat2("configuration error: ", m.as_str()),
            SkunkBatError::Reconnaissance(m) => text::concat2("reconnaissance error: ", m.as_str()),
            SkunkBatError::ThreatDetection(m) => text::concat2("threat detection error: ", m.as_str()),
            SkunkBatError::Defense(m) => text::concat2("defense error: ", m.as_str()),
            SkunkBatError::Observability(m) => text::concat2("observability error: ", m.as_str()),
            SkunkBatError::LineageVerification(m) => text::concat2(
                "lineage verification error: ",
                m.as_str(),
            ),
            SkunkBatError::Integration(m) => text::concat2("integration error: ", m.as_str()),
            SkunkBatError::Internal(m) => text::concat2("internal error: ", m.as_str()),
        }
    }
}

} // verus!
