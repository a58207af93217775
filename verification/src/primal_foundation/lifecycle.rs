//! Primal lifecycle state.
//!
//! Every primal has a lifecycle: it starts, runs, and eventually stops.

use crate::text;
use vstd::prelude::*;

verus! {

/// State of a primal.
#[derive(Clone, Copy, Debug, PartialEq, Eq, Structural)]
pub enum PrimalState {
    /// Not yet started.
    Created,
    /// Starting up.
    Starting,
    /// Running normally.
    Running,
    /// Stopping.
    Stopping,
    /// Stopped.
    Stopped,
    /// Failed.
    Failed,
}

impl PrimalState {
    /// The lowercase name of a state, as displayed and serialized.
    pub open spec fn spec_text(self) -> Seq<char> {
        match self {
            PrimalState::Created => "created"@,
            PrimalState::Starting => "starting"@,
            PrimalState::Running => "running"@,
            PrimalState::Stopping => "stopping"@,
            PrimalState::Stopped => "stopped"@,
            PrimalState::Failed => "failed"@,
        }
    }

    /// Check if the primal is running.
    pub fn is_running(&self) -> (r: bool)
        ensures
            r == (*self == PrimalState::Running),
    {
        matches!(self, PrimalState::Running)
    }

    /// Check if the primal can be started: from `Created`, `Stopped` or `Failed`.
    pub fn can_start(&self) -> (r: bool)
        ensures
            r == (*self == PrimalState::Created || *self == PrimalState::Stopped || *self
                == PrimalState::Failed),
    {
        matches!(self, PrimalState::Created | PrimalState::Stopped | PrimalState::Failed)
    }

    /// Check if the primal can be stopped: only from `Running`.
    pub fn can_stop(&self) -> (r: bool)
        ensures
            r == (*self == PrimalState::Running),
    {
        matches!(self, PrimalState::Running)
    }

    /// The lowercase display text of the state.
    pub fn to_text(&self) -> (r: String)
        ensures
            r@ == self.spec_text(),
    {
        match self {
            PrimalState::Created => text::owned("created"),
            PrimalState::Starting => text::owned("starting"),
            PrimalState::Running => text::owned("running"),
            PrimalState::Stopping => text::owned("stopping"),
            PrimalState::Stopped => text::owned("stopped"),
            PrimalState::Failed => text::owned("failed"),
        }
    }
}

/// A state in which the primal can be started cannot also be stopped, and the
/// only state that can be stopped is the running one.
pub proof fn lemma_start_stop_exclusive(s: PrimalState)
    ensures
        !((s == PrimalState::Created || s == PrimalState::Stopped || s == PrimalState::Failed)
            && s == PrimalState::Running),
{
}

} // verus!
