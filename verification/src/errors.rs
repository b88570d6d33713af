//! Tagged error taxonomy of the pipeline: callers branch on the kind,
//! never on message text.

use vstd::prelude::*;

verus! {

/// Everything a pipeline run can fail with.
///
/// `GateBusy`: another run holds the single-flight gate (expected under
/// load). `RemoteCallFailure`: a member or chairman call came back
/// non-200 or did not complete; carries the member name and detail text.
/// `PersistenceFailure`: a document-store read or write failed; treated
/// like a remote failure. `ConfigurationMissing`: a required parameter is
/// absent from the process-wide configuration.
#[derive(Debug, Clone, PartialEq, Eq)]
pub enum CouncilError {
    GateBusy,
    RemoteCallFailure { member: String, status: u16, detail: String },
    PersistenceFailure { detail: String },
    ConfigurationMissing { parameter: String },
}

/// The HTTP status owed to the inbound caller for each error kind:
/// 503 for a busy gate, 500 for everything else.
pub open spec fn spec_http_status(e: CouncilError) -> u16 {
    match e {
        CouncilError::GateBusy => 503,
        _ => 500,
    }
}

impl CouncilError {
    /// Maps the error to the HTTP status reported to the inbound caller.
    pub fn http_status(&self) -> (r: u16)
        ensures
            r == spec_http_status(*self),
    {
        match self {
            CouncilError::GateBusy => 503,
            CouncilError::RemoteCallFailure { .. } => 500,
            CouncilError::PersistenceFailure { .. } => 500,
            CouncilError::ConfigurationMissing { .. } => 500,
        }
    }

    /// True exactly for the busy-gate kind.
    pub fn is_gate_busy(&self) -> (r: bool)
        ensures
            r == (*self matches CouncilError::GateBusy),
    {
        match self {
            CouncilError::GateBusy => true,
            _ => false,
        }
    }
}

} // verus!
