//! The error taxonomy of the deployment flow. Every error is terminal for
//! the operation that met it; nothing is retried.

use vstd::prelude::*;

verus! {

/// Failure of the repository synchronization phase, carrying the captured
/// error stream of the underlying version-control invocation.
#[derive(PartialEq, Eq, Debug)]
pub enum SyncError {
    /// The initial clone of the depot exited non-zero.
    CloneFailed { detail: Vec<u8> },
    /// The fast-forward pull of an existing working copy exited non-zero.
    PullFailed { detail: Vec<u8> },
}

/// Failure to obtain or decode the host's name.
#[derive(Clone, Copy, PartialEq, Eq, Structural, Debug)]
pub enum HostError {
    /// The host-name query exited non-zero.
    QueryFailed,
    /// The query's output was not valid text.
    InvalidOutput,
}

/// Failure of target resolution against the depot's published manifest.
#[derive(Clone, Copy, PartialEq, Eq, Structural, Debug)]
pub enum TargetError {
    /// The computed target identifier (or its manifest section) is absent
    /// from the manifest.
    NotFound,
    /// The manifest could not be obtained or parsed as structured data.
    ManifestInvalid,
}

/// Failure of the activation command.
#[derive(Clone, Copy, PartialEq, Eq, Structural, Debug)]
pub enum DeployError {
    /// The activation command exited non-zero.
    ActivationFailed,
}

/// The first error an operation met, attributed to the phase that
/// produced it.
#[derive(PartialEq, Eq, Debug)]
pub enum OrchestratorError {
    Sync(SyncError),
    Host(HostError),
    Target(TargetError),
    Deploy(DeployError),
}

/// The mathematical view of a sync failure.
pub enum SyncErrorV {
    CloneFailed { detail: Seq<u8> },
    PullFailed { detail: Seq<u8> },
}

impl View for SyncError {
    type V = SyncErrorV;

    open spec fn view(&self) -> SyncErrorV {
        match self {
            SyncError::CloneFailed { detail } => SyncErrorV::CloneFailed { detail: detail@ },
            SyncError::PullFailed { detail } => SyncErrorV::PullFailed { detail: detail@ },
        }
    }
}

/// The mathematical view of an operation's first error.
pub enum OrchestratorErrorV {
    Sync(SyncErrorV),
    Host(HostError),
    Target(TargetError),
    Deploy(DeployError),
}

impl View for OrchestratorError {
    type V = OrchestratorErrorV;

    open spec fn view(&self) -> OrchestratorErrorV {
        match self {
            OrchestratorError::Sync(e) => OrchestratorErrorV::Sync(e@),
            OrchestratorError::Host(e) => OrchestratorErrorV::Host(*e),
            OrchestratorError::Target(e) => OrchestratorErrorV::Target(*e),
            OrchestratorError::Deploy(e) => OrchestratorErrorV::Deploy(*e),
        }
    }
}

} // verus!
