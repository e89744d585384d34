//! Deployment orchestration for a centrally synced configuration depot.
//!
//! The crate decides, step by step, which external commands a deployment
//! run must issue: synchronizing the depot working copy, resolving the
//! host's identity, validating the configuration target against the
//! depot's published manifest, and dispatching the activation command.
//! All decision logic is verified; running the commands is left to the
//! binary that embeds this crate.

pub mod command;
pub mod errors;
pub mod host;
pub mod orchestrator;
pub mod sync;
pub mod target;

use vstd::prelude::*;

verus! {

} // verus!
