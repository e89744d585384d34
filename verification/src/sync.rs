//! Repository synchronization: deciding how to bring the depot working
//! copy up to date, and the model of what a successful sync leaves
//! behind.

use vstd::prelude::*;
use crate::command::CmdV;
use crate::command::CommandSpec;
use crate::command::clone_cmd;
use crate::command::clone_command;
use crate::command::pull_cmd;
use crate::command::pull_command;
use crate::errors::SyncError;
use crate::errors::SyncErrorV;

verus! {

/// The transfer a sync issues for a given working-copy state: a clone of
/// the canonical remote when the version-control metadata is absent, a
/// fast-forward pull when it is present — never both.
pub open spec fn sync_cmd(
    git: Seq<char>,
    repo: Seq<char>,
    depot: Seq<char>,
    metadata_present: bool,
) -> CmdV {
    if metadata_present {
        pull_cmd(git, depot)
    } else {
        clone_cmd(git, repo, depot)
    }
}

/// Chooses the transfer command for a sync.
pub fn sync_command(git: &str, repo: &str, depot: &str, metadata_present: bool) -> (c: CommandSpec)
    ensures
        c@ == sync_cmd(git@, repo@, depot@, metadata_present),
{
    if metadata_present {
        pull_command(git, depot)
    } else {
        clone_command(git, repo, depot)
    }
}

/// Maps the exit of the transfer command to the sync outcome, carrying
/// the captured error stream on failure.
pub open spec fn sync_outcome(metadata_present: bool, exit_ok: bool, stderr: Seq<u8>) -> Result<
    (),
    SyncErrorV,
> {
    if exit_ok {
        Ok(())
    } else if metadata_present {
        Err(SyncErrorV::PullFailed { detail: stderr })
    } else {
        Err(SyncErrorV::CloneFailed { detail: stderr })
    }
}

/// The view of a sync result.
pub open spec fn sync_result_view(r: Result<(), SyncError>) -> Result<(), SyncErrorV> {
    match r {
        Ok(u) => Ok(u),
        Err(e) => Err(e@),
    }
}

/// Interprets the exit of the transfer command as the sync outcome.
pub fn sync_result(metadata_present: bool, exit_ok: bool, stderr: Vec<u8>) -> (r: Result<
    (),
    SyncError,
>)
    ensures
        sync_result_view(r) == sync_outcome(metadata_present, exit_ok, stderr@),
{
    if exit_ok {
        Ok(())
    } else if metadata_present {
        Err(SyncError::PullFailed { detail: stderr })
    } else {
        Err(SyncError::CloneFailed { detail: stderr })
    }
}

/// Law: the clone and pull transfers are distinct invocations, so one
/// sync never issues both.
pub proof fn lemma_sync_exclusive(git: Seq<char>, repo: Seq<char>, depot: Seq<char>)
    ensures
        sync_cmd(git, repo, depot, false) == clone_cmd(git, repo, depot),
        sync_cmd(git, repo, depot, true) == pull_cmd(git, depot),
        clone_cmd(git, repo, depot) != pull_cmd(git, depot),
{
    reveal_strlit("clone");
    reveal_strlit("-C");
    assert(clone_cmd(git, repo, depot).args[0].len() == 5);
    assert(pull_cmd(git, depot).args[0].len() == 2);
}

/// An abstract view of the depot working copy: whether its
/// version-control metadata is present, and which upstream revision its
/// contents reflect.
pub struct DepotModel {
    pub present: bool,
    pub revision: nat,
}

/// The working copy a successful sync leaves behind when the upstream
/// holds revision `upstream`: cloning an absent copy and fast-forwarding
/// a present one both converge to a present copy at that revision.
pub open spec fn synced(d: DepotModel, upstream: nat) -> DepotModel {
    DepotModel { present: true, revision: upstream }
}

/// Law: sync is idempotent at the repository level. When no upstream
/// change falls between them, a second sync finds the metadata present —
/// so it issues the fast-forward pull, not a clone — and leaves the
/// working copy exactly as the first sync left it.
pub proof fn lemma_sync_idempotent(
    d: DepotModel,
    upstream: nat,
    git: Seq<char>,
    repo: Seq<char>,
    depot: Seq<char>,
)
    ensures
        synced(synced(d, upstream), upstream) == synced(d, upstream),
        synced(d, upstream).present,
        sync_cmd(git, repo, depot, synced(d, upstream).present) == pull_cmd(git, depot),
{
}

} // verus!
