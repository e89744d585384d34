//! The orchestrator: the state machine that composes repository
//! synchronization, host-identity resolution, target validation and
//! privilege-aware dispatch into the three externally visible
//! operations.
//!
//! The orchestrator never runs a command itself. Each `step` consumes
//! the event produced by the previous action and decides the next
//! action, until the operation reaches `Done` or `Failed`. The embedding
//! binary performs the actions — checking for version-control metadata,
//! running a command with captured output, running one with streamed
//! output — and feeds the outcome back in.

use vstd::prelude::*;
use crate::command::CmdV;
use crate::command::CommandSpec;
use crate::command::home_activation_cmd;
use crate::command::home_activation_command;
use crate::command::hostname_cmd;
use crate::command::hostname_command;
use crate::command::machine_activation_cmd;
use crate::command::machine_activation_command;
use crate::command::manifest_cmd;
use crate::command::manifest_command;
use crate::errors::HostError;
use crate::errors::OrchestratorError;
use crate::errors::OrchestratorErrorV;
use crate::errors::TargetError;
use crate::host::category_of;
use crate::host::detect_machine_type;
use crate::host::hostname_of;
use crate::host::hostname_ok;
use crate::host::parse_hostname;
use crate::sync::sync_cmd;
use crate::sync::sync_command;
use crate::sync::sync_outcome;
use crate::sync::sync_result;
use crate::target::flake_ref;
use crate::target::flake_ref_spec;
use crate::target::home_target;
use crate::target::home_target_spec;
use crate::target::home_validation_spec;
use crate::target::machine_target;
use crate::target::machine_target_spec;
use crate::target::machine_validation_spec;
use crate::target::validate_home_manifest;
use crate::target::validate_machine_target;

verus! {

/// One of the three externally visible operations, constructed once
/// from the argument source and consumed exactly once.
#[derive(Clone, Copy, PartialEq, Eq, Structural, Debug)]
pub enum DeploymentRequest {
    Sync,
    DeployMachine { local_source: bool },
    DeployHome { local_source: bool },
}

/// The request bypasses synchronization in favour of a local source.
pub open spec fn request_local(r: DeploymentRequest) -> bool {
    match r {
        DeploymentRequest::Sync => false,
        DeploymentRequest::DeployMachine { local_source } => local_source,
        DeploymentRequest::DeployHome { local_source } => local_source,
    }
}

/// The configuration values threaded into the flow: fixed paths and
/// environment-derived tool locations, resolved by the embedding binary
/// before the flow starts.
pub struct Config {
    /// The well-known location of the synced depot working copy.
    pub depot_dir: String,
    /// The canonical remote the depot is cloned from.
    pub repo_url: String,
    /// The version-control executable.
    pub git_cmd: String,
    /// The user-environment activation executable.
    pub home_manager_cmd: String,
    /// The recorded original submitting user, when running under an
    /// elevation delegation.
    pub sudo_user: Option<String>,
    /// The current working directory, used as the depot location for
    /// local-source deployments.
    pub local_dir: String,
}

/// The mathematical view of the configuration.
#[verifier::ext_equal]
pub struct ConfigV {
    pub depot_dir: Seq<char>,
    pub repo_url: Seq<char>,
    pub git_cmd: Seq<char>,
    pub home_manager_cmd: Seq<char>,
    pub sudo_user: Option<Seq<char>>,
    pub local_dir: Seq<char>,
}

impl View for Config {
    type V = ConfigV;

    open spec fn view(&self) -> ConfigV {
        ConfigV {
            depot_dir: self.depot_dir@,
            repo_url: self.repo_url@,
            git_cmd: self.git_cmd@,
            home_manager_cmd: self.home_manager_cmd@,
            sudo_user: self.sudo_user.deep_view(),
            local_dir: self.local_dir@,
        }
    }
}

/// Which answer the sync phase is waiting for.
#[derive(Clone, Copy, PartialEq, Eq, Structural, Debug)]
pub enum SyncStage {
    /// Waiting to learn whether the working copy's metadata is present.
    AwaitMetadata,
    /// Waiting for the transfer command chosen for that answer.
    AwaitTransfer { metadata_present: bool },
}

/// The phase an operation is in.
#[derive(Clone, Copy, PartialEq, Eq, Structural, Debug)]
pub enum Phase {
    Idle,
    Syncing { stage: SyncStage },
    Resolving,
    Validating,
    Dispatching,
    Done,
    Failed,
}

/// What the embedding binary reports back after performing an action.
pub enum Event {
    /// The operation begins.
    Start,
    /// Whether the working copy's version-control metadata is present.
    RepoMetadata { present: bool },
    /// A command ran with captured output.
    Captured { exit_ok: bool, stdout: Vec<u8>, stderr: Vec<u8> },
    /// A command ran with streamed output.
    Streamed { exit_ok: bool },
}

/// The mathematical view of an event.
#[verifier::ext_equal]
pub enum EventV {
    Start,
    RepoMetadata { present: bool },
    Captured { exit_ok: bool, stdout: Seq<u8>, stderr: Seq<u8> },
    Streamed { exit_ok: bool },
}

impl View for Event {
    type V = EventV;

    open spec fn view(&self) -> EventV {
        match self {
            Event::Start => EventV::Start,
            Event::RepoMetadata { present } => EventV::RepoMetadata { present: *present },
            Event::Captured { exit_ok, stdout, stderr } => EventV::Captured {
                exit_ok: *exit_ok,
                stdout: stdout@,
                stderr: stderr@,
            },
            Event::Streamed { exit_ok } => EventV::Streamed { exit_ok: *exit_ok },
        }
    }
}

/// What the embedding binary is asked to do next.
pub enum Action {
    /// Report whether the working copy's version-control metadata is
    /// present at the well-known depot location.
    CheckRepoMetadata,
    /// Run the command and capture its output.
    RunCapture { cmd: CommandSpec },
    /// Run the command, streaming its output to the operator.
    RunStream { cmd: CommandSpec },
}

/// The mathematical view of an action.
#[verifier::ext_equal]
pub enum ActionV {
    CheckRepoMetadata,
    RunCapture { cmd: CmdV },
    RunStream { cmd: CmdV },
}

impl View for Action {
    type V = ActionV;

    open spec fn view(&self) -> ActionV {
        match self {
            Action::CheckRepoMetadata => ActionV::CheckRepoMetadata,
            Action::RunCapture { cmd } => ActionV::RunCapture { cmd: cmd@ },
            Action::RunStream { cmd } => ActionV::RunStream { cmd: cmd@ },
        }
    }
}

/// The outcome of one step: the next action to perform, or the
/// operation's final result.
pub enum Step {
    Next(Action),
    Finished(Result<(), OrchestratorError>),
}

/// The mathematical view of a step outcome.
#[verifier::ext_equal]
pub enum StepV {
    Next(ActionV),
    Finished(Result<(), OrchestratorErrorV>),
}

impl View for Step {
    type V = StepV;

    open spec fn view(&self) -> StepV {
        match self {
            Step::Next(a) => StepV::Next(a@),
            Step::Finished(r) => StepV::Finished(
                match r {
                    Ok(u) => Ok(*u),
                    Err(e) => Err(e@),
                },
            ),
        }
    }
}

/// The mathematical view of the orchestrator's state.
#[verifier::ext_equal]
pub struct OrchV {
    pub config: ConfigV,
    pub request: DeploymentRequest,
    pub phase: Phase,
    /// The depot location resolved for this operation, once known.
    pub depot: Option<Seq<char>>,
    /// The host name, once resolved.
    pub hostname: Option<Seq<char>>,
    /// The deployment target, once computed.
    pub target: Option<Seq<char>>,
}

/// The state in which an operation begins.
pub open spec fn init_model(config: ConfigV, request: DeploymentRequest) -> OrchV {
    OrchV { config, request, phase: Phase::Idle, depot: None, hostname: None, target: None }
}

/// The event each phase is waiting for.
pub open spec fn expects(phase: Phase, ev: EventV) -> bool {
    match phase {
        Phase::Idle => ev is Start,
        Phase::Syncing { stage } => match stage {
            SyncStage::AwaitMetadata => ev is RepoMetadata,
            SyncStage::AwaitTransfer { .. } => ev is Captured,
        },
        Phase::Resolving => ev is Captured,
        Phase::Validating => ev is Captured,
        Phase::Dispatching => ev is Streamed,
        Phase::Done => false,
        Phase::Failed => false,
    }
}

/// The orchestrator's invariant: each phase holds what its step needs,
/// a bare sync never reaches the deployment phases, and a local-source
/// deployment never enters the sync phase.
pub open spec fn wf_model(m: OrchV) -> bool {
    &&& (m.phase is Resolving ==> m.depot is Some)
    &&& (m.phase is Validating ==> m.depot is Some && m.hostname is Some && m.target is Some)
    &&& ((m.phase is Resolving || m.phase is Validating || m.phase is Dispatching) ==> !(m.request
        is Sync))
    &&& (request_local(m.request) ==> !(m.phase is Syncing))
}

/// A step that transitions nowhere; the transition function yields it
/// only for phase/event pairs that `expects` rules out.
pub open spec fn stutter(m: OrchV) -> (OrchV, StepV) {
    (m, StepV::Finished(Ok(())))
}

/// From `Idle`, on `Start`: a bare sync and a synced deployment enter
/// the sync phase; a local-source deployment takes the current working
/// directory as its depot and resolves the host at once.
pub open spec fn next_idle(m: OrchV, ev: EventV) -> (OrchV, StepV) {
    match ev {
        EventV::Start => if request_local(m.request) {
            (
                OrchV { phase: Phase::Resolving, depot: Some(m.config.local_dir), ..m },
                StepV::Next(ActionV::RunCapture { cmd: hostname_cmd() }),
            )
        } else {
            (
                OrchV { phase: Phase::Syncing { stage: SyncStage::AwaitMetadata }, ..m },
                StepV::Next(ActionV::CheckRepoMetadata),
            )
        },
        _ => stutter(m),
    }
}

/// In the sync phase, on the metadata answer: issue the transfer that
/// answer calls for — a clone of the canonical remote if the metadata is
/// absent, a fast-forward pull if it is present.
pub open spec fn next_await_metadata(m: OrchV, ev: EventV) -> (OrchV, StepV) {
    match ev {
        EventV::RepoMetadata { present } => (
            OrchV {
                phase: Phase::Syncing { stage: SyncStage::AwaitTransfer { metadata_present: present } },
                ..m
            },
            StepV::Next(
                ActionV::RunCapture {
                    cmd: sync_cmd(m.config.git_cmd, m.config.repo_url, m.config.depot_dir, present),
                },
            ),
        ),
        _ => stutter(m),
    }
}

/// In the sync phase, on the transfer's exit: failure is fatal and
/// carries the captured error stream; success completes a bare sync, and
/// sends a deployment on to host resolution with the well-known depot
/// location.
pub open spec fn next_await_transfer(m: OrchV, ev: EventV, metadata_present: bool) -> (
    OrchV,
    StepV,
) {
    match ev {
        EventV::Captured { exit_ok, stdout: _, stderr } => {
            match sync_outcome(metadata_present, exit_ok, stderr) {
                Ok(u) => if m.request is Sync {
                    (OrchV { phase: Phase::Done, ..m }, StepV::Finished(Ok(())))
                } else {
                    (
                        OrchV { phase: Phase::Resolving, depot: Some(m.config.depot_dir), ..m },
                        StepV::Next(ActionV::RunCapture { cmd: hostname_cmd() }),
                    )
                },
                Err(e) => (
                    OrchV { phase: Phase::Failed, ..m },
                    StepV::Finished(Err(OrchestratorErrorV::Sync(e))),
                ),
            }
        },
        _ => stutter(m),
    }
}

/// Resolving, on the host-name query's result: decode and trim the
/// name, classify it, and compute the target — category-scoped for a
/// machine deployment, user-scoped for a home deployment — then fetch
/// the manifest from the resolved depot location.
pub open spec fn next_resolving(m: OrchV, ev: EventV) -> (OrchV, StepV) {
    match ev {
        EventV::Captured { exit_ok, stdout, stderr: _ } => {
            if hostname_ok(exit_ok, stdout) {
                let host = hostname_of(stdout);
                let tgt = if m.request is DeployMachine {
                    machine_target_spec(category_of(host), host)
                } else {
                    home_target_spec(host)
                };
                (
                    OrchV {
                        phase: Phase::Validating,
                        hostname: Some(host),
                        target: Some(tgt),
                        ..m
                    },
                    StepV::Next(ActionV::RunCapture { cmd: manifest_cmd(m.depot->0) }),
                )
            } else {
                let e = if !exit_ok {
                    HostError::QueryFailed
                } else {
                    HostError::InvalidOutput
                };
                (
                    OrchV { phase: Phase::Failed, ..m },
                    StepV::Finished(Err(OrchestratorErrorV::Host(e))),
                )
            }
        },
        _ => stutter(m),
    }
}

/// Validating, on the manifest introspection's result: a failed or
/// unparseable introspection invalidates the manifest; an absent section
/// or — for machine deployments — an absent target key is `NotFound`; a
/// validated target is dispatched with its flake-style reference, home
/// deployments under the privilege-deescalation rule.
pub open spec fn next_validating(m: OrchV, ev: EventV) -> (OrchV, StepV) {
    match ev {
        EventV::Captured { exit_ok, stdout, stderr: _ } => {
            if !exit_ok {
                (
                    OrchV { phase: Phase::Failed, ..m },
                    StepV::Finished(
                        Err(OrchestratorErrorV::Target(TargetError::ManifestInvalid)),
                    ),
                )
            } else {
                let v = if m.request is DeployMachine {
                    machine_validation_spec(stdout, m.target->0)
                } else {
                    home_validation_spec(stdout)
                };
                match v {
                    Err(e) => (
                        OrchV { phase: Phase::Failed, ..m },
                        StepV::Finished(Err(OrchestratorErrorV::Target(e))),
                    ),
                    Ok(u) => {
                        let fref = flake_ref_spec(m.depot->0, m.target->0);
                        let cmd = if m.request is DeployMachine {
                            machine_activation_cmd(fref)
                        } else {
                            home_activation_cmd(
                                m.config.home_manager_cmd,
                                fref,
                                m.config.sudo_user,
                            )
                        };
                        (
                            OrchV { phase: Phase::Dispatching, ..m },
                            StepV::Next(ActionV::RunStream { cmd }),
                        )
                    },
                }
            }
        },
        _ => stutter(m),
    }
}

/// Dispatching, on the activation's exit: zero completes the operation;
/// anything else fails it.
pub open spec fn next_dispatching(m: OrchV, ev: EventV) -> (OrchV, StepV) {
    match ev {
        EventV::Streamed { exit_ok } => if exit_ok {
            (OrchV { phase: Phase::Done, ..m }, StepV::Finished(Ok(())))
        } else {
            (
                OrchV { phase: Phase::Failed, ..m },
                StepV::Finished(Err(OrchestratorErrorV::Deploy(crate::errors::DeployError::ActivationFailed))),
            )
        },
        _ => stutter(m),
    }
}

/// The orchestrator's full transition function: from a state and the
/// event the last action produced, to the next state and what to do.
pub open spec fn next_model(m: OrchV, ev: EventV) -> (OrchV, StepV) {
    match m.phase {
        Phase::Idle => next_idle(m, ev),
        Phase::Syncing { stage } => match stage {
            SyncStage::AwaitMetadata => next_await_metadata(m, ev),
            SyncStage::AwaitTransfer { metadata_present } => next_await_transfer(
                m,
                ev,
                metadata_present,
            ),
        },
        Phase::Resolving => next_resolving(m, ev),
        Phase::Validating => next_validating(m, ev),
        Phase::Dispatching => next_dispatching(m, ev),
        Phase::Done => stutter(m),
        Phase::Failed => stutter(m),
    }
}

/// The orchestrator: one operation's state between steps.
pub struct Orchestrator {
    config: Config,
    request: DeploymentRequest,
    phase: Phase,
    depot: Option<String>,
    hostname: Option<String>,
    target: Option<String>,
}

impl View for Orchestrator {
    type V = OrchV;

    closed spec fn view(&self) -> OrchV {
        OrchV {
            config: self.config@,
            request: self.request,
            phase: self.phase,
            depot: self.depot.deep_view(),
            hostname: self.hostname.deep_view(),
            target: self.target.deep_view(),
        }
    }
}

impl Orchestrator {
    /// Begins an operation in the idle phase.
    pub fn new(config: Config, request: DeploymentRequest) -> (s: Self)
        ensures
            s@ == init_model(config@, request),
            wf_model(s@),
    {
        Orchestrator { config, request, phase: Phase::Idle, depot: None, hostname: None, target: None }
    }

    /// The phase the operation is in.
    pub fn phase(&self) -> (p: Phase)
        ensures
            p == self@.phase,
    {
        self.phase
    }

    /// Advances the operation by one transition: consumes the event the
    /// last action produced and returns the next action, or the
    /// operation's final result.
    pub fn step(&mut self, event: Event) -> (r: Step)
        requires
            wf_model(old(self)@),
            expects(old(self)@.phase, event@),
        ensures
            final(self)@ == next_model(old(self)@, event@).0,
            r@ == next_model(old(self)@, event@).1,
            wf_model(final(self)@),
    {
        match self.phase {
            Phase::Idle => self.step_idle(),
            Phase::Syncing { stage } => match stage {
                SyncStage::AwaitMetadata => self.step_await_metadata(event),
                SyncStage::AwaitTransfer { metadata_present } => self.step_await_transfer(
                    event,
                    metadata_present,
                ),
            },
            Phase::Resolving => self.step_resolving(event),
            Phase::Validating => self.step_validating(event),
            Phase::Dispatching => self.step_dispatching(event),
            Phase::Done => Step::Finished(Ok(())),
            Phase::Failed => Step::Finished(Ok(())),
        }
    }

    fn step_idle(&mut self) -> (r: Step)
        requires
            old(self)@.phase is Idle,
            wf_model(old(self)@),
        ensures
            final(self)@ == next_idle(old(self)@, EventV::Start).0,
            r@ == next_idle(old(self)@, EventV::Start).1,
            wf_model(final(self)@),
    {
        let local = match self.request {
            DeploymentRequest::Sync => false,
            DeploymentRequest::DeployMachine { local_source } => local_source,
            DeploymentRequest::DeployHome { local_source } => local_source,
        };
        if local {
            self.depot = Some(self.config.local_dir.clone());
            self.phase = Phase::Resolving;
            Step::Next(Action::RunCapture { cmd: hostname_command() })
        } else {
            self.phase = Phase::Syncing { stage: SyncStage::AwaitMetadata };
            Step::Next(Action::CheckRepoMetadata)
        }
    }

    fn step_await_metadata(&mut self, event: Event) -> (r: Step)
        requires
            old(self)@.phase == (Phase::Syncing { stage: SyncStage::AwaitMetadata }),
            wf_model(old(self)@),
            expects(old(self)@.phase, event@),
        ensures
            final(self)@ == next_await_metadata(old(self)@, event@).0,
            r@ == next_await_metadata(old(self)@, event@).1,
            wf_model(final(self)@),
    {
        match event {
            Event::RepoMetadata { present } => {
                self.phase = Phase::Syncing {
                    stage: SyncStage::AwaitTransfer { metadata_present: present },
                };
                let cmd = sync_command(
                    self.config.git_cmd.as_str(),
                    self.config.repo_url.as_str(),
                    self.config.depot_dir.as_str(),
                    present,
                );
                Step::Next(Action::RunCapture { cmd })
            },
            _ => {
                proof {
                    assert(false);
                }
                Step::Finished(Ok(()))
            },
        }
    }

    fn step_await_transfer(&mut self, event: Event, metadata_present: bool) -> (r: Step)
        requires
            old(self)@.phase == (Phase::Syncing {
                stage: SyncStage::AwaitTransfer { metadata_present },
            }),
            wf_model(old(self)@),
            expects(old(self)@.phase, event@),
        ensures
            final(self)@ == next_await_transfer(old(self)@, event@, metadata_present).0,
            r@ == next_await_transfer(old(self)@, event@, metadata_present).1,
            wf_model(final(self)@),
    {
        match event {
            Event::Captured { exit_ok, stdout: _, stderr } => {
                match sync_result(metadata_present, exit_ok, stderr) {
                    Ok(_) => {
                        let is_sync = match self.request {
                            DeploymentRequest::Sync => true,
                            _ => false,
                        };
                        if is_sync {
                            self.phase = Phase::Done;
                            Step::Finished(Ok(()))
                        } else {
                            self.depot = Some(self.config.depot_dir.clone());
                            self.phase = Phase::Resolving;
                            Step::Next(Action::RunCapture { cmd: hostname_command() })
                        }
                    },
                    Err(e) => {
                        self.phase = Phase::Failed;
                        Step::Finished(Err(OrchestratorError::Sync(e)))
                    },
                }
            },
            _ => {
                proof {
                    assert(false);
                }
                Step::Finished(Ok(()))
            },
        }
    }

    fn step_resolving(&mut self, event: Event) -> (r: Step)
        requires
            old(self)@.phase is Resolving,
            wf_model(old(self)@),
            expects(old(self)@.phase, event@),
        ensures
            final(self)@ == next_resolving(old(self)@, event@).0,
            r@ == next_resolving(old(self)@, event@).1,
            wf_model(final(self)@),
    {
        match event {
            Event::Captured { exit_ok, stdout, stderr: _ } => {
                match parse_hostname(exit_ok, stdout.as_slice()) {
                    Ok(host) => {
                        let is_machine = match self.request {
                            DeploymentRequest::DeployMachine { .. } => true,
                            _ => false,
                        };
                        let tgt = if is_machine {
                            let c = detect_machine_type(host.as_str());
                            machine_target(c, host.as_str())
                        } else {
                            home_target(host.as_str())
                        };
                        self.hostname = Some(host);
                        self.target = Some(tgt);
                        self.phase = Phase::Validating;
                        let cmd = match &self.depot {
                            Some(d) => manifest_command(d.as_str()),
                            None => {
                                proof {
                                    assert(false);
                                }
                                manifest_command("")
                            },
                        };
                        Step::Next(Action::RunCapture { cmd })
                    },
                    Err(e) => {
                        self.phase = Phase::Failed;
                        Step::Finished(Err(OrchestratorError::Host(e)))
                    },
                }
            },
            _ => {
                proof {
                    assert(false);
                }
                Step::Finished(Ok(()))
            },
        }
    }

    fn step_validating(&mut self, event: Event) -> (r: Step)
        requires
            old(self)@.phase is Validating,
            wf_model(old(self)@),
            expects(old(self)@.phase, event@),
        ensures
            final(self)@ == next_validating(old(self)@, event@).0,
            r@ == next_validating(old(self)@, event@).1,
            wf_model(final(self)@),
    {
        match event {
            Event::Captured { exit_ok, stdout, stderr: _ } => {
                if !exit_ok {
                    self.phase = Phase::Failed;
                    return Step::Finished(
                        Err(OrchestratorError::Target(TargetError::ManifestInvalid)),
                    );
                }
                let is_machine = match self.request {
                    DeploymentRequest::DeployMachine { .. } => true,
                    _ => false,
                };
                let validation = match (&self.target, is_machine) {
                    (Some(t), true) => validate_machine_target(stdout.as_slice(), t.as_str()),
                    _ => validate_home_manifest(stdout.as_slice()),
                };
                match validation {
                    Err(e) => {
                        self.phase = Phase::Failed;
                        Step::Finished(Err(OrchestratorError::Target(e)))
                    },
                    Ok(_) => {
                        let fref = match (&self.depot, &self.target) {
                            (Some(d), Some(t)) => flake_ref(d.as_str(), t.as_str()),
                            _ => {
                                proof {
                                    assert(false);
                                }
                                flake_ref("", "")
                            },
                        };
                        let cmd = if is_machine {
                            machine_activation_command(fref.as_str())
                        } else {
                            home_activation_command(
                                self.config.home_manager_cmd.as_str(),
                                fref.as_str(),
                                &self.config.sudo_user,
                            )
                        };
                        self.phase = Phase::Dispatching;
                        Step::Next(Action::RunStream { cmd })
                    },
                }
            },
            _ => {
                proof {
                    assert(false);
                }
                Step::Finished(Ok(()))
            },
        }
    }

    fn step_dispatching(&mut self, event: Event) -> (r: Step)
        requires
            old(self)@.phase is Dispatching,
            wf_model(old(self)@),
            expects(old(self)@.phase, event@),
        ensures
            final(self)@ == next_dispatching(old(self)@, event@).0,
            r@ == next_dispatching(old(self)@, event@).1,
            wf_model(final(self)@),
    {
        match event {
            Event::Streamed { exit_ok } => {
                if exit_ok {
                    self.phase = Phase::Done;
                    Step::Finished(Ok(()))
                } else {
                    self.phase = Phase::Failed;
                    Step::Finished(
                        Err(OrchestratorError::Deploy(crate::errors::DeployError::ActivationFailed)),
                    )
                }
            },
            _ => {
                proof {
                    assert(false);
                }
                Step::Finished(Ok(()))
            },
        }
    }
}

/// Law: a deployment from a local source never invokes the repository
/// syncer: it is never in the sync phase, and no step takes it there.
pub proof fn lemma_local_source_never_syncs(m: OrchV, ev: EventV)
    requires
        wf_model(m),
        request_local(m.request),
    ensures
        !(m.phase is Syncing),
        !(next_model(m, ev).0.phase is Syncing),
{
}

/// Law: a deployment that does not bypass synchronization syncs before
/// anything else — its first step out of idle enters the sync phase and
/// asks after the working copy's metadata.
pub proof fn lemma_remote_source_syncs_first(config: ConfigV, request: DeploymentRequest)
    requires
        !request_local(request),
    ensures
        next_model(init_model(config, request), EventV::Start).0.phase == (Phase::Syncing {
            stage: SyncStage::AwaitMetadata,
        }),
        next_model(init_model(config, request), EventV::Start).1 == StepV::Next(
            ActionV::CheckRepoMetadata,
        ),
{
}

/// Law: an operation either fully completes its phase sequence or stops
/// at the first failing phase. A step that reports a final result leaves
/// the operation terminal — `Done` exactly on success, `Failed` exactly
/// on an error — and a step that asks for another action leaves it in a
/// working phase.
pub proof fn lemma_finish_is_terminal(m: OrchV, ev: EventV)
    requires
        wf_model(m),
        expects(m.phase, ev),
    ensures
        next_model(m, ev).1 matches StepV::Finished(r) ==> ((r is Ok <==> next_model(
            m,
            ev,
        ).0.phase is Done) && (r is Err <==> next_model(m, ev).0.phase is Failed)),
        next_model(m, ev).1 is Next ==> !(next_model(m, ev).0.phase is Done) && !(next_model(
            m,
            ev,
        ).0.phase is Failed),
{
}

/// Law: the first error is attributed to the phase that produced it: a
/// sync failure to the sync phase, a host failure to resolution, a
/// target failure to validation, an activation failure to dispatch.
pub proof fn lemma_errors_name_their_phase(m: OrchV, ev: EventV)
    requires
        wf_model(m),
        expects(m.phase, ev),
    ensures
        next_model(m, ev).1 matches StepV::Finished(Err(e)) ==> match m.phase {
            Phase::Syncing { .. } => e is Sync,
            Phase::Resolving => e is Host,
            Phase::Validating => e is Target,
            Phase::Dispatching => e is Deploy,
            _ => false,
        },
{
}

/// The well-known depot location used whenever syncing is not bypassed.
pub fn well_known_depot_dir() -> (r: &'static str)
    ensures
        r@ == "/var/lib/depot"@,
{
    "/var/lib/depot"
}

/// The canonical remote the depot is cloned from.
pub fn canonical_repo_url() -> (r: &'static str)
    ensures
        r@ == "https://github.com/hh/hh"@,
{
    "https://github.com/hh/hh"
}

} // verus!
