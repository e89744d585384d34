use deploy::command::CommandSpec;
use deploy::errors::DeployError;
use deploy::errors::HostError;
use deploy::errors::OrchestratorError;
use deploy::errors::SyncError;
use deploy::errors::TargetError;
use deploy::orchestrator::Action;
use deploy::orchestrator::Config;
use deploy::orchestrator::DeploymentRequest;
use deploy::orchestrator::Event;
use deploy::orchestrator::Orchestrator;
use deploy::orchestrator::Step;
use deploy::orchestrator::canonical_repo_url;
use deploy::orchestrator::well_known_depot_dir;

fn test_config() -> Config {
    Config {
        depot_dir: "/var/lib/depot".to_string(),
        repo_url: "https://example.invalid/depot".to_string(),
        git_cmd: "git".to_string(),
        home_manager_cmd: "home-manager".to_string(),
        sudo_user: None,
        local_dir: "/work/depot".to_string(),
    }
}

fn captured_ok(stdout: &[u8]) -> Event {
    Event::Captured { exit_ok: true, stdout: stdout.to_vec(), stderr: Vec::new() }
}

fn next_cmd(s: Step) -> CommandSpec {
    match s {
        Step::Next(Action::RunCapture { cmd }) => cmd,
        Step::Next(Action::RunStream { cmd }) => cmd,
        _ => panic!("expected a command action"),
    }
}

fn finished(s: Step) -> Result<(), OrchestratorError> {
    match s {
        Step::Finished(r) => r,
        _ => panic!("expected the operation to finish"),
    }
}

#[test]
fn defaults_are_the_well_known_locations() {
    assert_eq!(well_known_depot_dir(), "/var/lib/depot");
    assert_eq!(canonical_repo_url(), "https://github.com/hh/hh");
}

#[test]
fn sync_clones_when_metadata_absent() {
    let mut o = Orchestrator::new(test_config(), DeploymentRequest::Sync);
    let s = o.step(Event::Start);
    assert!(matches!(s, Step::Next(Action::CheckRepoMetadata)));
    let cmd = next_cmd(o.step(Event::RepoMetadata { present: false }));
    assert_eq!(cmd.program, "git");
    assert_eq!(cmd.args[0], "clone");
    assert!(cmd.args.contains(&"--depth".to_string()));
    assert!(cmd.args.contains(&"--filter=blob:none".to_string()));
    let r = finished(o.step(captured_ok(b"")));
    assert_eq!(r, Ok(()));
}

#[test]
fn sync_pulls_when_metadata_present() {
    let mut o = Orchestrator::new(test_config(), DeploymentRequest::Sync);
    o.step(Event::Start);
    let cmd = next_cmd(o.step(Event::RepoMetadata { present: true }));
    assert_eq!(cmd.program, "git");
    assert_eq!(
        cmd.args,
        vec![
            "-C".to_string(),
            "/var/lib/depot".to_string(),
            "pull".to_string(),
            "--ff-only".to_string(),
            "--prune".to_string(),
        ]
    );
    let r = finished(o.step(captured_ok(b"")));
    assert_eq!(r, Ok(()));
}

#[test]
fn sync_twice_both_succeed_and_second_pulls() {
    let mut first = Orchestrator::new(test_config(), DeploymentRequest::Sync);
    first.step(Event::Start);
    let c1 = next_cmd(first.step(Event::RepoMetadata { present: false }));
    assert_eq!(c1.args[0], "clone");
    assert_eq!(finished(first.step(captured_ok(b""))), Ok(()));

    let mut second = Orchestrator::new(test_config(), DeploymentRequest::Sync);
    second.step(Event::Start);
    let c2 = next_cmd(second.step(Event::RepoMetadata { present: true }));
    assert_eq!(c2.args[2], "pull");
    assert_eq!(finished(second.step(captured_ok(b""))), Ok(()));
}

#[test]
fn sync_failure_carries_error_stream() {
    let mut o = Orchestrator::new(test_config(), DeploymentRequest::Sync);
    o.step(Event::Start);
    o.step(Event::RepoMetadata { present: true });
    let r = finished(o.step(Event::Captured {
        exit_ok: false,
        stdout: Vec::new(),
        stderr: b"fatal: not possible to fast-forward".to_vec(),
    }));
    assert_eq!(
        r,
        Err(OrchestratorError::Sync(SyncError::PullFailed {
            detail: b"fatal: not possible to fast-forward".to_vec(),
        }))
    );
}

#[test]
fn local_machine_deployment_skips_sync_and_fails_on_missing_target() {
    let mut o = Orchestrator::new(
        test_config(),
        DeploymentRequest::DeployMachine { local_source: true },
    );
    let first = next_cmd(o.step(Event::Start));
    assert_eq!(first.program, "hostname");
    let manifest = next_cmd(o.step(captured_ok(b"scope\n")));
    assert_eq!(manifest.program, "nix");
    assert_eq!(manifest.args, vec!["flake".to_string(), "show".to_string(), "--json".to_string()]);
    assert_eq!(manifest.cwd, Some("/work/depot".to_string()));
    let doc = br#"{"nixosConfigurations":{"server:other":{}},"homeConfigurations":{}}"#;
    let r = finished(o.step(captured_ok(doc)));
    assert_eq!(r, Err(OrchestratorError::Target(TargetError::NotFound)));
}

#[test]
fn remote_machine_deployment_syncs_resolves_and_dispatches() {
    let mut o = Orchestrator::new(
        test_config(),
        DeploymentRequest::DeployMachine { local_source: false },
    );
    let s = o.step(Event::Start);
    assert!(matches!(s, Step::Next(Action::CheckRepoMetadata)));
    let transfer = next_cmd(o.step(Event::RepoMetadata { present: true }));
    assert_eq!(transfer.args[2], "pull");
    let host_query = next_cmd(o.step(captured_ok(b"")));
    assert_eq!(host_query.program, "hostname");
    let manifest = next_cmd(o.step(captured_ok(b"build-server-03\n")));
    assert_eq!(manifest.cwd, Some("/var/lib/depot".to_string()));
    let doc = br#"{"nixosConfigurations":{"server:build-server-03":{}}}"#;
    let activation = next_cmd(o.step(captured_ok(doc)));
    assert_eq!(activation.program, "nixos-rebuild");
    assert_eq!(
        activation.args,
        vec![
            "switch".to_string(),
            "--flake".to_string(),
            "/var/lib/depot#server:build-server-03".to_string(),
        ]
    );
    let r = finished(o.step(Event::Streamed { exit_ok: true }));
    assert_eq!(r, Ok(()));
}

#[test]
fn failed_host_query_is_fatal() {
    let mut o = Orchestrator::new(
        test_config(),
        DeploymentRequest::DeployMachine { local_source: true },
    );
    o.step(Event::Start);
    let r = finished(o.step(Event::Captured {
        exit_ok: false,
        stdout: Vec::new(),
        stderr: Vec::new(),
    }));
    assert_eq!(r, Err(OrchestratorError::Host(HostError::QueryFailed)));
}

#[test]
fn undecodable_host_name_is_fatal() {
    let mut o = Orchestrator::new(
        test_config(),
        DeploymentRequest::DeployMachine { local_source: true },
    );
    o.step(Event::Start);
    let r = finished(o.step(captured_ok(&[0x80, 0x81])));
    assert_eq!(r, Err(OrchestratorError::Host(HostError::InvalidOutput)));
}

#[test]
fn failed_manifest_introspection_is_invalid() {
    let mut o = Orchestrator::new(
        test_config(),
        DeploymentRequest::DeployMachine { local_source: true },
    );
    o.step(Event::Start);
    o.step(captured_ok(b"scope\n"));
    let r = finished(o.step(Event::Captured {
        exit_ok: false,
        stdout: Vec::new(),
        stderr: b"error: flake evaluation failed".to_vec(),
    }));
    assert_eq!(r, Err(OrchestratorError::Target(TargetError::ManifestInvalid)));
}

#[test]
fn home_deployment_without_delegation_dispatches_directly() {
    let mut o = Orchestrator::new(
        test_config(),
        DeploymentRequest::DeployHome { local_source: true },
    );
    o.step(Event::Start);
    o.step(captured_ok(b"scope\n"));
    let doc = br#"{"homeConfigurations":"unknown"}"#;
    let activation = next_cmd(o.step(captured_ok(doc)));
    assert_eq!(activation.program, "home-manager");
    assert_eq!(
        activation.args,
        vec![
            "switch".to_string(),
            "--flake".to_string(),
            "/work/depot#hh@scope".to_string(),
            "--impure".to_string(),
        ]
    );
}

#[test]
fn home_deployment_with_delegation_drops_privilege() {
    let mut cfg = test_config();
    cfg.sudo_user = Some("alice".to_string());
    let mut o = Orchestrator::new(cfg, DeploymentRequest::DeployHome { local_source: true });
    o.step(Event::Start);
    o.step(captured_ok(b"scope\n"));
    let doc = br#"{"homeConfigurations":{}}"#;
    let activation = next_cmd(o.step(captured_ok(doc)));
    assert_eq!(activation.program, "sudo");
    assert_eq!(
        activation.args,
        vec![
            "-u".to_string(),
            "alice".to_string(),
            "home-manager".to_string(),
            "switch".to_string(),
            "--flake".to_string(),
            "/work/depot#hh@scope".to_string(),
            "--impure".to_string(),
        ]
    );
}

#[test]
fn home_deployment_missing_section_is_not_found() {
    let mut o = Orchestrator::new(
        test_config(),
        DeploymentRequest::DeployHome { local_source: true },
    );
    o.step(Event::Start);
    o.step(captured_ok(b"scope\n"));
    let doc = br#"{"nixosConfigurations":{"laptop:scope":{}}}"#;
    let r = finished(o.step(captured_ok(doc)));
    assert_eq!(r, Err(OrchestratorError::Target(TargetError::NotFound)));
}

#[test]
fn failed_activation_is_fatal() {
    let mut o = Orchestrator::new(
        test_config(),
        DeploymentRequest::DeployMachine { local_source: true },
    );
    o.step(Event::Start);
    o.step(captured_ok(b"laptop-a\n"));
    let doc = br#"{"nixosConfigurations":{"laptop:laptop-a":{}}}"#;
    o.step(captured_ok(doc));
    let r = finished(o.step(Event::Streamed { exit_ok: false }));
    assert_eq!(r, Err(OrchestratorError::Deploy(DeployError::ActivationFailed)));
}
