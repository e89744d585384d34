use deploy::command::clone_command;
use deploy::command::home_activation_command;
use deploy::command::hostname_command;
use deploy::command::machine_activation_command;
use deploy::command::manifest_command;
use deploy::command::pull_command;
use deploy::sync::sync_command;

#[test]
fn clone_is_shallow_and_blob_filtered() {
    let c = clone_command("git", "https://example.invalid/depot", "/var/lib/depot");
    assert_eq!(c.program, "git");
    assert_eq!(
        c.args,
        vec![
            "clone".to_string(),
            "--depth".to_string(),
            "1".to_string(),
            "--filter=blob:none".to_string(),
            "https://example.invalid/depot".to_string(),
            "/var/lib/depot".to_string(),
        ]
    );
    assert_eq!(c.cwd, None);
}

#[test]
fn pull_is_fast_forward_only_with_prune() {
    let c = pull_command("git", "/var/lib/depot");
    assert_eq!(c.program, "git");
    assert_eq!(
        c.args,
        vec![
            "-C".to_string(),
            "/var/lib/depot".to_string(),
            "pull".to_string(),
            "--ff-only".to_string(),
            "--prune".to_string(),
        ]
    );
    assert_eq!(c.cwd, None);
}

#[test]
fn sync_chooses_clone_when_metadata_absent() {
    let c = sync_command("git", "https://example.invalid/depot", "/var/lib/depot", false);
    assert_eq!(c.args[0], "clone");
}

#[test]
fn sync_chooses_pull_when_metadata_present() {
    let c = sync_command("git", "https://example.invalid/depot", "/var/lib/depot", true);
    assert_eq!(c.args[0], "-C");
    assert_eq!(c.args[2], "pull");
}

#[test]
fn hostname_query_has_no_arguments() {
    let c = hostname_command();
    assert_eq!(c.program, "hostname");
    assert!(c.args.is_empty());
    assert_eq!(c.cwd, None);
}

#[test]
fn manifest_introspection_runs_in_depot() {
    let c = manifest_command("/var/lib/depot");
    assert_eq!(c.program, "nix");
    assert_eq!(c.args, vec!["flake".to_string(), "show".to_string(), "--json".to_string()]);
    assert_eq!(c.cwd, Some("/var/lib/depot".to_string()));
}

#[test]
fn machine_activation_switches_to_flake_ref() {
    let c = machine_activation_command("/var/lib/depot#laptop:scope");
    assert_eq!(c.program, "nixos-rebuild");
    assert_eq!(
        c.args,
        vec![
            "switch".to_string(),
            "--flake".to_string(),
            "/var/lib/depot#laptop:scope".to_string(),
        ]
    );
}

#[test]
fn home_activation_without_delegation_runs_directly() {
    let c = home_activation_command("home-manager", "/var/lib/depot#hh@scope", &None);
    assert_eq!(c.program, "home-manager");
    assert_eq!(
        c.args,
        vec![
            "switch".to_string(),
            "--flake".to_string(),
            "/var/lib/depot#hh@scope".to_string(),
            "--impure".to_string(),
        ]
    );
}

#[test]
fn home_activation_with_delegation_drops_privilege() {
    let c = home_activation_command(
        "home-manager",
        "/var/lib/depot#hh@scope",
        &Some("alice".to_string()),
    );
    assert_eq!(c.program, "sudo");
    assert_eq!(
        c.args,
        vec![
            "-u".to_string(),
            "alice".to_string(),
            "home-manager".to_string(),
            "switch".to_string(),
            "--flake".to_string(),
            "/var/lib/depot#hh@scope".to_string(),
            "--impure".to_string(),
        ]
    );
}
