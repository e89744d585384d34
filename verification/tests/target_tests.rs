use deploy::errors::TargetError;
use deploy::host::MachineCategory;
use deploy::target::flake_ref;
use deploy::target::home_target;
use deploy::target::machine_target;
use deploy::target::validate_home_manifest;
use deploy::target::validate_machine_target;

#[test]
fn machine_target_is_category_scoped() {
    assert_eq!(machine_target(MachineCategory::Laptop, "scope"), "laptop:scope");
    assert_eq!(
        machine_target(MachineCategory::Server, "build-server-03"),
        "server:build-server-03"
    );
    assert_eq!(machine_target(MachineCategory::Desktop, "office-pc"), "desktop:office-pc");
}

#[test]
fn home_target_is_user_scoped() {
    assert_eq!(home_target("scope"), "hh@scope");
}

#[test]
fn flake_ref_joins_depot_and_target() {
    assert_eq!(flake_ref("/var/lib/depot", "laptop:scope"), "/var/lib/depot#laptop:scope");
}

#[test]
fn machine_target_present_is_ok() {
    let doc = br#"{"nixosConfigurations":{"server:build-server-03":{},"laptop:scope":{}}}"#;
    assert_eq!(validate_machine_target(doc, "server:build-server-03"), Ok(()));
}

#[test]
fn machine_target_absent_is_not_found() {
    let doc = br#"{"nixosConfigurations":{"server:other":{},"desktop:elsewhere":{}}}"#;
    assert_eq!(validate_machine_target(doc, "laptop:scope"), Err(TargetError::NotFound));
}

#[test]
fn machine_section_absent_is_not_found() {
    let doc = br#"{"homeConfigurations":{"hh@scope":{}}}"#;
    assert_eq!(validate_machine_target(doc, "laptop:scope"), Err(TargetError::NotFound));
}

#[test]
fn malformed_manifest_is_invalid() {
    let doc = b"not json at all {{{";
    assert_eq!(validate_machine_target(doc, "laptop:scope"), Err(TargetError::ManifestInvalid));
    assert_eq!(validate_home_manifest(doc), Err(TargetError::ManifestInvalid));
}

#[test]
fn home_section_presence_suffices() {
    let doc = br#"{"homeConfigurations":"unknown"}"#;
    assert_eq!(validate_home_manifest(doc), Ok(()));
}

#[test]
fn home_section_absent_is_not_found() {
    let doc = br#"{"nixosConfigurations":{}}"#;
    assert_eq!(validate_home_manifest(doc), Err(TargetError::NotFound));
}
