//! Target resolution: forming canonical deployment-target identifiers and
//! validating them against the depot's published target manifest.

use vstd::prelude::*;
use vstd::string::*;
use crate::errors::TargetError;
use crate::host::MachineCategory;
use crate::host::category_label;
use crate::host::category_label_spec;

verus! {

/// The machine deployment target for a category and host name:
/// `<category>:<hostName>`.
pub open spec fn machine_target_spec(c: MachineCategory, host: Seq<char>) -> Seq<char> {
    category_label_spec(c) + ":"@ + host
}

/// Forms the machine deployment-target identifier.
pub fn machine_target(c: MachineCategory, host: &str) -> (r: String)
    ensures
        r@ == machine_target_spec(c, host@),
{
    let mut s = String::from_str(category_label(c));
    s.append(":");
    s.append(host);
    s
}

/// The home deployment target for a host name:
/// `<user-namespace>@<hostName>`.
pub open spec fn home_target_spec(host: Seq<char>) -> Seq<char> {
    "hh@"@ + host
}

/// Forms the home deployment-target identifier.
pub fn home_target(host: &str) -> (r: String)
    ensures
        r@ == home_target_spec(host@),
{
    let mut s = String::from_str("hh@");
    s.append(host);
    s
}

/// The flake-style reference handed to an activation command:
/// `<depotLocation>#<target>`.
pub open spec fn flake_ref_spec(depot: Seq<char>, target: Seq<char>) -> Seq<char> {
    depot + "#"@ + target
}

/// Forms the flake-style reference for an activation command.
pub fn flake_ref(depot: &str, target: &str) -> (r: String)
    ensures
        r@ == flake_ref_spec(depot@, target@),
{
    let mut s = String::from_str(depot);
    s.append("#");
    s.append(target);
    s
}

/// What a lookup of one key under one section of a structured manifest
/// document can find.
#[derive(Clone, Copy, PartialEq, Eq, Structural, Debug)]
pub enum SectionLookup {
    /// The document is not well-formed structured data.
    Unparseable,
    /// The document has no such section.
    SectionAbsent,
    /// The section exists but does not hold the key.
    KeyAbsent,
    /// The section exists and holds the key.
    KeyPresent,
}

/// What looking `key` up under `section` of the structured manifest
/// document `doc` finds; the document and the two names alone fix the
/// answer.
pub uninterp spec fn json_section_key(
    doc: Seq<u8>,
    section: Seq<char>,
    key: Seq<char>,
) -> SectionLookup;

/// Relies on `serde_json::from_slice` to parse the document — it accepts
/// exactly the well-formed JSON texts — and on `serde_json::Value::get`,
/// which finds a key of an object and returns nothing on a non-object or
/// an absent key. Both results depend on the document and names alone.
#[verifier::external_body]
fn lookup_section_key(doc: &[u8], section: &str, key: &str) -> (r: SectionLookup)
    ensures
        r == json_section_key(doc@, section@, key@),
{
    match serde_json::from_slice::<serde_json::Value>(doc) {
        Err(_) => SectionLookup::Unparseable,
        Ok(v) => match v.get(section) {
            None => SectionLookup::SectionAbsent,
            Some(sec) => match sec.get(key) {
                None => SectionLookup::KeyAbsent,
                Some(_) => SectionLookup::KeyPresent,
            },
        },
    }
}

/// The outcome of validating a machine target against a manifest
/// document: the target must appear as a key of the
/// machine-configurations section.
pub open spec fn machine_validation_spec(doc: Seq<u8>, target: Seq<char>) -> Result<
    (),
    TargetError,
> {
    match json_section_key(doc, "nixosConfigurations"@, target) {
        SectionLookup::Unparseable => Err(TargetError::ManifestInvalid),
        SectionLookup::SectionAbsent => Err(TargetError::NotFound),
        SectionLookup::KeyAbsent => Err(TargetError::NotFound),
        SectionLookup::KeyPresent => Ok(()),
    }
}

/// Checks that `target` is published under the machine-configurations
/// section of the manifest document.
pub fn validate_machine_target(doc: &[u8], target: &str) -> (r: Result<(), TargetError>)
    ensures
        r == machine_validation_spec(doc@, target@),
{
    match lookup_section_key(doc, "nixosConfigurations", target) {
        SectionLookup::Unparseable => Err(TargetError::ManifestInvalid),
        SectionLookup::SectionAbsent => Err(TargetError::NotFound),
        SectionLookup::KeyAbsent => Err(TargetError::NotFound),
        SectionLookup::KeyPresent => Ok(()),
    }
}

/// The outcome of validating a home deployment against a manifest
/// document: only the presence of the home-configurations section is
/// required, since home entries may not be individually enumerable in
/// the manifest's structured form — a deliberately weaker check than the
/// machine path's.
pub open spec fn home_validation_spec(doc: Seq<u8>) -> Result<(), TargetError> {
    match json_section_key(doc, "homeConfigurations"@, ""@) {
        SectionLookup::Unparseable => Err(TargetError::ManifestInvalid),
        SectionLookup::SectionAbsent => Err(TargetError::NotFound),
        SectionLookup::KeyAbsent => Ok(()),
        SectionLookup::KeyPresent => Ok(()),
    }
}

/// Checks that the manifest document publishes a home-configurations
/// section at all.
pub fn validate_home_manifest(doc: &[u8]) -> (r: Result<(), TargetError>)
    ensures
        r == home_validation_spec(doc@),
{
    match lookup_section_key(doc, "homeConfigurations", "") {
        SectionLookup::Unparseable => Err(TargetError::ManifestInvalid),
        SectionLookup::SectionAbsent => Err(TargetError::NotFound),
        SectionLookup::KeyAbsent => Ok(()),
        SectionLookup::KeyPresent => Ok(()),
    }
}

} // verus!
