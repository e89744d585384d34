//! Descriptions of the external commands the deployment flow issues.
//!
//! A `CommandSpec` is a plain value: program, arguments, and an optional
//! working directory. The embedding binary runs it; nothing here touches
//! a process. Each builder pins the exact invocation it describes.

use vstd::prelude::*;
use vstd::string::*;

verus! {

/// A command invocation, as data: which program to run, with which
/// arguments, in which working directory.
pub struct CommandSpec {
    pub program: String,
    pub args: Vec<String>,
    pub cwd: Option<String>,
}

/// The mathematical view of a command invocation.
#[verifier::ext_equal]
pub struct CmdV {
    pub program: Seq<char>,
    pub args: Seq<Seq<char>>,
    pub cwd: Option<Seq<char>>,
}

impl View for CommandSpec {
    type V = CmdV;

    open spec fn view(&self) -> CmdV {
        CmdV { program: self.program@, args: self.args.deep_view(), cwd: self.cwd.deep_view() }
    }
}

/// Appends one argument.
fn push_arg(args: &mut Vec<String>, s: &str)
    ensures
        final(args).deep_view() == old(args).deep_view().push(s@),
{
    args.push(String::from_str(s));
    proof {
        assert(args.deep_view() =~= old(args).deep_view().push(s@));
    }
}

/// The shallow, blob-filtered clone of the canonical remote into the
/// depot location.
pub open spec fn clone_cmd(git: Seq<char>, repo: Seq<char>, dest: Seq<char>) -> CmdV {
    CmdV {
        program: git,
        args: seq!["clone"@, "--depth"@, "1"@, "--filter=blob:none"@, repo, dest],
        cwd: None,
    }
}

/// Builds the clone invocation.
pub fn clone_command(git: &str, repo: &str, dest: &str) -> (c: CommandSpec)
    ensures
        c@ == clone_cmd(git@, repo@, dest@),
{
    let mut args: Vec<String> = Vec::new();
    proof {
        assert(args.deep_view() =~= Seq::<Seq<char>>::empty());
    }
    push_arg(&mut args, "clone");
    push_arg(&mut args, "--depth");
    push_arg(&mut args, "1");
    push_arg(&mut args, "--filter=blob:none");
    push_arg(&mut args, repo);
    push_arg(&mut args, dest);
    let c = CommandSpec { program: String::from_str(git), args, cwd: None };
    proof {
        assert(c@.args =~= clone_cmd(git@, repo@, dest@).args);
        assert(c@ =~= clone_cmd(git@, repo@, dest@));
    }
    c
}

/// The fast-forward-only, pruning pull inside an existing working copy.
pub open spec fn pull_cmd(git: Seq<char>, depot: Seq<char>) -> CmdV {
    CmdV { program: git, args: seq!["-C"@, depot, "pull"@, "--ff-only"@, "--prune"@], cwd: None }
}

/// Builds the pull invocation.
pub fn pull_command(git: &str, depot: &str) -> (c: CommandSpec)
    ensures
        c@ == pull_cmd(git@, depot@),
{
    let mut args: Vec<String> = Vec::new();
    proof {
        assert(args.deep_view() =~= Seq::<Seq<char>>::empty());
    }
    push_arg(&mut args, "-C");
    push_arg(&mut args, depot);
    push_arg(&mut args, "pull");
    push_arg(&mut args, "--ff-only");
    push_arg(&mut args, "--prune");
    let c = CommandSpec { program: String::from_str(git), args, cwd: None };
    proof {
        assert(c@.args =~= pull_cmd(git@, depot@).args);
        assert(c@ =~= pull_cmd(git@, depot@));
    }
    c
}

/// The host-name query.
pub open spec fn hostname_cmd() -> CmdV {
    CmdV { program: "hostname"@, args: Seq::empty(), cwd: None }
}

/// Builds the host-name query invocation.
pub fn hostname_command() -> (c: CommandSpec)
    ensures
        c@ == hostname_cmd(),
{
    let args: Vec<String> = Vec::new();
    let c = CommandSpec { program: String::from_str("hostname"), args, cwd: None };
    proof {
        assert(c@.args =~= hostname_cmd().args);
        assert(c@ =~= hostname_cmd());
    }
    c
}

/// The manifest introspection: show all published targets as structured
/// data, run inside the depot location.
pub open spec fn manifest_cmd(depot: Seq<char>) -> CmdV {
    CmdV { program: "nix"@, args: seq!["flake"@, "show"@, "--json"@], cwd: Some(depot) }
}

/// Builds the manifest introspection invocation.
pub fn manifest_command(depot: &str) -> (c: CommandSpec)
    ensures
        c@ == manifest_cmd(depot@),
{
    let mut args: Vec<String> = Vec::new();
    proof {
        assert(args.deep_view() =~= Seq::<Seq<char>>::empty());
    }
    push_arg(&mut args, "flake");
    push_arg(&mut args, "show");
    push_arg(&mut args, "--json");
    let c = CommandSpec {
        program: String::from_str("nix"),
        args,
        cwd: Some(String::from_str(depot)),
    };
    proof {
        assert(c@.args =~= manifest_cmd(depot@).args);
        assert(c@ =~= manifest_cmd(depot@));
    }
    c
}

/// The system activation command for a flake reference.
pub open spec fn machine_activation_cmd(fref: Seq<char>) -> CmdV {
    CmdV { program: "nixos-rebuild"@, args: seq!["switch"@, "--flake"@, fref], cwd: None }
}

/// Builds the system activation invocation.
pub fn machine_activation_command(fref: &str) -> (c: CommandSpec)
    ensures
        c@ == machine_activation_cmd(fref@),
{
    let mut args: Vec<String> = Vec::new();
    proof {
        assert(args.deep_view() =~= Seq::<Seq<char>>::empty());
    }
    push_arg(&mut args, "switch");
    push_arg(&mut args, "--flake");
    push_arg(&mut args, fref);
    let c = CommandSpec { program: String::from_str("nixos-rebuild"), args, cwd: None };
    proof {
        assert(c@.args =~= machine_activation_cmd(fref@).args);
        assert(c@ =~= machine_activation_cmd(fref@));
    }
    c
}

/// The user-environment activation command for a flake reference. With
/// an elevation delegation recorded — an original submitting user — the
/// activation goes through the privilege-drop wrapper targeting that
/// user, all other arguments preserved; without one it runs directly.
pub open spec fn home_activation_cmd(
    hm: Seq<char>,
    fref: Seq<char>,
    sudo_user: Option<Seq<char>>,
) -> CmdV {
    match sudo_user {
        Some(user) => CmdV {
            program: "sudo"@,
            args: seq!["-u"@, user, hm, "switch"@, "--flake"@, fref, "--impure"@],
            cwd: None,
        },
        None => CmdV {
            program: hm,
            args: seq!["switch"@, "--flake"@, fref, "--impure"@],
            cwd: None,
        },
    }
}

/// Builds the user-environment activation invocation, applying the
/// privilege-deescalation rule.
pub fn home_activation_command(hm: &str, fref: &str, sudo_user: &Option<String>) -> (c: CommandSpec)
    ensures
        c@ == home_activation_cmd(hm@, fref@, sudo_user.deep_view()),
{
    let mut args: Vec<String> = Vec::new();
    proof {
        assert(args.deep_view() =~= Seq::<Seq<char>>::empty());
    }
    let program: String;
    match sudo_user {
        Some(user) => {
            program = String::from_str("sudo");
            push_arg(&mut args, "-u");
            push_arg(&mut args, user.as_str());
            push_arg(&mut args, hm);
        },
        None => {
            program = String::from_str(hm);
        },
    }
    push_arg(&mut args, "switch");
    push_arg(&mut args, "--flake");
    push_arg(&mut args, fref);
    push_arg(&mut args, "--impure");
    let c = CommandSpec { program, args, cwd: None };
    proof {
        assert(c@.args =~= home_activation_cmd(hm@, fref@, sudo_user.deep_view()).args);
        assert(c@ =~= home_activation_cmd(hm@, fref@, sudo_user.deep_view()));
    }
    c
}

/// Law: with an elevation delegation set, home activation dispatches
/// through the privilege-drop wrapper naming the delegated user, and
/// keeps the directly dispatched program and arguments intact behind it;
/// with none set, it dispatches the activation command directly.
pub proof fn lemma_home_privilege_drop(hm: Seq<char>, fref: Seq<char>, user: Seq<char>)
    ensures
        home_activation_cmd(hm, fref, None).program == hm,
        home_activation_cmd(hm, fref, Some(user)).program == "sudo"@,
        home_activation_cmd(hm, fref, Some(user)).args == seq!["-u"@, user].push(
            home_activation_cmd(hm, fref, None).program,
        ) + home_activation_cmd(hm, fref, None).args,
{
    assert(home_activation_cmd(hm, fref, Some(user)).args =~= seq!["-u"@, user].push(
        home_activation_cmd(hm, fref, None).program,
    ) + home_activation_cmd(hm, fref, None).args);
}

} // verus!
