//! The fixed argument lists of the external tools: the project-creation
//! tool that lays down the base tree, the version-control tool that
//! initializes the repository and merges the shared build-support subtree,
//! and the native package tool that creates the library sub-project. The
//! orchestrator emits these as actions; the surrounding program runs them.

use crate::plugin_name::PluginName;
use vstd::prelude::*;
use vstd::string::StringExecFns;

verus! {

/// The working directory a subprocess runs in: the ambient current
/// directory, or the project root created by the bootstrap tool.
#[derive(Clone, Copy, PartialEq, Eq, Structural, Debug)]
pub enum WorkDir {
    Cwd,
    ProjectRoot,
}

/// A subprocess invocation: a program, its argument list, and its working
/// directory. Standard output is suppressed when it runs.
pub struct CommandSpec {
    pub program: String,
    pub args: Vec<String>,
    pub dir: WorkDir,
}

/// How many version-control commands run, in strict sequence, between the
/// bootstrap and the concurrent step group.
pub const GIT_COMMAND_COUNT: usize = 4;

/// The arguments of the project-creation tool: a fixed template selector,
/// the plugin name, and the full target platform set.
pub open spec fn spec_bootstrap_args(name: Seq<char>) -> Seq<Seq<char>> {
    seq![
        "create"@,
        "--template=plugin_ffi"@,
        name,
        "--platforms"@,
        "android,ios,macos,windows,linux"@,
    ]
}

/// The arguments of the `i`-th version-control command: repository init,
/// stage-all, initial commit, then the merge of the shared build-support
/// subtree under a fixed local path.
pub open spec fn spec_git_args(i: int) -> Seq<Seq<char>> {
    if i == 0 {
        seq!["init"@]
    } else if i == 1 {
        seq!["add"@, "--all"@]
    } else if i == 2 {
        seq!["commit"@, "-m"@, "initial commit"@]
    } else {
        seq![
            "subtree"@,
            "add"@,
            "--prefix"@,
            "cargokit"@,
            "https://github.com/irondash/cargokit.git"@,
            "main"@,
            "--squash"@,
        ]
    }
}

/// The arguments of the native package tool: create a library sub-project
/// named after the plugin inside the fixed `rust` subdirectory.
pub open spec fn spec_native_args(name: Seq<char>) -> Seq<Seq<char>> {
    seq!["new"@, "rust"@, "--lib"@, "--name"@, name]
}

pub open spec fn spec_is_bootstrap_cmd(c: CommandSpec, name: Seq<char>) -> bool {
    c.program@ == "flutter"@ && c.args.deep_view() == spec_bootstrap_args(name) && c.dir is Cwd
}

pub open spec fn spec_is_git_cmd(c: CommandSpec, i: int) -> bool {
    c.program@ == "git"@ && c.args.deep_view() == spec_git_args(i) && c.dir is ProjectRoot
}

pub open spec fn spec_is_native_cmd(c: CommandSpec, name: Seq<char>) -> bool {
    c.program@ == "cargo"@ && c.args.deep_view() == spec_native_args(name) && c.dir
        is ProjectRoot
}

/// Builds the project-creation invocation.
pub fn bootstrap_command(name: &PluginName) -> (c: CommandSpec)
    ensures
        spec_is_bootstrap_cmd(c, name@),
{
    let mut args: Vec<String> = Vec::new();
    args.push(String::from_str("create"));
    args.push(String::from_str("--template=plugin_ffi"));
    args.push(String::from_str(name.as_str()));
    args.push(String::from_str("--platforms"));
    args.push(String::from_str("android,ios,macos,windows,linux"));
    proof {
        assert(args.deep_view() =~= spec_bootstrap_args(name@));
    }
    CommandSpec { program: String::from_str("flutter"), args, dir: WorkDir::Cwd }
}

/// Builds the `i`-th version-control invocation.
pub fn git_command(i: usize) -> (c: CommandSpec)
    requires
        i < GIT_COMMAND_COUNT,
    ensures
        spec_is_git_cmd(c, i as int),
{
    let mut args: Vec<String> = Vec::new();
    if i == 0 {
        args.push(String::from_str("init"));
    } else if i == 1 {
        args.push(String::from_str("add"));
        args.push(String::from_str("--all"));
    } else if i == 2 {
        args.push(String::from_str("commit"));
        args.push(String::from_str("-m"));
        args.push(String::from_str("initial commit"));
    } else {
        args.push(String::from_str("subtree"));
        args.push(String::from_str("add"));
        args.push(String::from_str("--prefix"));
        args.push(String::from_str("cargokit"));
        args.push(String::from_str("https://github.com/irondash/cargokit.git"));
        args.push(String::from_str("main"));
        args.push(String::from_str("--squash"));
    }
    proof {
        assert(args.deep_view() =~= spec_git_args(i as int));
    }
    CommandSpec { program: String::from_str("git"), args, dir: WorkDir::ProjectRoot }
}

/// Builds the native package tool invocation.
pub fn native_command(name: &PluginName) -> (c: CommandSpec)
    ensures
        spec_is_native_cmd(c, name@),
{
    let mut args: Vec<String> = Vec::new();
    args.push(String::from_str("new"));
    args.push(String::from_str("rust"));
    args.push(String::from_str("--lib"));
    args.push(String::from_str("--name"));
    args.push(String::from_str(name.as_str()));
    proof {
        assert(args.deep_view() =~= spec_native_args(name@));
    }
    CommandSpec { program: String::from_str("cargo"), args, dir: WorkDir::ProjectRoot }
}

} // verus!
