//! Construction of the one-line shell command executed on the build host.
//!
//! The line sources the environment profile, selects the toolchain, changes
//! into the remote workspace, and runs the build tool with the inline
//! environment assignments prefixed and the extra arguments appended in their
//! original order. Nothing is shell-escaped: an argument or assignment that
//! holds shell metacharacters reaches the remote shell as written, a known
//! fragility kept for compatibility with the command's users.

use crate::textfmt::join_spaced;
use crate::textfmt::join_with_spaces;
use vstd::prelude::*;

verus! {

/// The remote command line, sub-commands joined by `;`:
/// `source <profile>; rustup default <toolchain>; cd <workspace>;
/// <build_env> cargo <subcommand> <extra_args...>`.
pub open spec fn remote_command_spec(
    profile: Seq<char>,
    toolchain: Seq<char>,
    workspace: Seq<char>,
    build_env: Seq<char>,
    subcommand: Seq<char>,
    extra_args: Seq<Seq<char>>,
) -> Seq<char> {
    "source "@ + profile + "; rustup default "@ + toolchain + "; cd "@ + workspace + "; "@
        + build_env + " cargo "@ + subcommand + " "@ + join_spaced(extra_args)
}

/// Builds the remote command line from the resolved settings and the derived
/// workspace path.
pub fn build_remote_command(
    profile: &str,
    toolchain: &str,
    workspace: &str,
    build_env: &str,
    subcommand: &str,
    extra_args: &Vec<String>,
) -> (s: String)
    ensures
        s@ == remote_command_spec(
            profile@,
            toolchain@,
            workspace@,
            build_env@,
            subcommand@,
            extra_args.deep_view(),
        ),
{
    let mut s = String::from_str("source ");
    s.append(profile);
    s.append("; rustup default ");
    s.append(toolchain);
    s.append("; cd ");
    s.append(workspace);
    s.append("; ");
    s.append(build_env);
    s.append(" cargo ");
    s.append(subcommand);
    s.append(" ");
    let joined = join_with_spaces(extra_args);
    s.append(joined.as_str());
    s
}

/// The statement that sources the environment profile.
pub open spec fn profile_statement(profile: Seq<char>) -> Seq<char> {
    "source "@ + profile
}

/// The statement that selects the toolchain.
pub open spec fn toolchain_statement(toolchain: Seq<char>) -> Seq<char> {
    "rustup default "@ + toolchain
}

/// The statement that changes into the remote workspace.
pub open spec fn workspace_statement(workspace: Seq<char>) -> Seq<char> {
    "cd "@ + workspace
}

/// The final build-tool invocation: the inline environment assignments, the
/// build tool, the subcommand, and the extra arguments space-joined in their
/// original order.
pub open spec fn invocation_statement(
    build_env: Seq<char>,
    subcommand: Seq<char>,
    extra_args: Seq<Seq<char>>,
) -> Seq<char> {
    build_env + " cargo "@ + subcommand + " "@ + join_spaced(extra_args)
}

/// The remote command line is exactly the profile-sourcing statement, the
/// toolchain-selection statement, the directory-change statement, and the
/// final invocation, in that order, joined by `"; "`.
pub proof fn lemma_command_parts_in_order(
    profile: Seq<char>,
    toolchain: Seq<char>,
    workspace: Seq<char>,
    build_env: Seq<char>,
    subcommand: Seq<char>,
    extra_args: Seq<Seq<char>>,
)
    ensures
        remote_command_spec(profile, toolchain, workspace, build_env, subcommand, extra_args)
            == profile_statement(profile) + "; "@ + toolchain_statement(toolchain) + "; "@
            + workspace_statement(workspace) + "; "@ + invocation_statement(
            build_env,
            subcommand,
            extra_args,
        ),
{
    reveal_strlit("; rustup default ");
    reveal_strlit("rustup default ");
    reveal_strlit("; cd ");
    reveal_strlit("cd ");
    reveal_strlit("; ");
    assert("; rustup default "@ =~= "; "@ + "rustup default "@);
    assert("; cd "@ =~= "; "@ + "cd "@);
    assert(remote_command_spec(profile, toolchain, workspace, build_env, subcommand, extra_args)
        =~= profile_statement(profile) + "; "@ + toolchain_statement(toolchain) + "; "@
        + workspace_statement(workspace) + "; "@ + invocation_statement(
        build_env,
        subcommand,
        extra_args,
    ));
}

} // verus!
