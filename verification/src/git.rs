//! The repository: the commands it is given, what their ends mean, and the
//! name of the working branch.

use vstd::prelude::*;
use vstd::string::*;
use crate::command_ext::answer_of;
use crate::command_ext::exit_code_of;
use crate::command_ext::Command;
use crate::command_ext::CommandModel;
use crate::command_ext::Outcome;
use crate::error::seen;
use crate::error::ErrorModel;
use crate::error::SessionError;

verus! {

/// `git diff --exit-code`, cut off from the standard streams.
pub open spec fn diff_command() -> CommandModel {
    CommandModel {
        program: "git"@,
        args: seq!["diff"@, "--exit-code"@],
        directory: None,
        null_io: true,
    }
}

/// The command that asks whether the working tree differs from the index.
pub fn diff() -> (command: Command)
    ensures
        command@ == diff_command(),
{
    let mut command = Command::new("git");
    command.arg("diff");
    command.arg("--exit-code");
    command.null_io();
    assert(command@.args =~= seq!["diff"@, "--exit-code"@]);
    command
}

/// What the end of `git diff --exit-code` says of the working tree: clean
/// for exit code 0, not clean for exit code 1, and an error for any other
/// end.
pub open spec fn working_tree_clean(outcome: Outcome) -> Result<bool, ErrorModel> {
    match exit_code_of(diff_command(), outcome) {
        Err(error) => Err(error),
        Ok(code) => if code == 0 {
            Ok(true)
        } else if code == 1 {
            Ok(false)
        } else {
            Err(ErrorModel::ToolFailed { command: diff_command(), code })
        },
    }
}

/// Whether the working tree is clean, from the end of the command of
/// [`diff`].
pub fn is_working_tree_clean(outcome: Outcome) -> (r: Result<bool, SessionError>)
    ensures
        seen(r) == working_tree_clean(outcome),
{
    let command = diff();
    match command.clean_exit_code(outcome) {
        Err(error) => Err(error),
        Ok(exit_code) => {
            if exit_code == 0 {
                Ok(true)
            } else if exit_code == 1 {
                Ok(false)
            } else {
                Err(SessionError::ToolFailed { command, code: exit_code })
            }
        },
    }
}

/// `git show-branch <branch_name>`, cut off from the standard streams.
pub open spec fn show_branch_command(branch_name: Seq<char>) -> CommandModel {
    CommandModel {
        program: "git"@,
        args: seq!["show-branch"@, branch_name],
        directory: None,
        null_io: true,
    }
}

/// The command that asks whether the branch `branch_name` exists.
pub fn show_branch(branch_name: &str) -> (command: Command)
    ensures
        command@ == show_branch_command(branch_name@),
{
    let mut command = Command::new("git");
    command.arg("show-branch");
    command.arg(branch_name);
    command.null_io();
    assert(command@.args =~= seq!["show-branch"@, branch_name@]);
    command
}

/// Whether the branch `branch_name` exists, from the end of the command
/// of [`show_branch`].
pub fn branch_exists(branch_name: &str, outcome: Outcome) -> (r: Result<bool, SessionError>)
    ensures
        seen(r) == answer_of(show_branch_command(branch_name@), outcome),
{
    show_branch(branch_name).clean_exit_status(outcome)
}

/// The base branch: `main` or `master`, whichever exists alone.
pub open spec fn base_branch(main_exists: bool, master_exists: bool) -> Result<
    Seq<char>,
    ErrorModel,
> {
    if main_exists && master_exists {
        Err(ErrorModel::AmbiguousBaseBranch { both: true })
    } else if !main_exists && !master_exists {
        Err(ErrorModel::AmbiguousBaseBranch { both: false })
    } else if main_exists {
        Ok("main"@)
    } else {
        Ok("master"@)
    }
}

/// Picks the base branch, given whether `main` and whether `master`
/// exists.  Exactly one of them must.
pub fn guess_base_branch(main_branch_exists: bool, master_branch_exists: bool) -> (r: Result<
    String,
    SessionError,
>)
    ensures
        match base_branch(main_branch_exists, master_branch_exists) {
            Ok(name) => r matches Ok(found) && found@ == name,
            Err(error) => r matches Err(e) && e@ == error,
        },
{
    if main_branch_exists && master_branch_exists {
        Err(SessionError::AmbiguousBaseBranch { both: true })
    } else if !main_branch_exists && !master_branch_exists {
        Err(SessionError::AmbiguousBaseBranch { both: false })
    } else if main_branch_exists {
        Ok(String::from_str("main"))
    } else {
        Ok(String::from_str("master"))
    }
}

/// `git fetch origin <branch_name>`, cut off from the standard streams.
pub open spec fn fetch_command(branch_name: Seq<char>) -> CommandModel {
    CommandModel {
        program: "git"@,
        args: seq!["fetch"@, "origin"@, branch_name],
        directory: None,
        null_io: true,
    }
}

/// The command that brings the branch `branch_name` of the remote up to
/// date.
pub fn fetch(branch_name: &str) -> (command: Command)
    ensures
        command@ == fetch_command(branch_name@),
{
    let mut command = Command::new("git");
    command.arg("fetch");
    command.arg("origin");
    command.arg(branch_name);
    command.null_io();
    assert(command@.args =~= seq!["fetch"@, "origin"@, branch_name@]);
    command
}

/// `git checkout -b <new_branch_name> <start_point>`, cut off from the
/// standard streams.
pub open spec fn switch_command(new_branch_name: Seq<char>, start_point: Seq<char>) -> CommandModel {
    CommandModel {
        program: "git"@,
        args: seq!["checkout"@, "-b"@, new_branch_name, start_point],
        directory: None,
        null_io: true,
    }
}

/// The command that makes the branch `new_branch_name` at `start_point`
/// and switches to it.
pub fn switch_to_new_branch(new_branch_name: &str, start_point: &str) -> (command: Command)
    ensures
        command@ == switch_command(new_branch_name@, start_point@),
{
    let mut command = Command::new("git");
    command.arg("checkout");
    command.arg("-b");
    command.arg(new_branch_name);
    command.arg(start_point);
    command.null_io();
    assert(command@.args =~= seq!["checkout"@, "-b"@, new_branch_name@, start_point@]);
    command
}

/// `git commit -a -m <message>`, cut off from the standard streams.
pub open spec fn commit_command(message: Seq<char>) -> CommandModel {
    CommandModel {
        program: "git"@,
        args: seq!["commit"@, "-a"@, "-m"@, message],
        directory: None,
        null_io: true,
    }
}

/// The command that commits every change to a tracked file, under
/// `message`.
pub fn commit(message: &str) -> (command: Command)
    ensures
        command@ == commit_command(message@),
{
    let mut command = Command::new("git");
    command.arg("commit");
    command.arg("-a");
    command.arg("-m");
    command.arg(message);
    command.null_io();
    assert(command@.args =~= seq!["commit"@, "-a"@, "-m"@, message@]);
    command
}

/// The name of the working branch of a run of `subcommand` that was
/// started at `stamp`: the name of the tool, the subcommand and the stamp,
/// with hyphens between them.
pub open spec fn branch_name_of(subcommand: Seq<char>, stamp: Seq<char>) -> Seq<char> {
    "cargo-lockstep-"@ + subcommand + "-"@ + stamp
}

/// The name of the working branch of a run of `subcommand` that was
/// started at `stamp`.
pub fn branch_name(subcommand: &str, stamp: &str) -> (name: String)
    ensures
        name@ == branch_name_of(subcommand@, stamp@),
{
    let mut name = String::from_str("cargo-lockstep-");
    name.append(subcommand);
    name.append("-");
    name.append(stamp);
    name
}

/// The point that the working branch starts from: the branch `base` as
/// the remote `origin` has it.
pub open spec fn start_point_of(base: Seq<char>) -> Seq<char> {
    "origin/"@ + base
}

/// The point that the working branch starts from.
pub fn start_point(base: &str) -> (point: String)
    ensures
        point@ == start_point_of(base@),
{
    let mut point = String::from_str("origin/");
    point.append(base);
    point
}

/// The present time in UTC in compact numeric form: year, month, day,
/// hour, minute and second, as `chrono::Utc::now` gives the time and
/// `chrono::DateTime::format` writes it for `%Y%m%d%H%M%S`.  The result
/// depends on the clock, so nothing is promised of it.  `chrono` panics
/// where the clock stands before 1970.
#[verifier::external_body]
pub(crate) fn utc_stamp() -> String {
    chrono::Utc::now().format("%Y%m%d%H%M%S").to_string()
}

} // verus!
