use cargo_lockstep::command_ext::Command;
use cargo_lockstep::command_ext::Outcome;
use cargo_lockstep::error::SessionError;
use cargo_lockstep::git::branch_exists;
use cargo_lockstep::git::branch_name;
use cargo_lockstep::git::commit;
use cargo_lockstep::git::diff;
use cargo_lockstep::git::fetch;
use cargo_lockstep::git::guess_base_branch;
use cargo_lockstep::git::is_working_tree_clean;
use cargo_lockstep::git::show_branch;
use cargo_lockstep::git::start_point;
use cargo_lockstep::git::switch_to_new_branch;

fn git_quiet(args: &[&str]) -> Command {
    Command {
        program: "git".to_string(),
        args: args.iter().map(|a| a.to_string()).collect(),
        directory: None,
        null_io: true,
    }
}

#[test]
fn guess_base_branch_takes_main_where_it_stands_alone() {
    assert_eq!(guess_base_branch(true, false), Ok("main".to_string()));
}

#[test]
fn guess_base_branch_takes_master_where_it_stands_alone() {
    assert_eq!(guess_base_branch(false, true), Ok("master".to_string()));
}

#[test]
fn guess_base_branch_fails_on_both() {
    assert_eq!(guess_base_branch(true, true), Err(SessionError::AmbiguousBaseBranch { both: true }));
}

#[test]
fn guess_base_branch_fails_on_neither() {
    assert_eq!(
        guess_base_branch(false, false),
        Err(SessionError::AmbiguousBaseBranch { both: false })
    );
}

#[test]
fn the_working_tree_is_clean_on_exit_code_zero() {
    assert_eq!(is_working_tree_clean(Outcome::Exited(0)), Ok(true));
}

#[test]
fn the_working_tree_is_dirty_on_exit_code_one() {
    assert_eq!(is_working_tree_clean(Outcome::Exited(1)), Ok(false));
}

#[test]
fn any_other_end_of_the_diff_is_an_error() {
    assert_eq!(
        is_working_tree_clean(Outcome::Exited(2)),
        Err(SessionError::ToolFailed { command: diff(), code: 2 })
    );
    assert_eq!(
        is_working_tree_clean(Outcome::Exited(129)),
        Err(SessionError::ToolFailed { command: diff(), code: 129 })
    );
    assert_eq!(
        is_working_tree_clean(Outcome::Signalled),
        Err(SessionError::ToolSignalled { command: diff() })
    );
    assert_eq!(
        is_working_tree_clean(Outcome::NotStarted),
        Err(SessionError::ToolNotStarted { command: diff() })
    );
}

#[test]
fn a_branch_exists_where_show_branch_succeeds() {
    assert_eq!(branch_exists("main", Outcome::Exited(0)), Ok(true));
    assert_eq!(branch_exists("main", Outcome::Exited(1)), Ok(false));
    assert_eq!(branch_exists("main", Outcome::Exited(128)), Ok(false));
    assert_eq!(branch_exists("main", Outcome::Signalled), Ok(false));
    assert_eq!(
        branch_exists("main", Outcome::NotStarted),
        Err(SessionError::ToolNotStarted { command: show_branch("main") })
    );
}

#[test]
fn the_git_commands_are_as_written() {
    assert_eq!(diff(), git_quiet(&["diff", "--exit-code"]));
    assert_eq!(show_branch("main"), git_quiet(&["show-branch", "main"]));
    assert_eq!(fetch("main"), git_quiet(&["fetch", "origin", "main"]));
    assert_eq!(
        switch_to_new_branch("work", "origin/main"),
        git_quiet(&["checkout", "-b", "work", "origin/main"])
    );
    assert_eq!(commit("a\n\nb"), git_quiet(&["commit", "-a", "-m", "a\n\nb"]));
}

#[test]
fn the_branch_name_holds_tool_subcommand_and_stamp() {
    assert_eq!(
        branch_name("upgrade", "20240131235959"),
        "cargo-lockstep-upgrade-20240131235959"
    );
    assert_eq!(
        branch_name("update-all", "20240131235959"),
        "cargo-lockstep-update-all-20240131235959"
    );
}

#[test]
fn the_start_point_is_the_remote_branch() {
    assert_eq!(start_point("main"), "origin/main");
    assert_eq!(start_point("master"), "origin/master");
}
