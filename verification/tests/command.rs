use cargo_lockstep::command_ext::Command;
use cargo_lockstep::command_ext::Outcome;
use cargo_lockstep::error::ErrorKind;
use cargo_lockstep::error::SessionError;

fn sample_command() -> Command {
    let mut command = Command::new("git");
    command.arg("status");
    command
}

#[test]
fn a_new_command_has_no_arguments() {
    let command = Command::new("cargo");
    assert_eq!(command.program, "cargo");
    assert!(command.args.is_empty());
    assert_eq!(command.directory, None);
    assert!(!command.null_io);
}

#[test]
fn arguments_are_kept_in_order() {
    let mut command = Command::new("cargo");
    command.arg("add");
    command.args(&vec!["--".to_string(), "serde".to_string()]);
    command.arg("--dev");
    assert_eq!(command.args, vec!["add", "--", "serde", "--dev"]);
}

#[test]
fn directory_and_streams_are_set() {
    let mut command = Command::new("cargo");
    command.current_dir("./member");
    command.null_io();
    assert_eq!(command.directory, Some("./member".to_string()));
    assert!(command.null_io);
    assert_eq!(command.program, "cargo");
}

#[test]
fn a_duplicate_equals_the_command() {
    let mut command = Command::new("cargo");
    command.arg("check");
    command.current_dir("x");
    assert_eq!(command.duplicate(), command);
}

#[test]
fn success_is_exit_code_zero_alone() {
    let command = sample_command();
    assert_eq!(command.success_or_err(Outcome::Exited(0)), Ok(()));
    assert_eq!(
        command.success_or_err(Outcome::Exited(1)),
        Err(SessionError::ToolFailed { command: sample_command(), code: 1 })
    );
    assert_eq!(
        command.success_or_err(Outcome::Exited(-1)),
        Err(SessionError::ToolFailed { command: sample_command(), code: -1 })
    );
    assert_eq!(
        command.success_or_err(Outcome::Signalled),
        Err(SessionError::ToolSignalled { command: sample_command() })
    );
    assert_eq!(
        command.success_or_err(Outcome::NotStarted),
        Err(SessionError::ToolNotStarted { command: sample_command() })
    );
}

#[test]
fn the_exit_code_needs_a_process_that_ended() {
    let command = sample_command();
    assert_eq!(command.clean_exit_code(Outcome::Exited(0)), Ok(0));
    assert_eq!(command.clean_exit_code(Outcome::Exited(128)), Ok(128));
    assert_eq!(
        command.clean_exit_code(Outcome::Signalled),
        Err(SessionError::ToolSignalled { command: sample_command() })
    );
    assert_eq!(
        command.clean_exit_code(Outcome::NotStarted),
        Err(SessionError::ToolNotStarted { command: sample_command() })
    );
}

#[test]
fn a_question_fails_only_where_nothing_started() {
    let command = sample_command();
    assert_eq!(command.clean_exit_status(Outcome::Exited(0)), Ok(true));
    assert_eq!(command.clean_exit_status(Outcome::Exited(1)), Ok(false));
    assert_eq!(command.clean_exit_status(Outcome::Signalled), Ok(false));
    assert_eq!(
        command.clean_exit_status(Outcome::NotStarted),
        Err(SessionError::ToolNotStarted { command: sample_command() })
    );
}

#[test]
fn every_error_has_its_family() {
    let command = sample_command();
    assert_eq!(SessionError::DirtyWorkingTree.kind(), ErrorKind::Precondition);
    assert_eq!(SessionError::AmbiguousBaseBranch { both: true }.kind(), ErrorKind::Precondition);
    assert_eq!(
        SessionError::MissingExclusion { path: "x".to_string() }.kind(),
        ErrorKind::Configuration
    );
    assert_eq!(
        SessionError::ToolNotStarted { command: command.duplicate() }.kind(),
        ErrorKind::ToolInvocation
    );
    assert_eq!(
        SessionError::ToolSignalled { command: command.duplicate() }.kind(),
        ErrorKind::ToolInvocation
    );
    assert_eq!(
        SessionError::ToolFailed { command: command.duplicate(), code: 2 }.kind(),
        ErrorKind::ToolExit
    );
    assert_eq!(
        SessionError::MalformedOutput { command: command.duplicate() }.kind(),
        ErrorKind::Parse
    );
    assert_eq!(
        SessionError::MalformedRequirement { name: "a".to_string(), req: "?".to_string() }.kind(),
        ErrorKind::Parse
    );
    assert_eq!(
        SessionError::UnsupportedRequirement { name: "a".to_string(), req: "*".to_string() }.kind(),
        ErrorKind::Policy
    );
    assert_eq!(SessionError::NoPackagesRequested.kind(), ErrorKind::InconsistentSessionState);
    assert_eq!(
        SessionError::MissingLatestVersion { name: "a".to_string() }.kind(),
        ErrorKind::InconsistentSessionState
    );
    assert_eq!(
        SessionError::UnreadablePath { path: "p".to_string() }.kind(),
        ErrorKind::FileSystem
    );
    assert_eq!(SessionError::ScratchUnavailable.kind(), ErrorKind::FileSystem);
    assert_eq!(SessionError::UnexpectedEvent.kind(), ErrorKind::Protocol);
}
