//! The ways in which a session fails.

use vstd::prelude::*;
use crate::command_ext::Command;
use crate::command_ext::CommandModel;

verus! {

/// The family that an error belongs to.
#[derive(Clone, Copy, Debug, PartialEq, Eq, Structural)]
pub enum ErrorKind {
    /// The repository is not in a state to start from.  Nothing was changed.
    Precondition,
    /// An argument of the caller names something that is not there.
    Configuration,
    /// An external command did not start, or was killed by a signal.
    ToolInvocation,
    /// An external command ran and reported failure.
    ToolExit,
    /// A manifest or a version requirement is malformed.
    Parse,
    /// A version requirement has a shape that is not supported.
    Policy,
    /// The session holds less than it must at this point.
    InconsistentSessionState,
    /// The file system could not be read.
    FileSystem,
    /// The caller reported something that the session did not ask for.
    Protocol,
}

/// A fatal error of a session.
#[derive(Clone, Debug, PartialEq, Eq)]
pub enum SessionError {
    /// The working tree has uncommitted changes.
    DirtyWorkingTree,
    /// Not exactly one of the branches `main` and `master` exists.
    AmbiguousBaseBranch { both: bool },
    /// An exclusion path does not exist.
    MissingExclusion { path: String },
    /// The command could not be started.
    ToolNotStarted { command: Command },
    /// The command was killed by a signal.
    ToolSignalled { command: Command },
    /// The command ran and left an exit code that stands for failure.
    ToolFailed { command: Command, code: i32 },
    /// The output of the command is not the document that was expected.
    MalformedOutput { command: Command },
    /// The requirement of the dependency `name` could not be parsed.
    MalformedRequirement { name: String, req: String },
    /// The requirement of the dependency `name` lacks the clause or the
    /// component that is needed.
    UnsupportedRequirement { name: String, req: String },
    /// No package was named to be upgraded.
    NoPackagesRequested,
    /// No latest version is known for the requested package `name`.
    MissingLatestVersion { name: String },
    /// A path could not be read or resolved.
    UnreadablePath { path: String },
    /// The scratch project could not be made.
    ScratchUnavailable,
    /// The caller reported an event that does not answer the last action.
    UnexpectedEvent,
}

/// What a [`SessionError`] holds, as mathematical values.
pub ghost enum ErrorModel {
    DirtyWorkingTree,
    AmbiguousBaseBranch { both: bool },
    MissingExclusion { path: Seq<char> },
    ToolNotStarted { command: CommandModel },
    ToolSignalled { command: CommandModel },
    ToolFailed { command: CommandModel, code: i32 },
    MalformedOutput { command: CommandModel },
    MalformedRequirement { name: Seq<char>, req: Seq<char> },
    UnsupportedRequirement { name: Seq<char>, req: Seq<char> },
    NoPackagesRequested,
    MissingLatestVersion { name: Seq<char> },
    UnreadablePath { path: Seq<char> },
    ScratchUnavailable,
    UnexpectedEvent,
}

impl View for SessionError {
    type V = ErrorModel;

    open spec fn view(&self) -> ErrorModel {
        match *self {
            SessionError::DirtyWorkingTree => ErrorModel::DirtyWorkingTree,
            SessionError::AmbiguousBaseBranch { both } => ErrorModel::AmbiguousBaseBranch { both },
            SessionError::MissingExclusion { path } => ErrorModel::MissingExclusion { path: path@ },
            SessionError::ToolNotStarted { command } => ErrorModel::ToolNotStarted {
                command: command@,
            },
            SessionError::ToolSignalled { command } => ErrorModel::ToolSignalled {
                command: command@,
            },
            SessionError::ToolFailed { command, code } => ErrorModel::ToolFailed {
                command: command@,
                code,
            },
            SessionError::MalformedOutput { command } => ErrorModel::MalformedOutput {
                command: command@,
            },
            SessionError::MalformedRequirement { name, req } => ErrorModel::MalformedRequirement {
                name: name@,
                req: req@,
            },
            SessionError::UnsupportedRequirement { name, req } => ErrorModel::UnsupportedRequirement {
                name: name@,
                req: req@,
            },
            SessionError::NoPackagesRequested => ErrorModel::NoPackagesRequested,
            SessionError::MissingLatestVersion { name } => ErrorModel::MissingLatestVersion {
                name: name@,
            },
            SessionError::UnreadablePath { path } => ErrorModel::UnreadablePath { path: path@ },
            SessionError::ScratchUnavailable => ErrorModel::ScratchUnavailable,
            SessionError::UnexpectedEvent => ErrorModel::UnexpectedEvent,
        }
    }
}

/// A result with its error taken as mathematical values.
pub open spec fn seen<T>(r: Result<T, SessionError>) -> Result<T, ErrorModel> {
    match r {
        Ok(value) => Ok(value),
        Err(error) => Err(error@),
    }
}

impl ErrorModel {
    /// The family of this error.
    pub open spec fn kind(self) -> ErrorKind {
        match self {
            ErrorModel::DirtyWorkingTree => ErrorKind::Precondition,
            ErrorModel::AmbiguousBaseBranch { .. } => ErrorKind::Precondition,
            ErrorModel::MissingExclusion { .. } => ErrorKind::Configuration,
            ErrorModel::ToolNotStarted { .. } => ErrorKind::ToolInvocation,
            ErrorModel::ToolSignalled { .. } => ErrorKind::ToolInvocation,
            ErrorModel::ToolFailed { .. } => ErrorKind::ToolExit,
            ErrorModel::MalformedOutput { .. } => ErrorKind::Parse,
            ErrorModel::MalformedRequirement { .. } => ErrorKind::Parse,
            ErrorModel::UnsupportedRequirement { .. } => ErrorKind::Policy,
            ErrorModel::NoPackagesRequested => ErrorKind::InconsistentSessionState,
            ErrorModel::MissingLatestVersion { .. } => ErrorKind::InconsistentSessionState,
            ErrorModel::UnreadablePath { .. } => ErrorKind::FileSystem,
            ErrorModel::ScratchUnavailable => ErrorKind::FileSystem,
            ErrorModel::UnexpectedEvent => ErrorKind::Protocol,
        }
    }
}

impl SessionError {
    /// The family of this error.
    pub fn kind(&self) -> (kind: ErrorKind)
        ensures
            kind == self@.kind(),
    {
        match self {
            SessionError::DirtyWorkingTree => ErrorKind::Precondition,
            SessionError::AmbiguousBaseBranch { .. } => ErrorKind::Precondition,
            SessionError::MissingExclusion { .. } => ErrorKind::Configuration,
            SessionError::ToolNotStarted { .. } => ErrorKind::ToolInvocation,
            SessionError::ToolSignalled { .. } => ErrorKind::ToolInvocation,
            SessionError::ToolFailed { .. } => ErrorKind::ToolExit,
            SessionError::MalformedOutput { .. } => ErrorKind::Parse,
            SessionError::MalformedRequirement { .. } => ErrorKind::Parse,
            SessionError::UnsupportedRequirement { .. } => ErrorKind::Policy,
            SessionError::NoPackagesRequested => ErrorKind::InconsistentSessionState,
            SessionError::MissingLatestVersion { .. } => ErrorKind::InconsistentSessionState,
            SessionError::UnreadablePath { .. } => ErrorKind::FileSystem,
            SessionError::ScratchUnavailable => ErrorKind::FileSystem,
            SessionError::UnexpectedEvent => ErrorKind::Protocol,
        }
    }
}

} // verus!
