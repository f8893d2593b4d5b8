//! External commands as plain values, and what to make of how one ended.
//!
//! The library never starts a process.  It says which command is to be run
//! and is told afterwards how the run ended.

use vstd::prelude::*;
use vstd::string::*;
use crate::error::SessionError;
use crate::error::ErrorModel;
use crate::error::seen;
use crate::text::texts;
use crate::text::copy_texts;

verus! {

/// A command line, the directory it runs in, and whether its standard
/// streams are cut off.
#[derive(Clone, Debug, PartialEq, Eq)]
pub struct Command {
    pub program: String,
    pub args: Vec<String>,
    /// The working directory, or `None` for that of the caller.
    pub directory: Option<String>,
    /// Whether standard input, output and error are discarded.
    pub null_io: bool,
}

/// What a [`Command`] holds, as mathematical values.
pub ghost struct CommandModel {
    pub program: Seq<char>,
    pub args: Seq<Seq<char>>,
    pub directory: Option<Seq<char>>,
    pub null_io: bool,
}

impl View for Command {
    type V = CommandModel;

    open spec fn view(&self) -> CommandModel {
        CommandModel {
            program: self.program@,
            args: texts(self.args@),
            directory: match self.directory {
                Some(d) => Some(d@),
                None => None,
            },
            null_io: self.null_io,
        }
    }
}

/// How the run of a command ended.
#[derive(Clone, Copy, Debug, PartialEq, Eq, Structural)]
pub enum Outcome {
    /// The process could not be started.
    NotStarted,
    /// The process was killed by a signal.
    Signalled,
    /// The process ran to its end and left this exit code.
    Exited(i32),
}

impl Command {
    /// The command `program`, without arguments, in the caller's directory,
    /// with its streams attached.
    pub fn new(program: &str) -> (command: Command)
        ensures
            command@ == (CommandModel {
                program: program@,
                args: Seq::empty(),
                directory: None,
                null_io: false,
            }),
    {
        let command = Command {
            program: String::from_str(program),
            args: Vec::new(),
            directory: None,
            null_io: false,
        };
        assert(command@.args =~= Seq::empty());
        command
    }

    /// Adds one argument at the end.
    pub fn arg(&mut self, arg: &str)
        ensures
            final(self)@ == (CommandModel { args: old(self)@.args.push(arg@), ..old(self)@ }),
    {
        self.args.push(String::from_str(arg));
        assert(texts(self.args@) =~= texts(old(self).args@).push(arg@));
    }

    /// Adds the arguments of `more` at the end, in order.
    pub fn args(&mut self, more: &Vec<String>)
        ensures
            final(self)@ == (CommandModel { args: old(self)@.args + texts(more@), ..old(self)@ }),
    {
        let mut i: usize = 0;
        while i < more.len()
            invariant
                i <= more.len(),
                self.program == old(self).program,
                self.directory == old(self).directory,
                self.null_io == old(self).null_io,
                texts(self.args@) == texts(old(self).args@) + texts(more@).take(i as int),
            decreases more.len() - i,
        {
            let ghost before = texts(self.args@);
            self.args.push(more[i].clone());
            assert(texts(self.args@) =~= before.push(more@[i as int]@));
            assert(texts(more@).take(i + 1) =~= texts(more@).take(i as int).push(more@[i as int]@));
            i = i + 1;
        }
        assert(texts(more@).take(i as int) =~= texts(more@));
    }

    /// Sets the directory that the command runs in.
    pub fn current_dir(&mut self, directory: &str)
        ensures
            final(self)@ == (CommandModel { directory: Some(directory@), ..old(self)@ }),
    {
        self.directory = Some(String::from_str(directory));
    }

    /// Cuts the command off from standard input, output and error.
    pub fn null_io(&mut self)
        ensures
            final(self)@ == (CommandModel { null_io: true, ..old(self)@ }),
    {
        self.null_io = true;
    }

    /// A copy of this command.
    pub fn duplicate(&self) -> (copy: Command)
        ensures
            copy@ == self@,
    {
        Command {
            program: self.program.clone(),
            args: copy_texts(&self.args),
            directory: match &self.directory {
                Some(d) => Some(d.clone()),
                None => None,
            },
            null_io: self.null_io,
        }
    }

    /// Whether the command ended with exit code 0, for a command that is
    /// run as a question.  Fails only where the process did not start.
    pub fn clean_exit_status(&self, outcome: Outcome) -> (r: Result<bool, SessionError>)
        ensures
            seen(r) == answer_of(self@, outcome),
    {
        match outcome {
            Outcome::NotStarted => Err(SessionError::ToolNotStarted { command: self.duplicate() }),
            Outcome::Signalled => Ok(false),
            Outcome::Exited(code) => Ok(code == 0),
        }
    }

    /// The exit code that the command left.  Fails where the process did
    /// not start or was killed by a signal.
    pub fn clean_exit_code(&self, outcome: Outcome) -> (r: Result<i32, SessionError>)
        ensures
            seen(r) == exit_code_of(self@, outcome),
    {
        match outcome {
            Outcome::NotStarted => Err(SessionError::ToolNotStarted { command: self.duplicate() }),
            Outcome::Signalled => Err(SessionError::ToolSignalled { command: self.duplicate() }),
            Outcome::Exited(code) => Ok(code),
        }
    }

    /// Succeeds exactly where the command ended with exit code 0, and says
    /// otherwise which of the three ways of failing it was.
    pub fn success_or_err(&self, outcome: Outcome) -> (r: Result<(), SessionError>)
        ensures
            seen(r) == success_of(self@, outcome),
    {
        match outcome {
            Outcome::NotStarted => Err(SessionError::ToolNotStarted { command: self.duplicate() }),
            Outcome::Signalled => Err(SessionError::ToolSignalled { command: self.duplicate() }),
            Outcome::Exited(code) => {
                if code == 0 {
                    Ok(())
                } else {
                    Err(SessionError::ToolFailed { command: self.duplicate(), code })
                }
            },
        }
    }
}

/// The answer of a command that is run as a question: yes for exit code
/// 0, no for any other end, an error where the process did not start.
pub open spec fn answer_of(command: CommandModel, outcome: Outcome) -> Result<bool, ErrorModel> {
    match outcome {
        Outcome::NotStarted => Err(ErrorModel::ToolNotStarted { command }),
        Outcome::Signalled => Ok(false),
        Outcome::Exited(code) => Ok(code == 0),
    }
}

/// The exit code of a command that ran to its end.
pub open spec fn exit_code_of(command: CommandModel, outcome: Outcome) -> Result<i32, ErrorModel> {
    match outcome {
        Outcome::NotStarted => Err(ErrorModel::ToolNotStarted { command }),
        Outcome::Signalled => Err(ErrorModel::ToolSignalled { command }),
        Outcome::Exited(code) => Ok(code),
    }
}

/// Success for exit code 0, and for any other end the error that stands
/// for it.
pub open spec fn success_of(command: CommandModel, outcome: Outcome) -> Result<(), ErrorModel> {
    if outcome == Outcome::Exited(0) {
        Ok(())
    } else {
        Err(tool_failure(command, outcome))
    }
}

/// The error that stands for a run of `command` that did not end with exit
/// code 0.
pub open spec fn tool_failure(command: CommandModel, outcome: Outcome) -> ErrorModel {
    match outcome {
        Outcome::NotStarted => ErrorModel::ToolNotStarted { command },
        Outcome::Signalled => ErrorModel::ToolSignalled { command },
        Outcome::Exited(code) => ErrorModel::ToolFailed { command, code },
    }
}

} // verus!
