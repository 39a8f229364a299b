//! Commands of the operating system.

use vstd::prelude::*;

use crate::text::chars::concat2;

verus! {

/// A command to run: the program, its arguments, and the variables that are
/// set for it.
#[derive(Debug)]
pub struct CommandLine {
    pub program: String,
    pub args: Vec<String>,
    pub envs: Vec<(String, String)>,
}

/// What a command left behind.
#[derive(Debug)]
pub struct CommandOutput {
    /// Whether the command ended with exit code 0.
    pub success: bool,
    pub stdout: String,
    pub stderr: String,
}

/// Why a command has no result.
#[derive(Debug)]
pub enum CommandError {
    /// It could not be started.
    SpawnFailed(String),
    /// It took too long.
    Timeout,
    /// It was cancelled.
    Cancelled,
    /// Its end could not be awaited.
    WaitFailed(String),
}

impl CommandError {
    /// The description of the error.
    pub open spec fn text(self) -> Seq<char> {
        match self {
            CommandError::SpawnFailed(e) => "Failed to spawn command: "@ + e@,
            CommandError::Timeout => "Command timed out"@,
            CommandError::Cancelled => "Command was cancelled"@,
            CommandError::WaitFailed(e) => "Failed to wait for command: "@ + e@,
        }
    }

    /// Describes the error.
    pub fn to_text(&self) -> (r: String)
        ensures
            r@ == self.text(),
    {
        match self {
            CommandError::SpawnFailed(e) => concat2("Failed to spawn command: ", e.as_str()),
            CommandError::Timeout => "Command timed out".to_owned(),
            CommandError::Cancelled => "Command was cancelled".to_owned(),
            CommandError::WaitFailed(e) => concat2("Failed to wait for command: ", e.as_str()),
        }
    }
}

/// How a streamed command came to its end.
#[derive(Clone, Copy, Debug, PartialEq, Eq, Structural)]
pub struct CommandResult {
    /// The exit code; none where a signal ended the command.
    pub exit_code: Option<i32>,
    /// Whether the time limit ended it.
    pub timed_out: bool,
}

/// What ended the wait for a command.
#[derive(Debug)]
pub enum WaitEvent {
    /// The command was cancelled and killed.
    Cancelled,
    /// The time limit passed and the command was killed; its exit code, or
    /// why that could not be awaited.
    TimedOut(Result<Option<i32>, String>),
    /// The command ended by itself.
    Exited(Result<Option<i32>, String>),
}

/// Runs commands.
pub struct CommandRunner;

impl CommandRunner {
    /// The shell command line for a command text.
    pub fn shell(command: &str) -> (r: CommandLine)
        ensures
            r.program@ == "sh"@,
            r.args@.len() == 2,
            r.args@[0]@ == "-c"@,
            r.args@[1]@ == command@,
            r.envs@.len() == 0,
    {
        let mut args: Vec<String> = Vec::new();
        args.push("-c".to_owned());
        args.push(command.to_owned());
        CommandLine { program: "sh".to_owned(), args, envs: Vec::new() }
    }

    /// What a streamed command gives, by what ended the wait for it.
    pub fn conclude(event: WaitEvent) -> (r: Result<CommandResult, CommandError>)
        ensures
            match event {
                WaitEvent::Cancelled => r is Err && r->Err_0 is Cancelled,
                WaitEvent::TimedOut(Ok(code)) => r == Ok::<CommandResult, CommandError>(
                    CommandResult { exit_code: code, timed_out: true },
                ),
                WaitEvent::Exited(Ok(code)) => r == Ok::<CommandResult, CommandError>(
                    CommandResult { exit_code: code, timed_out: false },
                ),
                WaitEvent::TimedOut(Err(e)) => r == Err::<CommandResult, CommandError>(
                    CommandError::WaitFailed(e),
                ),
                WaitEvent::Exited(Err(e)) => r == Err::<CommandResult, CommandError>(
                    CommandError::WaitFailed(e),
                ),
            },
    {
        match event {
            WaitEvent::Cancelled => Err(CommandError::Cancelled),
            WaitEvent::TimedOut(Ok(code)) => Ok(
                CommandResult { exit_code: code, timed_out: true },
            ),
            WaitEvent::Exited(Ok(code)) => Ok(CommandResult { exit_code: code, timed_out: false }),
            WaitEvent::TimedOut(Err(e)) => Err(CommandError::WaitFailed(e)),
            WaitEvent::Exited(Err(e)) => Err(CommandError::WaitFailed(e)),
        }
    }
}

} // verus!
