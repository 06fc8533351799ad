//! What a step asks the operating system to run, and what comes back.

use vstd::prelude::*;

verus! {

/// How a child process ended: its exit code, or `None` when a signal ended it.
#[derive(Clone, Copy, Debug, PartialEq, Eq, Structural)]
pub struct ExitStatus {
    pub code: Option<i32>,
}

impl ExitStatus {
    /// A process succeeded exactly when it exited with code zero.
    pub open spec fn is_success(self) -> bool {
        self.code == Some(0i32)
    }

    pub fn success(&self) -> (ok: bool)
        ensures
            ok == self.is_success(),
    {
        match self.code {
            Some(code) => code == 0,
            None => false,
        }
    }
}

/// A privileged tool and the argument vector it is started with.
#[derive(Clone, Debug, PartialEq, Eq)]
pub struct Command {
    pub program: String,
    pub args: Vec<String>,
}

/// The program name and the arguments of a [`Command`], as text.
pub struct CommandView {
    pub program: Seq<char>,
    pub args: Seq<Seq<char>>,
}

impl View for Command {
    type V = CommandView;

    open spec fn view(&self) -> CommandView {
        CommandView { program: self.program@, args: self.args.deep_view() }
    }
}

impl Command {
    /// A command with no arguments yet.
    pub fn new(program: &str) -> (cmd: Command)
        ensures
            cmd@ == (CommandView { program: program@, args: Seq::empty() }),
    {
        let cmd = Command { program: String::from_str(program), args: Vec::new() };
        assert(cmd.args.deep_view() =~= Seq::<Seq<char>>::empty());
        cmd
    }

    /// Appends one argument.
    pub fn arg(&mut self, value: &str)
        ensures
            final(self)@ == (CommandView {
                program: old(self)@.program,
                args: old(self)@.args.push(value@),
            }),
    {
        self.args.push(String::from_str(value));
        assert(self.args.deep_view() =~= old(self).args.deep_view().push(value@));
    }
}

/// Everything a finished child process left behind.
#[derive(Clone, Debug, PartialEq, Eq)]
pub struct CapturedOutput {
    pub status: ExitStatus,
    pub stdout: Vec<u8>,
    pub stderr: Vec<u8>,
}

/// Which mandatory part of a model is absent.
#[derive(Clone, Copy, Debug, PartialEq, Eq, Structural)]
pub enum MissingField {
    RootPartition,
    Locale,
}

/// The failures a run can end with.
#[derive(Clone, Debug, PartialEq, Eq)]
pub enum Error {
    /// A tool ran and exited without success.
    CommandFailed { program: String, status: ExitStatus },
    /// The operating system refused to spawn, feed or wait for a process, or
    /// to create a directory; `cause` is its own description of why.
    Io { cause: String },
    /// The model lacks something a plan cannot be built without.
    ModelIncomplete { missing: MissingField },
}

/// The verdict on a command that was run for its exit status alone: a status
/// other than success is a failure that names the program.
pub open spec fn status_verdict(program: Seq<char>, status: ExitStatus, verdict: Result<(), Error>) -> bool {
    if status.is_success() {
        verdict == Ok::<(), Error>(())
    } else {
        verdict matches Err(Error::CommandFailed { program: p, status: s }) && p@ == program && s
            == status
    }
}

/// Judges a finished command by its exit status.
pub fn run_command_result(command: &Command, status: ExitStatus) -> (verdict: Result<(), Error>)
    ensures
        status_verdict(command@.program, status, verdict),
{
    if status.success() {
        Ok(())
    } else {
        Err(Error::CommandFailed { program: command.program.clone(), status })
    }
}

} // verus!
