//! Formatting, mounting and releasing filesystems.

use vstd::prelude::*;
use crate::command::{run_command_result, CapturedOutput, Command, CommandView, Error};
use crate::steps::{
    asks_command, asks_directory, lenient_verdict, strict_verdict, Action, Progress,
};
use crate::text::{join, joined, lowercase_of, to_lowercase};

verus! {

/// A block device, and where it is to appear once it is in use.
#[derive(Clone, Debug, PartialEq, Eq)]
pub struct Partition {
    pub path: String,
    pub mountpoint: Option<String>,
}

/// The tool that makes a filesystem of the given kind, by the kind's
/// lowercase name. A kind is supported exactly when it has an entry here.
pub open spec fn format_tool(kind: Seq<char>) -> Option<Seq<char>> {
    if kind == "ext4"@ {
        Some("mkfs.ext4"@)
    } else {
        None
    }
}

/// Looks a lowercase filesystem name up in the table of formatting tools.
pub fn lookup_format_tool(kind: &String) -> (tool: Option<&'static str>)
    ensures
        match tool {
            Some(name) => format_tool(kind@) == Some(name@),
            None => format_tool(kind@) is None,
        },
{
    if *kind == String::from_str("ext4") {
        Some("mkfs.ext4")
    } else {
        None
    }
}

/// Format a partition.
#[derive(Debug, PartialEq, Eq)]
pub struct FormatPartition<'a> {
    /// The partition to format.
    pub partition: &'a Partition,
    /// The filesystem it is to have, by name, in any letter case.
    pub filesystem: String,
}

impl<'a> FormatPartition<'a> {
    /// The requested filesystem is one that a formatting tool is known for.
    pub open spec fn supported(&self) -> bool {
        format_tool(lowercase_of(self.filesystem@)) is Some
    }

    /// The formatting tool run against the partition's device.
    pub open spec fn command_spec(&self) -> CommandView {
        CommandView {
            program: format_tool(lowercase_of(self.filesystem@)).unwrap(),
            args: seq![self.partition.path@],
        }
    }

    /// How formatting ends: the formatting tool is judged by its exit status.
    pub open spec fn concludes(
        &self,
        outcome: Result<CapturedOutput, Error>,
        verdict: Result<(), Error>,
    ) -> bool {
        strict_verdict(self.command_spec().program, outcome, verdict)
    }

    /// The reply to each report while formatting.
    pub open spec fn replies(&self, progress: Progress, action: Action) -> bool {
        match progress {
            Progress::Start => asks_command(action, self.command_spec()),
            Progress::DirectoryCreated(Ok(_)) => asks_command(action, self.command_spec()),
            Progress::DirectoryCreated(Err(e)) => action == (Action::Finished {
                result: Err(e),
            }),
            Progress::CommandCaptured(outcome) => action matches Action::Finished { result }
                && self.concludes(outcome, result),
        }
    }

    pub fn title(&self) -> (text: String)
        ensures
            text@ == "Format partition"@,
    {
        String::from_str("Format partition")
    }

    pub fn describe(&self) -> (text: String)
        ensures
            text@ == self.partition.path@ + " as ext4"@,
    {
        let mut text = self.partition.path.clone();
        text.append(" as ext4");
        text
    }

    /// The command that formats the partition, or `None` when no tool is known
    /// for the requested filesystem.
    pub fn tool(&self) -> (command: Option<Command>)
        ensures
            self.supported() <==> command is Some,
            command matches Some(c) ==> c@ == self.command_spec(),
    {
        let kind = to_lowercase(self.filesystem.as_str());
        match lookup_format_tool(&kind) {
            Some(name) => {
                let mut command = Command::new(name);
                command.arg(self.partition.path.as_str());
                Some(command)
            },
            None => None,
        }
    }

    /// Whether a formatting tool is known for the requested filesystem.
    pub fn is_supported(&self) -> (known: bool)
        ensures
            known == self.supported(),
    {
        self.tool().is_some()
    }

    /// The command that formats the partition.
    pub fn command(&self) -> (command: Command)
        requires
            self.supported(),
        ensures
            command@ == self.command_spec(),
    {
        let kind = to_lowercase(self.filesystem.as_str());
        let name = lookup_format_tool(&kind).unwrap();
        let mut command = Command::new(name);
        command.arg(self.partition.path.as_str());
        command
    }

    /// Turns what the formatting tool came to into the step's result.
    pub fn conclude(&self, outcome: Result<CapturedOutput, Error>) -> (verdict: Result<(), Error>)
        requires
            self.supported(),
        ensures
            self.concludes(outcome, verdict),
    {
        let command = self.command();
        conclude_strict(&command, outcome)
    }

    /// Answers a report with the next thing to do.
    ///
    /// To ask for a filesystem that no tool is known for is a mistake of the
    /// caller and no failure of the run, so there is no error for it: this
    /// function is only for a supported filesystem. A caller that cannot
    /// know uses [`FormatPartition::try_execute`].
    pub fn execute(&self, progress: Progress) -> (action: Action)
        requires
            self.supported(),
        ensures
            self.replies(progress, action),
    {
        match progress {
            Progress::Start => Action::RunCaptured { command: self.command() },
            Progress::DirectoryCreated(Ok(_)) => Action::RunCaptured { command: self.command() },
            Progress::DirectoryCreated(Err(e)) => Action::Finished { result: Err(e) },
            Progress::CommandCaptured(outcome) => Action::Finished {
                result: self.conclude(outcome),
            },
        }
    }

    /// Answers a report with the next thing to do, or with `None`, and nothing
    /// done, when no tool is known for the requested filesystem.
    pub fn try_execute(&self, progress: Progress) -> (action: Option<Action>)
        ensures
            self.supported() <==> action is Some,
            action matches Some(a) ==> self.replies(progress, a),
    {
        if self.is_supported() {
            Some(self.execute(progress))
        } else {
            None
        }
    }
}

/// The reply of a step that prepares a directory and then runs one command:
/// the directory is asked for first, the command only once the directory is
/// reported ready, a failure to prepare ends the step with that failure, and
/// the command is judged by its exit status.
pub open spec fn mount_replies(
    directory: Seq<char>,
    command: CommandView,
    progress: Progress,
    action: Action,
) -> bool {
    match progress {
        Progress::Start => asks_directory(action, directory),
        Progress::DirectoryCreated(Ok(_)) => asks_command(action, command),
        Progress::DirectoryCreated(Err(e)) => action == (Action::Finished { result: Err(e) }),
        Progress::CommandCaptured(outcome) => action matches Action::Finished { result }
            && strict_verdict(command.program, outcome, result),
    }
}

/// Settles a step that judges its command by the exit status.
pub fn conclude_strict(command: &Command, outcome: Result<CapturedOutput, Error>) -> (verdict:
    Result<(), Error>)
    ensures
        strict_verdict(command@.program, outcome, verdict),
{
    match outcome {
        Ok(output) => run_command_result(command, output.status),
        Err(e) => Err(e),
    }
}

/// Settles a step that does not judge the exit status of its command.
pub fn conclude_lenient(outcome: Result<CapturedOutput, Error>) -> (verdict: Result<(), Error>)
    ensures
        lenient_verdict(outcome, verdict),
{
    match outcome {
        Ok(_) => Ok(()),
        Err(e) => Err(e),
    }
}

/// Mount a given partition.
#[derive(Debug, PartialEq, Eq)]
pub struct MountPartition<'a> {
    /// The partition to mount.
    pub partition: &'a Partition,
    /// Where it is mounted.
    pub mountpoint: String,
}

impl<'a> MountPartition<'a> {
    /// `mount <device> <mountpoint>`.
    pub open spec fn command_spec(&self) -> CommandView {
        CommandView { program: "mount"@, args: seq![self.partition.path@, self.mountpoint@] }
    }

    /// The reply to each report while mounting.
    pub open spec fn replies(&self, progress: Progress, action: Action) -> bool {
        mount_replies(self.mountpoint@, self.command_spec(), progress, action)
    }

    pub fn title(&self) -> (text: String)
        ensures
            text@ == "Mount filesystem"@,
    {
        String::from_str("Mount filesystem")
    }

    pub fn describe(&self) -> (text: String)
        ensures
            text@ == joined(self.partition.path@, " as "@, self.mountpoint@),
    {
        join(self.partition.path.as_str(), " as ", self.mountpoint.as_str())
    }

    /// The command that mounts the partition.
    pub fn command(&self) -> (command: Command)
        ensures
            command@ == self.command_spec(),
    {
        let mut command = Command::new("mount");
        command.arg(self.partition.path.as_str());
        command.arg(self.mountpoint.as_str());
        assert(command@.args =~= seq![self.partition.path@, self.mountpoint@]);
        command
    }

    /// Answers a report with the next thing to do.
    pub fn execute(&self, progress: Progress) -> (action: Action)
        ensures
            self.replies(progress, action),
    {
        match progress {
            Progress::Start => Action::CreateDirectory { path: self.mountpoint.clone() },
            Progress::DirectoryCreated(Ok(_)) => Action::RunCaptured { command: self.command() },
            Progress::DirectoryCreated(Err(e)) => Action::Finished { result: Err(e) },
            Progress::CommandCaptured(outcome) => Action::Finished {
                result: conclude_strict(&self.command(), outcome),
            },
        }
    }
}

/// Bind mount a source directory onto a destination directory.
#[derive(Debug, PartialEq, Eq)]
pub struct BindMount {
    /// The directory to expose.
    pub source: String,
    /// Where it appears a second time.
    pub dest: String,
}

impl BindMount {
    /// `mount --bind <source> <dest>`.
    pub open spec fn command_spec(&self) -> CommandView {
        CommandView { program: "mount"@, args: seq!["--bind"@, self.source@, self.dest@] }
    }

    /// The reply to each report while bind mounting.
    pub open spec fn replies(&self, progress: Progress, action: Action) -> bool {
        mount_replies(self.dest@, self.command_spec(), progress, action)
    }

    pub fn title(&self) -> (text: String)
        ensures
            text@ == "Bind mount filesystem"@,
    {
        String::from_str("Bind mount filesystem")
    }

    pub fn describe(&self) -> (text: String)
        ensures
            text@ == joined(self.source@, " on "@, self.dest@),
    {
        join(self.source.as_str(), " on ", self.dest.as_str())
    }

    /// The command that performs the bind mount.
    pub fn command(&self) -> (command: Command)
        ensures
            command@ == self.command_spec(),
    {
        let mut command = Command::new("mount");
        command.arg("--bind");
        command.arg(self.source.as_str());
        command.arg(self.dest.as_str());
        assert(command@.args =~= seq!["--bind"@, self.source@, self.dest@]);
        command
    }

    /// Answers a report with the next thing to do.
    pub fn execute(&self, progress: Progress) -> (action: Action)
        ensures
            self.replies(progress, action),
    {
        match progress {
            Progress::Start => Action::CreateDirectory { path: self.dest.clone() },
            Progress::DirectoryCreated(Ok(_)) => Action::RunCaptured { command: self.command() },
            Progress::DirectoryCreated(Err(e)) => Action::Finished { result: Err(e) },
            Progress::CommandCaptured(outcome) => Action::Finished {
                result: conclude_strict(&self.command(), outcome),
            },
        }
    }
}

/// Unmount a given mountpoint.
#[derive(Debug, PartialEq, Eq)]
pub struct Unmount {
    pub mountpoint: String,
}

impl Unmount {
    /// `umount <mountpoint>`.
    pub open spec fn command_spec(&self) -> CommandView {
        CommandView { program: "umount"@, args: seq![self.mountpoint@] }
    }

    /// The reply to each report while unmounting. No directory is needed, so
    /// the command is asked for at once. A mountpoint with nothing mounted on
    /// it makes the tool exit without success, which completes the step all
    /// the same; only a tool that could not be run fails it.
    pub open spec fn replies(&self, progress: Progress, action: Action) -> bool {
        match progress {
            Progress::Start => asks_command(action, self.command_spec()),
            Progress::DirectoryCreated(Ok(_)) => asks_command(action, self.command_spec()),
            Progress::DirectoryCreated(Err(e)) => action == (Action::Finished {
                result: Err(e),
            }),
            Progress::CommandCaptured(outcome) => action matches Action::Finished { result }
                && lenient_verdict(outcome, result),
        }
    }

    pub fn title(&self) -> (text: String)
        ensures
            text@ == "Unmount"@,
    {
        String::from_str("Unmount")
    }

    pub fn describe(&self) -> (text: String)
        ensures
            text@ == self.mountpoint@,
    {
        self.mountpoint.clone()
    }

    /// The command that detaches whatever is mounted at the mountpoint.
    pub fn command(&self) -> (command: Command)
        ensures
            command@ == self.command_spec(),
    {
        let mut command = Command::new("umount");
        command.arg(self.mountpoint.as_str());
        command
    }

    /// Answers a report with the next thing to do.
    pub fn execute(&self, progress: Progress) -> (action: Action)
        ensures
            self.replies(progress, action),
    {
        match progress {
            Progress::Start => Action::RunCaptured { command: self.command() },
            Progress::DirectoryCreated(Ok(_)) => Action::RunCaptured { command: self.command() },
            Progress::DirectoryCreated(Err(e)) => Action::Finished { result: Err(e) },
            Progress::CommandCaptured(outcome) => Action::Finished {
                result: conclude_lenient(outcome),
            },
        }
    }
}

/// A cleanup that flushes pending writes with `sync`.
#[derive(Debug, PartialEq, Eq)]
pub struct SyncFS {}

impl SyncFS {
    /// `sync`, with no arguments.
    pub open spec fn command_spec(&self) -> CommandView {
        CommandView { program: "sync"@, args: Seq::empty() }
    }

    /// The reply to each report while syncing. Syncing is best effort: once
    /// the command was attempted the step is complete, whatever became of it.
    pub open spec fn replies(&self, progress: Progress, action: Action) -> bool {
        match progress {
            Progress::CommandCaptured(_) => action == (Action::Finished { result: Ok(()) }),
            _ => asks_command(action, self.command_spec()),
        }
    }

    pub fn title(&self) -> (text: String)
        ensures
            text@ == "Sync"@,
    {
        String::from_str("Sync")
    }

    pub fn describe(&self) -> (text: String)
        ensures
            text@ == "filesystems"@,
    {
        String::from_str("filesystems")
    }

    /// The command that flushes pending writes.
    pub fn command(&self) -> (command: Command)
        ensures
            command@ == self.command_spec(),
    {
        Command::new("sync")
    }

    /// Answers a report with the next thing to do.
    pub fn execute(&self, progress: Progress) -> (action: Action)
        ensures
            self.replies(progress, action),
    {
        match progress {
            Progress::CommandCaptured(_) => Action::Finished { result: Ok(()) },
            _ => Action::RunCaptured { command: self.command() },
        }
    }
}

/// Two requests to format the same device, whose filesystem names differ in
/// letter case only, are supported alike and select the same tool with the
/// same arguments.
pub proof fn law_filesystem_name_ignores_case<'a>(one: FormatPartition<'a>, other: FormatPartition<'a>)
    requires
        lowercase_of(one.filesystem@) == lowercase_of(other.filesystem@),
        one.partition.path@ == other.partition.path@,
    ensures
        one.supported() == other.supported(),
        one.command_spec() == other.command_spec(),
{
}

/// A mount or a bind mount always asks for its destination directory first,
/// whether or not the directory is there already, and asks for the mount
/// command in answer to nothing but the report that the directory is ready.
pub proof fn law_directory_before_mount(
    directory: Seq<char>,
    command: CommandView,
    progress: Progress,
    action: Action,
)
    requires
        mount_replies(directory, command, progress, action),
    ensures
        progress is Start ==> asks_directory(action, directory),
        action is RunCaptured ==> asks_command(action, command)
            && progress matches Progress::DirectoryCreated(Ok(_)),
{
}

/// An unmount whose tool ran completes without an error, whatever the exit
/// status: unmounting a path with nothing mounted on it is no failure.
pub proof fn law_unmount_tolerates_exit_status(
    unmount: Unmount,
    output: CapturedOutput,
    action: Action,
)
    requires
        unmount.replies(Progress::CommandCaptured(Ok(output)), action),
    ensures
        action == (Action::Finished { result: Ok(()) }),
{
}

/// A sync never fails its run: however its command fared, it completes.
pub proof fn law_sync_never_fails(
    sync: SyncFS,
    outcome: Result<CapturedOutput, Error>,
    action: Action,
)
    requires
        sync.replies(Progress::CommandCaptured(outcome), action),
    ensures
        action == (Action::Finished { result: Ok(()) }),
{
}

} // verus!
