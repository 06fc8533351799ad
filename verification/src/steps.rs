//! The step abstraction: what a step reports of itself, and the exchange by
//! which it is carried out.
//!
//! A step never touches the machine. It is asked what to do next, given what
//! the last thing it asked for came to, and answers with one [`Action`]; the
//! caller performs the action and reports back with a [`Progress`].

use vstd::prelude::*;
use crate::command::{status_verdict, CapturedOutput, Command, CommandView, Error};
use crate::steps::partitions::{BindMount, FormatPartition, MountPartition, SyncFS, Unmount};
use crate::text::joined;

pub mod partitions;

verus! {

/// What the caller reports to a step.
#[derive(Debug, PartialEq, Eq)]
pub enum Progress {
    /// Nothing has been done yet.
    Start,
    /// The directory the step asked for was created, or could not be.
    DirectoryCreated(Result<(), Error>),
    /// The command the step asked for ran to its end, or could not be run.
    CommandCaptured(Result<CapturedOutput, Error>),
}

/// What a step asks of the caller next.
#[derive(Debug, PartialEq, Eq)]
pub enum Action {
    /// Create this directory and every missing parent; an existing one is fine.
    CreateDirectory { path: String },
    /// Run this command with its output captured and no input.
    RunCaptured { command: Command },
    /// The step is over, with this result.
    Finished { result: Result<(), Error> },
}

/// The action asks for exactly this directory.
pub open spec fn asks_directory(action: Action, path: Seq<char>) -> bool {
    action matches Action::CreateDirectory { path: asked } && asked@ == path
}

/// The action asks for exactly this command.
pub open spec fn asks_command(action: Action, command: CommandView) -> bool {
    action matches Action::RunCaptured { command: asked } && asked@ == command
}

/// How a step that judges its command by the exit status ends: a command
/// that could not be run fails the step with the same error, one that ran
/// without success fails it with an error that names the program and the
/// status, and one that succeeded completes it.
pub open spec fn strict_verdict(
    program: Seq<char>,
    outcome: Result<CapturedOutput, Error>,
    verdict: Result<(), Error>,
) -> bool {
    match outcome {
        Ok(output) => status_verdict(program, output.status, verdict),
        Err(e) => verdict == Err::<(), Error>(e),
    }
}

/// How a step that shrugs off the exit status of its command ends: a command
/// that could not be run fails the step with the same error, and any command
/// that ran, whatever its status, completes it.
pub open spec fn lenient_verdict(
    outcome: Result<CapturedOutput, Error>,
    verdict: Result<(), Error>,
) -> bool {
    match outcome {
        Ok(_) => verdict == Ok::<(), Error>(()),
        Err(e) => verdict == Err::<(), Error>(e),
    }
}

/// One unit of the forward plan.
#[derive(Debug, PartialEq, Eq)]
pub enum Step<'a> {
    Format(FormatPartition<'a>),
    Mount(MountPartition<'a>),
    Bind(BindMount),
}

impl<'a> Step<'a> {
    /// The step can be carried out: a formatting step names a filesystem that
    /// a tool is known for. Every other step always can.
    pub open spec fn supported(&self) -> bool {
        match self {
            Step::Format(format) => format.supported(),
            _ => true,
        }
    }

    /// The reply to each report, by the kind of step.
    pub open spec fn replies(&self, progress: Progress, action: Action) -> bool {
        match self {
            Step::Format(format) => format.replies(progress, action),
            Step::Mount(mount) => mount.replies(progress, action),
            Step::Bind(bind) => bind.replies(progress, action),
        }
    }

    pub fn title(&self) -> (text: String)
        ensures
            text@ == match self {
                Step::Format(_) => "Format partition"@,
                Step::Mount(_) => "Mount filesystem"@,
                Step::Bind(_) => "Bind mount filesystem"@,
            },
    {
        match self {
            Step::Format(format) => format.title(),
            Step::Mount(mount) => mount.title(),
            Step::Bind(bind) => bind.title(),
        }
    }

    pub fn describe(&self) -> (text: String)
        ensures
            text@ == match self {
                Step::Format(format) => format.partition.path@ + " as ext4"@,
                Step::Mount(mount) => joined(mount.partition.path@, " as "@, mount.mountpoint@),
                Step::Bind(bind) => joined(bind.source@, " on "@, bind.dest@),
            },
    {
        match self {
            Step::Format(format) => format.describe(),
            Step::Mount(mount) => mount.describe(),
            Step::Bind(bind) => bind.describe(),
        }
    }

    /// Every filesystem step waits on a tool that reports no progress, so
    /// none of them can be counted down.
    pub fn is_indeterminate(&self) -> (spinner: bool)
        ensures
            spinner,
    {
        true
    }

    /// Whether the step can be carried out.
    pub fn is_supported(&self) -> (known: bool)
        ensures
            known == self.supported(),
    {
        match self {
            Step::Format(format) => format.is_supported(),
            _ => true,
        }
    }

    /// Answers a report with the next thing to do.
    pub fn execute(&self, progress: Progress) -> (action: Action)
        requires
            self.supported(),
        ensures
            self.replies(progress, action),
    {
        match self {
            Step::Format(format) => format.execute(progress),
            Step::Mount(mount) => mount.execute(progress),
            Step::Bind(bind) => bind.execute(progress),
        }
    }

    /// Answers a report with the next thing to do, or with `None`, and nothing
    /// done, when the step cannot be carried out.
    pub fn try_execute(&self, progress: Progress) -> (action: Option<Action>)
        ensures
            self.supported() <==> action is Some,
            action matches Some(a) ==> self.replies(progress, a),
    {
        if self.is_supported() {
            Some(self.execute(progress))
        } else {
            None
        }
    }
}

/// One unit of the tail of a plan, run after the forward steps.
#[derive(Debug, PartialEq, Eq)]
pub enum Cleanup {
    Unmount(Unmount),
    Sync(SyncFS),
}

impl Cleanup {
    /// The reply to each report, by the kind of cleanup.
    pub open spec fn replies(&self, progress: Progress, action: Action) -> bool {
        match self {
            Cleanup::Unmount(unmount) => unmount.replies(progress, action),
            Cleanup::Sync(sync) => sync.replies(progress, action),
        }
    }

    pub fn title(&self) -> (text: String)
        ensures
            text@ == match self {
                Cleanup::Unmount(_) => "Unmount"@,
                Cleanup::Sync(_) => "Sync"@,
            },
    {
        match self {
            Cleanup::Unmount(unmount) => unmount.title(),
            Cleanup::Sync(sync) => sync.title(),
        }
    }

    pub fn describe(&self) -> (text: String)
        ensures
            text@ == match self {
                Cleanup::Unmount(unmount) => unmount.mountpoint@,
                Cleanup::Sync(_) => "filesystems"@,
            },
    {
        match self {
            Cleanup::Unmount(unmount) => unmount.describe(),
            Cleanup::Sync(sync) => sync.describe(),
        }
    }

    /// Answers a report with the next thing to do.
    pub fn execute(&self, progress: Progress) -> (action: Action)
        ensures
            self.replies(progress, action),
    {
        match self {
            Cleanup::Unmount(unmount) => unmount.execute(progress),
            Cleanup::Sync(sync) => sync.execute(progress),
        }
    }
}

/// A forward step, as the texts it is made of.
pub enum StepView {
    Format { device: Seq<char>, filesystem: Seq<char> },
    Mount { device: Seq<char>, mountpoint: Seq<char> },
    Bind { source: Seq<char>, dest: Seq<char> },
}

impl<'a> View for Step<'a> {
    type V = StepView;

    open spec fn view(&self) -> StepView {
        match self {
            Step::Format(format) => StepView::Format {
                device: format.partition.path@,
                filesystem: format.filesystem@,
            },
            Step::Mount(mount) => StepView::Mount {
                device: mount.partition.path@,
                mountpoint: mount.mountpoint@,
            },
            Step::Bind(bind) => StepView::Bind { source: bind.source@, dest: bind.dest@ },
        }
    }
}

impl<'a> DeepView for Step<'a> {
    type V = StepView;

    open spec fn deep_view(&self) -> StepView {
        self@
    }
}

/// A cleanup, as the texts it is made of.
pub enum CleanupView {
    Unmount { mountpoint: Seq<char> },
    Sync,
}

impl View for Cleanup {
    type V = CleanupView;

    open spec fn view(&self) -> CleanupView {
        match self {
            Cleanup::Unmount(unmount) => CleanupView::Unmount { mountpoint: unmount.mountpoint@ },
            Cleanup::Sync(_) => CleanupView::Sync,
        }
    }
}

impl DeepView for Cleanup {
    type V = CleanupView;

    open spec fn deep_view(&self) -> CleanupView {
        self@
    }
}

} // verus!
