//! The execution context: where the installation is aimed, and the order of
//! events when a command is run with its output captured.

use vstd::prelude::*;
use crate::command::{CapturedOutput, Command, Error};

verus! {

/// The one context of a run. Every step of the run shares it and none
/// changes it.
#[derive(Debug, PartialEq, Eq)]
pub struct Context {
    root: String,
}

impl Context {
    /// The filesystem root the installation targets.
    pub closed spec fn root_spec(&self) -> Seq<char> {
        self.root@
    }

    pub fn new(root: &str) -> (context: Context)
        ensures
            context.root_spec() == root@,
    {
        Context { root: String::from_str(root) }
    }

    /// The filesystem root the installation targets.
    pub fn root(&self) -> (root: &String)
        ensures
            root@ == self.root_spec(),
    {
        &self.root
    }
}

/// How far a captured run has come.
#[derive(Clone, Copy, Debug, PartialEq, Eq, Structural)]
pub enum CaptureStage {
    /// The child is being spawned.
    Spawning,
    /// The input is being written to the child.
    Writing,
    /// The child's input stream is being closed.
    Closing,
    /// The child is being waited for.
    Waiting,
    /// The run is over.
    Returned,
}

/// What the caller reports of a captured run.
#[derive(Debug, PartialEq, Eq)]
pub enum CaptureReport {
    Spawned(Result<(), Error>),
    Written(Result<(), Error>),
    Closed,
    Exited(Result<CapturedOutput, Error>),
}

/// What the caller is to do next in a captured run.
#[derive(Debug, PartialEq, Eq)]
pub enum CaptureAction {
    /// Spawn the command with its input, output and errors piped.
    Spawn { command: Command },
    /// Write the whole of `input` to the child's input stream.
    Write { input: String },
    /// Close the child's input stream.
    Close,
    /// Wait for the child to end and collect what it wrote.
    Wait,
    /// Hand this back to whoever asked for the run.
    Return { result: Result<CapturedOutput, Error> },
}

/// A command being run with its output captured and, if some is given, its
/// input fed.
#[derive(Debug, PartialEq, Eq)]
pub struct Capture {
    pub stage: CaptureStage,
    /// What is still to be written to the child.
    pub input: Option<String>,
    /// Why writing failed, kept back until the input stream is closed.
    pub failure: Option<Error>,
    /// The child's input stream was closed.
    pub input_closed: bool,
}

impl Capture {
    /// The states a captured run passes through: nothing is written before
    /// the child is there, a write failure is only ever held while the input
    /// stream is being closed, and the child is only ever waited for with
    /// its input stream closed.
    pub open spec fn wf(&self) -> bool {
        match self.stage {
            CaptureStage::Spawning => !self.input_closed && self.failure is None,
            CaptureStage::Writing => !self.input_closed && self.failure is None && self.input
                is None,
            CaptureStage::Closing => !self.input_closed && self.input is None,
            CaptureStage::Waiting => self.input_closed && self.failure is None && self.input
                is None,
            CaptureStage::Returned => self.failure is None && self.input is None,
        }
    }

    /// The state a report leads to and the action it calls for. A failure to
    /// spawn ends the run; after that the input stream is closed on every
    /// path, a failed write included, before the child is waited for or the
    /// run ends; a child that ended is handed back with whatever status it
    /// has. A report that does not fit the stage changes nothing and calls
    /// for nothing.
    pub open spec fn follows(
        &self,
        report: CaptureReport,
        next: Capture,
        action: Option<CaptureAction>,
    ) -> bool {
        match (self.stage, report) {
            (CaptureStage::Spawning, CaptureReport::Spawned(Ok(_))) => match self.input {
                Some(input) => {
                    &&& action == Some(CaptureAction::Write { input })
                    &&& next == (Capture {
                        stage: CaptureStage::Writing,
                        input: None,
                        failure: None,
                        input_closed: false,
                    })
                },
                None => {
                    &&& action == Some(CaptureAction::Close)
                    &&& next == (Capture {
                        stage: CaptureStage::Closing,
                        input: None,
                        failure: None,
                        input_closed: false,
                    })
                },
            },
            (CaptureStage::Spawning, CaptureReport::Spawned(Err(e))) => {
                &&& action == Some(CaptureAction::Return { result: Err(e) })
                &&& next == (Capture {
                    stage: CaptureStage::Returned,
                    input: None,
                    failure: None,
                    input_closed: false,
                })
            },
            (CaptureStage::Writing, CaptureReport::Written(written)) => {
                &&& action == Some(CaptureAction::Close)
                &&& next == (Capture {
                    stage: CaptureStage::Closing,
                    input: None,
                    failure: match written {
                        Ok(_) => None,
                        Err(e) => Some(e),
                    },
                    input_closed: false,
                })
            },
            (CaptureStage::Closing, CaptureReport::Closed) => match self.failure {
                Some(e) => {
                    &&& action == Some(CaptureAction::Return { result: Err(e) })
                    &&& next == (Capture {
                        stage: CaptureStage::Returned,
                        input: None,
                        failure: None,
                        input_closed: true,
                    })
                },
                None => {
                    &&& action == Some(CaptureAction::Wait)
                    &&& next == (Capture {
                        stage: CaptureStage::Waiting,
                        input: None,
                        failure: None,
                        input_closed: true,
                    })
                },
            },
            (CaptureStage::Waiting, CaptureReport::Exited(outcome)) => {
                &&& action == Some(CaptureAction::Return { result: outcome })
                &&& next == (Capture {
                    stage: CaptureStage::Returned,
                    input: None,
                    failure: None,
                    input_closed: self.input_closed,
                })
            },
            _ => action is None && next == *self,
        }
    }

    /// Begins a captured run of `command`, with `input` to feed to it if
    /// there is any. The first thing to do is to spawn the command.
    pub fn start(command: Command, input: Option<String>) -> (begun: (Capture, CaptureAction))
        ensures
            begun.0 == (Capture {
                stage: CaptureStage::Spawning,
                input,
                failure: None,
                input_closed: false,
            }),
            begun.0.wf(),
            begun.1 == (CaptureAction::Spawn { command }),
    {
        let capture = Capture {
            stage: CaptureStage::Spawning,
            input,
            failure: None,
            input_closed: false,
        };
        (capture, CaptureAction::Spawn { command })
    }

    /// Takes a report and says what to do next, or `None` when the report
    /// does not fit the stage the run is in.
    pub fn advance(&mut self, report: CaptureReport) -> (action: Option<CaptureAction>)
        ensures
            old(self).follows(report, *final(self), action),
            old(self).wf() ==> final(self).wf(),
    {
        match (self.stage, report) {
            (CaptureStage::Spawning, CaptureReport::Spawned(Ok(_))) => {
                let input = self.input.take();
                self.failure = None;
                self.input_closed = false;
                match input {
                    Some(input) => {
                        self.stage = CaptureStage::Writing;
                        Some(CaptureAction::Write { input })
                    },
                    None => {
                        self.stage = CaptureStage::Closing;
                        Some(CaptureAction::Close)
                    },
                }
            },
            (CaptureStage::Spawning, CaptureReport::Spawned(Err(e))) => {
                self.stage = CaptureStage::Returned;
                self.input = None;
                self.failure = None;
                self.input_closed = false;
                Some(CaptureAction::Return { result: Err(e) })
            },
            (CaptureStage::Writing, CaptureReport::Written(written)) => {
                self.stage = CaptureStage::Closing;
                self.input = None;
                self.failure = match written {
                    Ok(_) => None,
                    Err(e) => Some(e),
                };
                self.input_closed = false;
                Some(CaptureAction::Close)
            },
            (CaptureStage::Closing, CaptureReport::Closed) => {
                let failure = self.failure.take();
                self.input = None;
                self.input_closed = true;
                match failure {
                    Some(e) => {
                        self.stage = CaptureStage::Returned;
                        Some(CaptureAction::Return { result: Err(e) })
                    },
                    None => {
                        self.stage = CaptureStage::Waiting;
                        Some(CaptureAction::Wait)
                    },
                }
            },
            (CaptureStage::Waiting, CaptureReport::Exited(outcome)) => {
                self.stage = CaptureStage::Returned;
                self.input = None;
                self.failure = None;
                Some(CaptureAction::Return { result: outcome })
            },
            _ => None,
        }
    }
}

/// Once the child is there, a captured run does not end before the child's
/// input stream is closed, whether or not writing to it worked and however
/// the child fared.
pub proof fn law_input_closed_before_return(
    capture: Capture,
    report: CaptureReport,
    next: Capture,
    action: Option<CaptureAction>,
)
    requires
        capture.wf(),
        capture.follows(report, next, action),
        action matches Some(CaptureAction::Return { .. }),
        capture.stage != CaptureStage::Spawning,
    ensures
        next.input_closed,
{
}

/// A supplied input is handed over for writing whole, as soon as the child
/// is there.
pub proof fn law_whole_input_written(
    capture: Capture,
    next: Capture,
    action: Option<CaptureAction>,
)
    requires
        capture.stage == CaptureStage::Spawning,
        capture.input is Some,
        capture.follows(CaptureReport::Spawned(Ok(())), next, action),
    ensures
        action == Some(CaptureAction::Write { input: capture.input.unwrap() }),
{
}

} // verus!
