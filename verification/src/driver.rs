//! The execution driver: walks the forward steps of a plan in order, then
//! its cleanups, and stops at the first failure.

use vstd::prelude::*;
use crate::command::Error;
use crate::steps::{Cleanup, Step};

verus! {

/// Where a run stands, with the failure left out.
#[derive(PartialEq, Eq, Structural)]
pub enum Course {
    /// The forward step at this index is next.
    Running(nat),
    /// The cleanup at this index is next.
    Cleaning(nat),
    /// Every step and every cleanup succeeded.
    Done,
    /// A step or a cleanup failed, and nothing after it was touched.
    Aborted,
}

/// Where a run of `steps` forward steps and `cleanups` cleanups stands when
/// the unit at `position` of its forward steps, or of its cleanups once
/// `cleaning`, is the next in line: units that are not there are passed over.
pub open spec fn settled(steps: nat, cleanups: nat, cleaning: bool, position: nat) -> Course {
    if !cleaning && position < steps {
        Course::Running(position)
    } else if !cleaning && cleanups > 0 {
        Course::Cleaning(0)
    } else if cleaning && position < cleanups {
        Course::Cleaning(position)
    } else {
        Course::Done
    }
}

/// Where a run begins.
pub open spec fn entering(steps: nat, cleanups: nat) -> Course {
    settled(steps, cleanups, false, 0)
}

/// Where a run stands once the unit that was next has succeeded or failed.
/// A success moves on to the unit after it; a failure aborts the run; a run
/// that is over stays as it is.
pub open spec fn after(course: Course, steps: nat, cleanups: nat, succeeded: bool) -> Course {
    match course {
        Course::Running(position) => if succeeded {
            settled(steps, cleanups, false, position + 1)
        } else {
            Course::Aborted
        },
        Course::Cleaning(position) => if succeeded {
            settled(steps, cleanups, true, position + 1)
        } else {
            Course::Aborted
        },
        Course::Done => Course::Done,
        Course::Aborted => Course::Aborted,
    }
}

/// The run is over: nothing is next in line.
pub open spec fn is_over(course: Course) -> bool {
    course is Done || course is Aborted
}

/// Where a run stands after the given results, the earliest first.
pub open spec fn replay(steps: nat, cleanups: nat, results: Seq<bool>) -> Course
    decreases results.len(),
{
    if results.len() == 0 {
        entering(steps, cleanups)
    } else {
        after(replay(steps, cleanups, results.drop_last()), steps, cleanups, results.last())
    }
}

/// Where a run stands.
#[derive(Debug, PartialEq, Eq)]
pub enum Phase {
    Running { position: usize },
    Cleaning { position: usize },
    Done,
    Aborted { failure: Error },
}

impl View for Phase {
    type V = Course;

    open spec fn view(&self) -> Course {
        match self {
            Phase::Running { position } => Course::Running(*position as nat),
            Phase::Cleaning { position } => Course::Cleaning(*position as nat),
            Phase::Done => Course::Done,
            Phase::Aborted { .. } => Course::Aborted,
        }
    }
}

/// The unit of a plan that is next in line.
#[derive(Debug, PartialEq, Eq)]
pub enum Pending<'p, 'a> {
    Step(&'p Step<'a>),
    Cleanup(&'p Cleanup),
    Nothing,
}

/// One run over a plan.
#[derive(Debug, PartialEq, Eq)]
pub struct Driver<'p, 'a> {
    steps: &'p Vec<Step<'a>>,
    cleanups: &'p Vec<Cleanup>,
    phase: Phase,
}

impl<'p, 'a> Driver<'p, 'a> {
    #[verifier::type_invariant]
    spec fn in_bounds(self) -> bool {
        match self.phase {
            Phase::Running { position } => position < self.steps.len(),
            Phase::Cleaning { position } => position < self.cleanups.len(),
            _ => true,
        }
    }

    /// The forward steps of the plan.
    pub closed spec fn steps(&self) -> Seq<Step<'a>> {
        self.steps@
    }

    /// The cleanups of the plan.
    pub closed spec fn cleanups(&self) -> Seq<Cleanup> {
        self.cleanups@
    }

    /// Where the run stands, with the failure if there is one.
    pub closed spec fn phase_spec(&self) -> Phase {
        self.phase
    }

    /// Where the run stands.
    pub open spec fn course(&self) -> Course {
        self.phase_spec()@
    }

    /// A run over `steps` and then `cleanups`, with nothing done yet.
    pub fn new(cleanups: &'p Vec<Cleanup>, steps: &'p Vec<Step<'a>>) -> (driver: Driver<'p, 'a>)
        ensures
            driver.steps() == steps@,
            driver.cleanups() == cleanups@,
            driver.course() == entering(steps.len() as nat, cleanups.len() as nat),
    {
        let phase = if steps.len() > 0 {
            Phase::Running { position: 0 }
        } else if cleanups.len() > 0 {
            Phase::Cleaning { position: 0 }
        } else {
            Phase::Done
        };
        Driver { steps, cleanups, phase }
    }

    /// Where the run stands.
    pub fn phase(&self) -> (phase: &Phase)
        ensures
            *phase == self.phase_spec(),
    {
        &self.phase
    }

    /// The unit to carry out next: the forward step or the cleanup that the
    /// run has come to, or nothing when the run is over.
    pub fn pending(&self) -> (unit: Pending<'p, 'a>)
        ensures
            match self.course() {
                Course::Running(position) => position < self.steps().len() && unit
                    == Pending::Step(&self.steps()[position as int]),
                Course::Cleaning(position) => position < self.cleanups().len() && unit
                    == Pending::Cleanup(&self.cleanups()[position as int]),
                _ => unit is Nothing,
            },
    {
        proof {
            use_type_invariant(self);
        }
        match &self.phase {
            Phase::Running { position } => Pending::Step(&self.steps[*position]),
            Phase::Cleaning { position } => Pending::Cleanup(&self.cleanups[*position]),
            _ => Pending::Nothing,
        }
    }

    /// Takes the result of the unit that was next. A success moves the run on
    /// to the following unit, a failure aborts it and is kept; on a run that
    /// is over the result is dropped.
    pub fn record(&mut self, result: Result<(), Error>)
        ensures
            final(self).steps() == old(self).steps(),
            final(self).cleanups() == old(self).cleanups(),
            final(self).course() == after(
                old(self).course(),
                old(self).steps().len(),
                old(self).cleanups().len(),
                result is Ok,
            ),
            is_over(old(self).course()) ==> final(self).phase_spec() == old(self).phase_spec(),
            !is_over(old(self).course()) ==> (result matches Err(e) ==> final(self).phase_spec()
                == (Phase::Aborted { failure: e })),
    {
        proof {
            use_type_invariant(&*self);
        }
        match &self.phase {
            Phase::Running { position } => {
                let position = *position;
                match result {
                    Ok(_) => {
                        if position + 1 < self.steps.len() {
                            self.phase = Phase::Running { position: position + 1 };
                        } else if self.cleanups.len() > 0 {
                            self.phase = Phase::Cleaning { position: 0 };
                        } else {
                            self.phase = Phase::Done;
                        }
                    },
                    Err(e) => {
                        self.phase = Phase::Aborted { failure: e };
                    },
                }
            },
            Phase::Cleaning { position } => {
                let position = *position;
                match result {
                    Ok(_) => {
                        if position + 1 < self.cleanups.len() {
                            self.phase = Phase::Cleaning { position: position + 1 };
                        } else {
                            self.phase = Phase::Done;
                        }
                    },
                    Err(e) => {
                        self.phase = Phase::Aborted { failure: e };
                    },
                }
            },
            _ => {},
        }
    }

    /// How the run ended: `None` while it is not over, success when every
    /// unit succeeded, and otherwise the failure that aborted it.
    pub fn outcome(self) -> (ended: Option<Result<(), Error>>)
        ensures
            match self.phase_spec() {
                Phase::Done => ended == Some(Ok::<(), Error>(())),
                Phase::Aborted { failure } => ended == Some(Err::<(), Error>(failure)),
                _ => ended is None,
            },
    {
        match self.phase {
            Phase::Done => Some(Ok(())),
            Phase::Aborted { failure } => Some(Err(failure)),
            _ => None,
        }
    }
}

/// While every unit succeeds, a run takes the forward steps in their order,
/// then the cleanups in theirs, and is done after the last of them.
pub proof fn law_success_walks_in_order(steps: nat, cleanups: nat, count: nat)
    ensures
        replay(steps, cleanups, Seq::new(count, |i: int| true)) == (if count < steps {
            Course::Running(count)
        } else if count < steps + cleanups {
            Course::Cleaning((count - steps) as nat)
        } else {
            Course::Done
        }),
    decreases count,
{
    if count > 0 {
        law_success_walks_in_order(steps, cleanups, (count - 1) as nat);
        assert(Seq::new(count, |i: int| true).drop_last() =~= Seq::new(
            (count - 1) as nat,
            |i: int| true,
        ));
    }
}

/// The first failure of a unit aborts the run, and whatever is reported
/// after it leaves the run aborted: no later step or cleanup is reached.
pub proof fn law_first_failure_aborts(steps: nat, cleanups: nat, results: Seq<bool>, failed: int)
    requires
        0 <= failed < results.len(),
        failed < steps + cleanups,
        !results[failed],
        forall|i: int| 0 <= i < failed ==> results[i],
    ensures
        replay(steps, cleanups, results) == Course::Aborted,
    decreases results.len(),
{
    if results.len() - 1 == failed {
        law_success_walks_in_order(steps, cleanups, failed as nat);
        assert(results.drop_last() =~= Seq::new(failed as nat, |i: int| true));
    } else {
        law_first_failure_aborts(steps, cleanups, results.drop_last(), failed);
    }
}

} // verus!
