//! Running the build steps of a package, one after the other, until one
//! fails.
//!
//! The steps are shell commands, and running them is left to the caller.
//! A [`BuildRun`] says which step is to be run, takes note of how it ended,
//! and says when the build is over and how.

use vstd::prelude::*;
use vstd::string::StringExecFns;
use crate::package::Build;
use crate::text::{slice_text_of, texts};

verus! {

/// Why a build came to nothing.
#[derive(Debug)]
pub enum BuildHandlerError {
    /// A step ended with a status other than success; holds the step.
    BuildStepFailed(String),
    /// The process of a step could not be started; holds the reason.
    SpawnError(String),
}

/// What a [`BuildHandlerError`] says, as mathematical values.
pub enum BuildFailure {
    BuildStepFailed(Seq<char>),
    SpawnError(Seq<char>),
}

impl View for BuildHandlerError {
    type V = BuildFailure;

    open spec fn view(&self) -> BuildFailure {
        match *self {
            BuildHandlerError::BuildStepFailed(step) => BuildFailure::BuildStepFailed(step@),
            BuildHandlerError::SpawnError(reason) => BuildFailure::SpawnError(reason@),
        }
    }
}

impl BuildHandlerError {
    /// The error in words.
    pub fn message(&self) -> (text: String)
        ensures
            text@ == match self@ {
                BuildFailure::BuildStepFailed(step) => "Build step failed: "@ + step,
                BuildFailure::SpawnError(reason) => "Failed to spawn process: "@ + reason,
            },
    {
        match self {
            BuildHandlerError::BuildStepFailed(step) => String::from_str(
                "Build step failed: ",
            ).concat(step.as_str()),
            BuildHandlerError::SpawnError(reason) => String::from_str(
                "Failed to spawn process: ",
            ).concat(reason.as_str()),
        }
    }
}

/// How running one step ended.
#[derive(Debug)]
pub enum StepOutcome {
    /// The step ran and reported success.
    Succeeded,
    /// The step ran and reported a status other than success.
    Failed,
    /// The process of the step could not be started; holds the reason.
    NotStarted(String),
}

/// What a [`StepOutcome`] says, as mathematical values.
pub enum StepResult {
    Succeeded,
    Failed,
    NotStarted(Seq<char>),
}

impl View for StepOutcome {
    type V = StepResult;

    open spec fn view(&self) -> StepResult {
        match *self {
            StepOutcome::Succeeded => StepResult::Succeeded,
            StepOutcome::Failed => StepResult::Failed,
            StepOutcome::NotStarted(reason) => StepResult::NotStarted(reason@),
        }
    }
}

/// How far a build has come: the steps, how many of them have succeeded,
/// and what stopped it, if anything did.
pub struct Progress {
    pub steps: Seq<Seq<char>>,
    pub done: nat,
    pub failure: Option<BuildFailure>,
}

impl Progress {
    /// A build of `steps` of which none has been run.
    pub open spec fn start(steps: Seq<Seq<char>>) -> Progress {
        Progress { steps, done: 0, failure: None }
    }

    /// The step that is to be run now: the first one that has not been
    /// run, unless a step has failed.
    pub open spec fn pending(self) -> Option<Seq<char>> {
        if self.failure is None && self.done < self.steps.len() {
            Some(self.steps[self.done as int])
        } else {
            None
        }
    }

    /// How the build stands once the pending step has ended with
    /// `outcome`. Where no step is pending nothing changes.
    pub open spec fn after(self, outcome: StepResult) -> Progress {
        match self.pending() {
            None => self,
            Some(step) => match outcome {
                StepResult::Succeeded => Progress { done: self.done + 1, ..self },
                StepResult::Failed => Progress {
                    failure: Some(BuildFailure::BuildStepFailed(step)),
                    ..self
                },
                StepResult::NotStarted(reason) => Progress {
                    failure: Some(BuildFailure::SpawnError(reason)),
                    ..self
                },
            },
        }
    }

    /// How the build has ended, or `None` while a step is pending.
    pub open spec fn result(self) -> Option<Result<(), BuildFailure>> {
        match self.failure {
            Some(failure) => Some(Err(failure)),
            None => if self.done < self.steps.len() {
                None
            } else {
                Some(Ok(()))
            },
        }
    }

    /// How the build stands once the steps have ended with `outcomes`, in
    /// that order.
    pub open spec fn after_all(self, outcomes: Seq<StepResult>) -> Progress
        decreases outcomes.len(),
    {
        if outcomes.len() == 0 {
            self
        } else {
            self.after_all(outcomes.drop_last()).after(outcomes.last())
        }
    }
}

/// Runs the build steps of one package.
#[derive(Debug)]
pub struct BuildHandler {
    pub build_steps: Build,
}

/// One build under way.
#[derive(Debug)]
pub struct BuildRun<'a> {
    steps: &'a Vec<String>,
    done: usize,
    failure: Option<BuildHandlerError>,
}

impl<'a> View for BuildRun<'a> {
    type V = Progress;

    closed spec fn view(&self) -> Progress {
        Progress {
            steps: texts(self.steps@),
            done: self.done as nat,
            failure: match self.failure {
                Some(e) => Some(e@),
                None => None,
            },
        }
    }
}

impl BuildHandler {
    /// A handler for the steps of `build`.
    pub fn new(build: Build) -> (handler: Self)
        ensures
            handler.build_steps == build,
    {
        BuildHandler { build_steps: build }
    }

    /// Begins a build: no step has been run yet.
    pub fn run_build_steps(&self) -> (run: BuildRun<'_>)
        ensures
            run@ == Progress::start(texts(self.build_steps.steps@)),
    {
        BuildRun { steps: &self.build_steps.steps, done: 0, failure: None }
    }

    /// The command line that runs `step` in a shell.
    pub fn shell_command(step: &str) -> (line: Vec<String>)
        ensures
            texts(line@) == seq!["sh"@, "-c"@, step@],
    {
        let mut line: Vec<String> = Vec::new();
        line.push(String::from_str("sh"));
        line.push(String::from_str("-c"));
        line.push(String::from_str(step));
        line
    }
}

impl<'a> BuildRun<'a> {
    /// The step to run now, or `None` when the build is over.
    pub fn pending(&self) -> (step: Option<&'a str>)
        ensures
            slice_text_of(step) == self@.pending(),
    {
        if self.failure.is_none() && self.done < self.steps.len() {
            Some(self.steps[self.done].as_str())
        } else {
            None
        }
    }

    /// Takes note of how the pending step ended. After a success the next
    /// step is pending; after anything else the build is over and no
    /// further step is. Where no step was pending, nothing changes.
    pub fn record(&mut self, outcome: StepOutcome)
        ensures
            final(self)@ == old(self)@.after(outcome@),
    {
        if self.failure.is_none() && self.done < self.steps.len() {
            match outcome {
                StepOutcome::Succeeded => {
                    self.done = self.done + 1;
                },
                StepOutcome::Failed => {
                    self.failure = Some(
                        BuildHandlerError::BuildStepFailed(self.steps[self.done].clone()),
                    );
                },
                StepOutcome::NotStarted(reason) => {
                    self.failure = Some(BuildHandlerError::SpawnError(reason));
                },
            }
        }
    }

    /// How the build has ended: well when every step has succeeded, or
    /// with the failure that stopped it. `None` while a step is pending.
    pub fn result(self) -> (r: Option<Result<(), BuildHandlerError>>)
        ensures
            match self@.result() {
                None => r is None,
                Some(Ok(_)) => r matches Some(Ok(_)),
                Some(Err(failure)) => r matches Some(Err(e)) && e@ == failure,
            },
    {
        match self.failure {
            Some(e) => Some(Err(e)),
            None => if self.done < self.steps.len() {
                None
            } else {
                Some(Ok(()))
            },
        }
    }
}

/// A build that has failed is over: no step is pending, and whatever is
/// recorded changes nothing.
pub proof fn lemma_failed_build_is_over(progress: Progress, outcome: StepResult)
    requires
        progress.failure is Some,
    ensures
        progress.pending() is None,
        progress.after(outcome) == progress,
        progress.result() == Some(Err::<(), BuildFailure>(progress.failure->0)),
{
}

/// When the first steps succeed and the next one does not, the build fails
/// with that step, and stays so whatever is recorded afterwards: no later
/// step becomes pending.
pub proof fn lemma_first_failure_ends_build(
    steps: Seq<Seq<char>>,
    outcomes: Seq<StepResult>,
    failed: int,
)
    requires
        0 <= failed < steps.len(),
        failed < outcomes.len(),
        forall|i: int| 0 <= i < failed ==> outcomes[i] == StepResult::Succeeded,
        outcomes[failed] == StepResult::Failed,
    ensures
        Progress::start(steps).after_all(outcomes).pending() is None,
        Progress::start(steps).after_all(outcomes).done == failed,
        Progress::start(steps).after_all(outcomes).result() == Some(
            Err::<(), BuildFailure>(BuildFailure::BuildStepFailed(steps[failed])),
        ),
    decreases outcomes.len(),
{
    let earlier = outcomes.drop_last();
    if outcomes.len() == failed + 1 {
        lemma_successes_advance(steps, earlier);
    } else {
        lemma_first_failure_ends_build(steps, earlier, failed);
    }
}

/// While every step succeeds, the build is as far as steps were recorded.
pub proof fn lemma_successes_advance(steps: Seq<Seq<char>>, outcomes: Seq<StepResult>)
    requires
        outcomes.len() <= steps.len(),
        forall|i: int| 0 <= i < outcomes.len() ==> outcomes[i] == StepResult::Succeeded,
    ensures
        Progress::start(steps).after_all(outcomes) == (Progress {
            steps,
            done: outcomes.len(),
            failure: None,
        }),
    decreases outcomes.len(),
{
    if outcomes.len() > 0 {
        lemma_successes_advance(steps, outcomes.drop_last());
    }
}

} // verus!
