//! The fail-fast pipeline: an ordered list of steps, handed out one at a time,
//! that stops for good at the first step that fails.
//!
//! The pipeline performs nothing itself. Its owner asks for the next
//! [`Action`], performs it, and reports the [`Outcome`]; the pipeline decides
//! what follows.

use vstd::prelude::*;
use vstd::string::*;
use crate::command::Invocation;
use crate::error::{ErrorKind, Failure, ReleaseError, Stage};

verus! {

/// One step of a release, and the kind of failure that it is reported as.
#[derive(Clone, Debug, PartialEq, Eq)]
pub enum Step {
    /// Run a command to completion.
    Run { command: Invocation, failure: ErrorKind },
    /// Run a command and keep what it prints.
    Capture { command: Invocation, failure: ErrorKind },
    /// Write the text kept by the latest `Capture` to a file.
    Store { path: String, failure: ErrorKind },
}

/// A step as contracts speak of it.
pub ghost enum StepView {
    Run { words: Seq<Seq<char>>, failure: ErrorKind },
    Capture { words: Seq<Seq<char>>, failure: ErrorKind },
    Store { path: Seq<char>, failure: ErrorKind },
}

impl StepView {
    /// The kind of failure that the step is reported as.
    pub open spec fn failure(self) -> ErrorKind {
        match self {
            StepView::Run { failure, .. } => failure,
            StepView::Capture { failure, .. } => failure,
            StepView::Store { failure, .. } => failure,
        }
    }

    /// The stage that the step belongs to.
    pub open spec fn stage(self) -> Option<Stage> {
        self.failure().spec_stage()
    }
}

impl View for Step {
    type V = StepView;

    open spec fn view(&self) -> StepView {
        match *self {
            Step::Run { command, failure } => StepView::Run { words: command@, failure },
            Step::Capture { command, failure } => StepView::Capture { words: command@, failure },
            Step::Store { path, failure } => StepView::Store { path: path@, failure },
        }
    }
}

impl DeepView for Step {
    type V = StepView;

    open spec fn deep_view(&self) -> StepView {
        self@
    }
}

impl Step {
    /// The kind of failure that the step is reported as.
    pub fn failure(&self) -> (kind: ErrorKind)
        ensures
            kind == self@.failure(),
    {
        match self {
            Step::Run { failure, .. } => *failure,
            Step::Capture { failure, .. } => *failure,
            Step::Store { failure, .. } => *failure,
        }
    }

    /// The stage that the step belongs to.
    pub fn stage(&self) -> (stage: Option<Stage>)
        ensures
            stage == self@.stage(),
    {
        self.failure().stage()
    }
}

/// Whether the steps run stage by stage: each belongs to a stage, and none
/// comes before a step of an earlier stage.
pub open spec fn staged(steps: Seq<StepView>) -> bool {
    &&& forall|i: int| 0 <= i < steps.len() ==> (#[trigger] steps[i]).stage() is Some
    &&& forall|i: int, j: int|
        0 <= i <= j < steps.len() ==> (#[trigger] steps[i]).stage()->0.rank() <= (
        #[trigger] steps[j]).stage()->0.rank()
}

/// What the owner of a pipeline is to do next.
#[derive(Clone, Copy, Debug)]
pub enum Action<'a> {
    /// Run the command to completion and report whether it succeeded.
    Run(&'a Invocation),
    /// Run the command and report what it printed.
    Capture(&'a Invocation),
    /// Write `contents` to the file at `path`.
    Write { path: &'a str, contents: &'a str },
    /// Every step succeeded: nothing is left to do.
    Finish,
    /// A step failed: nothing more is to be done.
    Abort(&'a ReleaseError),
}

/// An action as contracts speak of it.
pub ghost enum ActionView {
    Run(Seq<Seq<char>>),
    Capture(Seq<Seq<char>>),
    Write { path: Seq<char>, contents: Seq<char> },
    Finish,
    Abort(Failure),
}

impl<'a> View for Action<'a> {
    type V = ActionView;

    open spec fn view(&self) -> ActionView {
        match *self {
            Action::Run(command) => ActionView::Run(command@),
            Action::Capture(command) => ActionView::Capture(command@),
            Action::Write { path, contents } => ActionView::Write {
                path: path@,
                contents: contents@,
            },
            Action::Finish => ActionView::Finish,
            Action::Abort(error) => ActionView::Abort(error@),
        }
    }
}

/// How the action handed out last has ended.
#[derive(Clone, Debug, PartialEq, Eq)]
pub enum Outcome {
    /// It succeeded; the text is what a captured command printed, and is
    /// ignored after any other action.
    Done(String),
    /// It failed, for the cause given.
    Failed(String),
}

/// An outcome as contracts speak of it.
pub ghost enum OutcomeView {
    Done(Seq<char>),
    Failed(Seq<char>),
}

impl View for Outcome {
    type V = OutcomeView;

    open spec fn view(&self) -> OutcomeView {
        match *self {
            Outcome::Done(output) => OutcomeView::Done(output@),
            Outcome::Failed(cause) => OutcomeView::Failed(cause@),
        }
    }
}

/// The state of a pipeline as contracts speak of it.
pub ghost struct PipelineView {
    /// The steps, in the order in which they run.
    pub steps: Seq<StepView>,
    /// How many steps have succeeded.
    pub cursor: int,
    /// What the latest captured command printed.
    pub captured: Seq<char>,
    /// The failure that stopped the pipeline, if one did.
    pub failure: Option<Failure>,
}

impl PipelineView {
    /// A pipeline of which no step has run yet.
    pub open spec fn fresh(steps: Seq<StepView>) -> PipelineView {
        PipelineView { steps, cursor: 0, captured: Seq::empty(), failure: None }
    }

    /// Whether a step is being handed out: nothing has failed and a step is
    /// left.
    pub open spec fn active(self) -> bool {
        self.failure is None && 0 <= self.cursor < self.steps.len()
    }

    /// The action that the pipeline hands out in this state.
    pub open spec fn action(self) -> ActionView {
        if let Some(failure) = self.failure {
            ActionView::Abort(failure)
        } else if !(0 <= self.cursor < self.steps.len()) {
            ActionView::Finish
        } else {
            match self.steps[self.cursor] {
                StepView::Run { words, .. } => ActionView::Run(words),
                StepView::Capture { words, .. } => ActionView::Capture(words),
                StepView::Store { path, .. } => ActionView::Write {
                    path,
                    contents: self.captured,
                },
            }
        }
    }

    /// The state after the action handed out has ended with `outcome`.
    ///
    /// A failure stops the pipeline at the step that failed. A success moves
    /// on to the next step, and keeps the text if the step was a `Capture`.
    /// Once stopped or finished, the pipeline ignores what it is told.
    pub open spec fn record(self, outcome: OutcomeView) -> PipelineView {
        if !self.active() {
            self
        } else {
            match outcome {
                OutcomeView::Failed(cause) => PipelineView {
                    failure: Some(Failure { kind: self.steps[self.cursor].failure(), cause }),
                    ..self
                },
                OutcomeView::Done(output) => PipelineView {
                    cursor: self.cursor + 1,
                    captured: if self.steps[self.cursor] is Capture {
                        output
                    } else {
                        self.captured
                    },
                    ..self
                },
            }
        }
    }

    /// The state after the outcomes have been recorded one after the other.
    pub open spec fn run(self, outcomes: Seq<OutcomeView>) -> PipelineView
        decreases outcomes.len(),
    {
        if outcomes.len() == 0 {
            self
        } else {
            self.run(outcomes.drop_last()).record(outcomes.last())
        }
    }
}

/// A release in progress.
#[derive(Debug)]
pub struct Pipeline {
    steps: Vec<Step>,
    cursor: usize,
    captured: String,
    failure: Option<ReleaseError>,
}

impl View for Pipeline {
    type V = PipelineView;

    closed spec fn view(&self) -> PipelineView {
        PipelineView {
            steps: self.steps.deep_view(),
            cursor: self.cursor as int,
            captured: self.captured@,
            failure: match self.failure {
                Some(error) => Some(error@),
                None => None,
            },
        }
    }
}

impl Pipeline {
    /// A pipeline that will run `steps` in order.
    pub fn new(steps: Vec<Step>) -> (pipeline: Pipeline)
        ensures
            pipeline@ == PipelineView::fresh(steps.deep_view()),
    {
        Pipeline { steps, cursor: 0, captured: String::new(), failure: None }
    }

    /// The steps of the pipeline, in the order in which they run.
    pub fn steps(&self) -> (steps: &Vec<Step>)
        ensures
            steps.deep_view() == self@.steps,
    {
        &self.steps
    }

    /// The stage of the step that is being handed out, and `None` once the
    /// pipeline has stopped or finished.
    pub fn stage(&self) -> (stage: Option<Stage>)
        ensures
            stage == if self@.active() {
                self@.steps[self@.cursor].stage()
            } else {
                None
            },
    {
        if self.failure.is_some() || self.cursor >= self.steps.len() {
            None
        } else {
            self.steps[self.cursor].stage()
        }
    }

    /// What is to be done next.
    pub fn action(&self) -> (action: Action<'_>)
        ensures
            action@ == self@.action(),
    {
        match &self.failure {
            Some(error) => Action::Abort(error),
            None => {
                if self.cursor >= self.steps.len() {
                    Action::Finish
                } else {
                    match &self.steps[self.cursor] {
                        Step::Run { command, .. } => Action::Run(command),
                        Step::Capture { command, .. } => Action::Capture(command),
                        Step::Store { path, .. } => Action::Write {
                            path: path.as_str(),
                            contents: self.captured.as_str(),
                        },
                    }
                }
            },
        }
    }

    /// Takes note of how the action handed out last has ended.
    pub fn record(&mut self, outcome: Outcome)
        ensures
            final(self)@ == old(self)@.record(outcome@),
    {
        if self.failure.is_some() || self.cursor >= self.steps.len() {
            return ;
        }
        match outcome {
            Outcome::Failed(cause) => {
                let kind = self.steps[self.cursor].failure();
                self.failure = Some(ReleaseError { kind, cause });
            },
            Outcome::Done(output) => {
                let keep = match &self.steps[self.cursor] {
                    Step::Capture { .. } => true,
                    _ => false,
                };
                if keep {
                    self.captured = output;
                }
                self.cursor = self.cursor + 1;
            },
        }
    }
}

/// Recording outcomes one after the other is the same as recording a first
/// part of them and then the rest.
pub proof fn lemma_run_in_two_parts(
    state: PipelineView,
    first: Seq<OutcomeView>,
    rest: Seq<OutcomeView>,
)
    ensures
        state.run(first + rest) == state.run(first).run(rest),
    decreases rest.len(),
{
    if rest.len() == 0 {
        assert(first + rest =~= first);
    } else {
        assert((first + rest).drop_last() =~= first + rest.drop_last());
        assert((first + rest).last() == rest.last());
        lemma_run_in_two_parts(state, first, rest.drop_last());
    }
}

/// Whatever is recorded, the steps stay as they are, the pipeline never
/// goes back to an earlier step, and a pipeline that has stopped or finished
/// stays as it is.
pub proof fn lemma_run_goes_forward(state: PipelineView, outcomes: Seq<OutcomeView>)
    ensures
        state.run(outcomes).steps == state.steps,
        state.run(outcomes).cursor >= state.cursor,
        state.failure is Some ==> state.run(outcomes).failure is Some,
        !state.active() ==> state.run(outcomes) == state,
    decreases outcomes.len(),
{
    if outcomes.len() > 0 {
        lemma_run_goes_forward(state, outcomes.drop_last());
    }
}

/// Fail-fast: once a step has failed, whatever is recorded afterwards, no
/// step is handed out any more, and the action is to abort with the failure
/// of that step and the cause that was reported.
pub proof fn lemma_fail_fast(state: PipelineView, cause: Seq<char>, later: Seq<OutcomeView>)
    requires
        state.active(),
    ensures
        !state.record(OutcomeView::Failed(cause)).run(later).active(),
        state.record(OutcomeView::Failed(cause)).run(later).action() == ActionView::Abort(
            Failure { kind: state.steps[state.cursor].failure(), cause },
        ),
{
    lemma_run_goes_forward(state.record(OutcomeView::Failed(cause)), later);
}

/// As long as the steps succeed they are handed out in order: after `n`
/// successes the pipeline is at step `n`, or has finished if there are no
/// more than `n` steps.
pub proof fn lemma_successes_advance(steps: Seq<StepView>, outcomes: Seq<OutcomeView>)
    requires
        forall|i: int| 0 <= i < outcomes.len() ==> outcomes[i] is Done,
    ensures
        PipelineView::fresh(steps).run(outcomes).failure is None,
        PipelineView::fresh(steps).run(outcomes).cursor == if outcomes.len() <= steps.len() {
            outcomes.len()
        } else {
            steps.len()
        },
        outcomes.len() >= steps.len() ==> PipelineView::fresh(steps).run(outcomes).action()
            == ActionView::Finish,
    decreases outcomes.len(),
{
    if outcomes.len() > 0 {
        lemma_successes_advance(steps, outcomes.drop_last());
        lemma_run_goes_forward(PipelineView::fresh(steps), outcomes.drop_last());
    }
}

/// The text written by a `Store` that follows a `Capture` is the text that
/// the captured command printed, unchanged.
pub proof fn lemma_store_writes_what_was_captured(state: PipelineView, output: Seq<char>)
    requires
        state.active(),
        state.steps[state.cursor] is Capture,
        state.cursor + 1 < state.steps.len(),
        state.steps[state.cursor + 1] is Store,
    ensures
        state.record(OutcomeView::Done(output)).action() == (ActionView::Write {
            path: state.steps[state.cursor + 1]->Store_path,
            contents: output,
        }),
{
}

/// A pipeline that has stopped has stopped at the step that failed: the
/// failure is of the kind of the step at which the pipeline stands.
pub proof fn lemma_failure_is_of_current_step(steps: Seq<StepView>, outcomes: Seq<OutcomeView>)
    ensures
        ({
            let end = PipelineView::fresh(steps).run(outcomes);
            &&& 0 <= end.cursor <= steps.len()
            &&& end.failure is Some ==> end.cursor < steps.len() && end.failure->0.kind
                == steps[end.cursor].failure()
        }),
    decreases outcomes.len(),
{
    if outcomes.len() > 0 {
        lemma_failure_is_of_current_step(steps, outcomes.drop_last());
        lemma_run_goes_forward(PipelineView::fresh(steps), outcomes.drop_last());
    }
}

/// No stage runs after one that failed: if the steps run stage by stage and
/// the pipeline has stopped with a failure, then every step that was handed
/// out on the way belongs to the stage of the failure or to an earlier one.
/// So if the compile stage fails, no step of the archive, digest or upload
/// stage is ever handed out.
pub proof fn lemma_no_stage_after_failure(
    steps: Seq<StepView>,
    outcomes: Seq<OutcomeView>,
    n: int,
)
    requires
        staged(steps),
        0 <= n <= outcomes.len(),
        PipelineView::fresh(steps).run(outcomes).failure is Some,
    ensures
        ({
            let end = PipelineView::fresh(steps).run(outcomes);
            let seen = PipelineView::fresh(steps).run(outcomes.take(n));
            &&& end.failure->0.kind.spec_stage() is Some
            &&& seen.active() ==> steps[seen.cursor].stage()->0.rank()
                <= end.failure->0.kind.spec_stage()->0.rank()
            &&& seen.active() && end.failure->0.kind.spec_stage() == Some(Stage::Compile)
                ==> steps[seen.cursor].stage() == Some(Stage::Compile)
        }),
{
    let start = PipelineView::fresh(steps);
    let end = start.run(outcomes);
    let seen = start.run(outcomes.take(n));
    assert(outcomes =~= outcomes.take(n) + outcomes.skip(n));
    lemma_run_in_two_parts(start, outcomes.take(n), outcomes.skip(n));
    lemma_run_goes_forward(start, outcomes.take(n));
    lemma_run_goes_forward(seen, outcomes.skip(n));
    lemma_failure_is_of_current_step(steps, outcomes);
    assert(steps[end.cursor].stage() is Some);
    if seen.active() {
        assert(steps[seen.cursor].stage()->0.rank() <= steps[end.cursor].stage()->0.rank());
    }
}

} // verus!
