use vstd::prelude::*;
use crate::error::PipelineError;

verus! {

/// The pieces of outside work that one frame takes, in the order in which
/// they are done. Each is done once, and only after the one before it has
/// succeeded.
#[derive(Clone, Copy, Debug, PartialEq, Eq, Structural)]
pub enum Step {
    /// Create the staging buffers and images, and fill the input buffer.
    CreateResources,
    /// Load the four shader modules and build their pipelines.
    LoadShaders,
    /// Record the compute and the readback command buffer.
    RecordCommands,
    /// Submit the compute command buffer with a fence.
    SubmitCompute,
    /// Wait, without a timeout, for the fence of the compute command buffer.
    AwaitCompute,
    /// Submit the readback command buffer with a fence.
    SubmitReadback,
    /// Wait, without a timeout, for the fence of the readback command buffer.
    AwaitReadback,
    /// Map the output buffer and copy the result out.
    ReadOutput,
}

/// Number of steps of a frame.
pub const STEP_COUNT: usize = 8;

/// How a step ended.
#[derive(Clone, Copy, Debug, PartialEq, Eq, Structural)]
pub enum Outcome {
    Succeeded,
    /// The outside work of the step failed; the step says what that means.
    Failed,
    /// The library itself refused something during the step, with this error.
    FailedWith(PipelineError),
}

impl Outcome {
    /// The failure that this outcome of `step` stands for, if it is one: a
    /// failure of the outside work is classed by the step, an error of the
    /// library is kept as it is.
    pub open spec fn spec_failure_of(self, step: Step) -> Option<PipelineError> {
        match self {
            Outcome::Succeeded => None,
            Outcome::Failed => Some(step.spec_failure()),
            Outcome::FailedWith(error) => Some(error),
        }
    }
}

/// What to do next for a frame.
#[derive(Clone, Copy, Debug, PartialEq, Eq, Structural)]
pub enum Action {
    /// Do this step and report how it ended.
    Perform(Step),
    /// The frame is complete: the result has been copied out.
    Finished,
    /// The frame has failed; nothing more is to be done for it.
    Abort(PipelineError),
}

impl Step {
    /// The step at position `position` of the order; positions past the end
    /// give the last step.
    pub open spec fn spec_at(position: int) -> Step {
        if position <= 0 {
            Step::CreateResources
        } else if position == 1 {
            Step::LoadShaders
        } else if position == 2 {
            Step::RecordCommands
        } else if position == 3 {
            Step::SubmitCompute
        } else if position == 4 {
            Step::AwaitCompute
        } else if position == 5 {
            Step::SubmitReadback
        } else if position == 6 {
            Step::AwaitReadback
        } else {
            Step::ReadOutput
        }
    }

    /// The step at position `position` of the order; positions past the end
    /// give the last step.
    pub fn at(position: usize) -> (step: Step)
        ensures
            step == Self::spec_at(position as int),
    {
        if position == 0 {
            Step::CreateResources
        } else if position == 1 {
            Step::LoadShaders
        } else if position == 2 {
            Step::RecordCommands
        } else if position == 3 {
            Step::SubmitCompute
        } else if position == 4 {
            Step::AwaitCompute
        } else if position == 5 {
            Step::SubmitReadback
        } else if position == 6 {
            Step::AwaitReadback
        } else {
            Step::ReadOutput
        }
    }

    /// The failure that a failed step stands for.
    pub open spec fn spec_failure(self) -> PipelineError {
        match self {
            Step::CreateResources => PipelineError::AllocationFailure,
            Step::LoadShaders => PipelineError::ShaderLoadFailure,
            Step::RecordCommands | Step::SubmitCompute | Step::SubmitReadback => {
                PipelineError::SubmissionFailure
            },
            Step::AwaitCompute | Step::AwaitReadback | Step::ReadOutput => {
                PipelineError::SynchronizationFailure
            },
        }
    }

    /// The failure that a failed step stands for: creating resources fails
    /// as an allocation failure, loading shaders as a shader load failure,
    /// recording and submitting as a submission failure, and waiting for the
    /// device or for access to its memory as a synchronization failure.
    pub fn failure(&self) -> (error: PipelineError)
        ensures
            error == self.spec_failure(),
    {
        match self {
            Step::CreateResources => PipelineError::AllocationFailure,
            Step::LoadShaders => PipelineError::ShaderLoadFailure,
            Step::RecordCommands => PipelineError::SubmissionFailure,
            Step::SubmitCompute => PipelineError::SubmissionFailure,
            Step::SubmitReadback => PipelineError::SubmissionFailure,
            Step::AwaitCompute => PipelineError::SynchronizationFailure,
            Step::AwaitReadback => PipelineError::SynchronizationFailure,
            Step::ReadOutput => PipelineError::SynchronizationFailure,
        }
    }
}

/// How far a frame has come, as a mathematical value.
pub struct RunState {
    /// Number of steps that have succeeded.
    pub completed: int,
    /// The failure that ended the frame, if one did.
    pub failure: Option<PipelineError>,
}

impl RunState {
    /// The state of a frame for which nothing has been done.
    pub open spec fn initial() -> RunState {
        RunState { completed: 0, failure: None }
    }

    /// What to do next in this state.
    pub open spec fn next(self) -> Action {
        match self.failure {
            Some(error) => Action::Abort(error),
            None => if self.completed >= STEP_COUNT {
                Action::Finished
            } else {
                Action::Perform(Step::spec_at(self.completed))
            },
        }
    }

    /// The state after the step that `next` proposed has ended in `outcome`.
    /// A frame that is finished or has failed does not change any more.
    pub open spec fn report(self, outcome: Outcome) -> RunState {
        if self.failure is Some || self.completed >= STEP_COUNT {
            self
        } else if outcome is Succeeded {
            RunState { completed: self.completed + 1, failure: None }
        } else {
            RunState {
                completed: self.completed,
                failure: outcome.spec_failure_of(Step::spec_at(self.completed)),
            }
        }
    }

    /// The state after the outcomes of `outcomes` have been reported in order.
    pub open spec fn after(outcomes: Seq<Outcome>) -> RunState
        decreases outcomes.len(),
    {
        if outcomes.len() == 0 {
            RunState::initial()
        } else {
            RunState::after(outcomes.drop_last()).report(outcomes.last())
        }
    }
}

/// The first `count` outcomes of `outcomes` exist and are all successes.
pub open spec fn all_succeeded(outcomes: Seq<Outcome>, count: int) -> bool {
    &&& count <= outcomes.len()
    &&& forall|i: int| 0 <= i < count ==> #[trigger] outcomes[i] is Succeeded
}

/// The course of one frame: it proposes the steps in order and takes the
/// outcome of each.
pub struct FrameRun {
    completed: usize,
    failure: Option<PipelineError>,
}

impl View for FrameRun {
    type V = RunState;

    closed spec fn view(&self) -> RunState {
        RunState { completed: self.completed as int, failure: self.failure }
    }
}

impl FrameRun {
    #[verifier::type_invariant]
    spec fn well_formed(self) -> bool {
        self.completed <= STEP_COUNT
    }

    /// A frame for which nothing has been done.
    pub fn new() -> (run: FrameRun)
        ensures
            run@ == RunState::initial(),
    {
        FrameRun { completed: 0, failure: None }
    }

    /// What to do next.
    pub fn next(&self) -> (action: Action)
        ensures
            action == self@.next(),
    {
        proof {
            use_type_invariant(self);
        }
        match self.failure {
            Some(error) => Action::Abort(error),
            None => if self.completed >= STEP_COUNT {
                Action::Finished
            } else {
                Action::Perform(Step::at(self.completed))
            },
        }
    }

    /// Takes the outcome of the step that `next` proposed, and says what to
    /// do after it.
    pub fn report(&mut self, outcome: Outcome) -> (action: Action)
        ensures
            final(self)@ == old(self)@.report(outcome),
            action == final(self)@.next(),
    {
        proof {
            use_type_invariant(&*self);
        }
        if self.failure.is_none() && self.completed < STEP_COUNT {
            match outcome {
                Outcome::Succeeded => {
                    self.completed = self.completed + 1;
                },
                Outcome::Failed => {
                    self.failure = Some(Step::at(self.completed).failure());
                },
                Outcome::FailedWith(error) => {
                    self.failure = Some(error);
                },
            }
        }
        self.next()
    }

    /// Takes an error that the library returned during the step that `next`
    /// proposed. If a step was due, the frame has failed with exactly this
    /// error, whatever the step; a frame that is finished or has failed
    /// does not change.
    pub fn report_failure(&mut self, error: PipelineError) -> (action: Action)
        ensures
            final(self)@ == old(self)@.report(Outcome::FailedWith(error)),
            old(self)@.next() is Perform ==> final(self)@.failure == Some(error),
            old(self)@.next() is Perform ==> action == Action::Abort(error),
            !(old(self)@.next() is Perform) ==> final(self)@ == old(self)@,
            action == final(self)@.next(),
    {
        self.report(Outcome::FailedWith(error))
    }

    /// Whether the resources and command buffers of the frame exist, so
    /// that it is ready to be submitted.
    pub fn is_built(&self) -> (built: bool)
        ensures
            built == (self@.completed >= 3),
    {
        self.completed >= 3
    }

    /// Whether the device has completed all work of the frame, so that the
    /// output buffer holds the whole result.
    pub fn is_drained(&self) -> (drained: bool)
        ensures
            drained == (self@.failure is None && self@.completed >= 7),
    {
        self.failure.is_none() && self.completed >= 7
    }

    /// Whether every step of the frame has succeeded.
    pub fn is_complete(&self) -> (complete: bool)
        ensures
            complete == (self@.next() == Action::Finished),
    {
        proof {
            use_type_invariant(self);
        }
        self.failure.is_none() && self.completed >= STEP_COUNT
    }

    /// The failure that ended the frame, if one did.
    pub fn failure(&self) -> (failure: Option<PipelineError>)
        ensures
            failure == self@.failure,
    {
        self.failure
    }
}

/// A frame neither skips a step nor goes on after a failure: after any
/// reports, the number of steps that have succeeded is bounded by the
/// number of steps and of reports, every report up to it was a success,
/// and a failure is recorded exactly if the report that followed was a
/// failure: that of the step that was then due, or the error that the
/// report carried.
pub proof fn lemma_run_follows_outcomes(outcomes: Seq<Outcome>)
    ensures
        ({
            let state = RunState::after(outcomes);
            &&& 0 <= state.completed <= STEP_COUNT
            &&& all_succeeded(outcomes, state.completed)
            &&& state.failure is None ==> state.completed == STEP_COUNT || state.completed
                == outcomes.len()
            &&& state.failure is Some ==> {
                &&& state.completed < STEP_COUNT
                &&& state.completed < outcomes.len()
                &&& !(outcomes[state.completed] is Succeeded)
                &&& state.failure == outcomes[state.completed].spec_failure_of(
                    Step::spec_at(state.completed),
                )
            }
        }),
    decreases outcomes.len(),
{
    if outcomes.len() > 0 {
        lemma_run_follows_outcomes(outcomes.drop_last());
        let before = RunState::after(outcomes.drop_last());
        assert forall|i: int| 0 <= i < before.completed implies #[trigger] outcomes[i]
            is Succeeded by {
            assert(outcomes.drop_last()[i] is Succeeded);
        }
    }
}

/// A step is proposed only after every step before it has succeeded. In
/// particular the readback is submitted only after the wait for the compute
/// work has succeeded, and the output is read only after the wait for the
/// readback has succeeded.
pub proof fn lemma_step_follows_successes(outcomes: Seq<Outcome>, position: int)
    requires
        0 <= position < STEP_COUNT,
    ensures
        RunState::after(outcomes).next() == Action::Perform(Step::spec_at(position)) <==> (
        outcomes.len() == position && all_succeeded(outcomes, position)),
{
    lemma_run_follows_outcomes(outcomes);
    let state = RunState::after(outcomes);
    if outcomes.len() == position && all_succeeded(outcomes, position) {
        if state.failure is Some {
            assert(outcomes[state.completed] is Succeeded);
        }
    }
}

/// A frame completes exactly if the first reports, one for every step, are
/// all successes.
pub proof fn lemma_complete_iff_all_succeeded(outcomes: Seq<Outcome>)
    ensures
        RunState::after(outcomes).next() == Action::Finished <==> all_succeeded(
            outcomes,
            STEP_COUNT as int,
        ),
{
    lemma_run_follows_outcomes(outcomes);
    let state = RunState::after(outcomes);
    if all_succeeded(outcomes, STEP_COUNT as int) {
        if state.failure is Some {
            assert(outcomes[state.completed] is Succeeded);
        } else if state.completed < STEP_COUNT {
            assert(state.completed == outcomes.len());
        }
    }
}

/// A shader that cannot be loaded is found out before anything is
/// recorded or submitted: a frame whose outside work ends in a shader load
/// failure has completed one step, the creation of its resources, and no
/// other.
pub proof fn lemma_shader_failure_precedes_submission(outcomes: Seq<Outcome>)
    requires
        RunState::after(outcomes).failure == Some(PipelineError::ShaderLoadFailure),
        forall|i: int| 0 <= i < outcomes.len() ==> !(#[trigger] outcomes[i] is FailedWith),
    ensures
        RunState::after(outcomes).completed == 1,
        outcomes.len() >= 2,
        outcomes[0] is Succeeded,
        outcomes[1] is Failed,
{
    lemma_run_follows_outcomes(outcomes);
}

/// An error of the library is kept: if every report before it was a
/// success and a step was due, the frame fails with the error that the
/// report carries, not with the class of the step.
pub proof fn lemma_reported_error_is_kept(outcomes: Seq<Outcome>, error: PipelineError)
    requires
        outcomes.len() < STEP_COUNT,
        all_succeeded(outcomes, outcomes.len() as int),
    ensures
        RunState::after(outcomes.push(Outcome::FailedWith(error))).failure == Some(error),
        RunState::after(outcomes.push(Outcome::FailedWith(error))).next() == Action::Abort(error),
{
    lemma_run_follows_outcomes(outcomes);
    assert(outcomes.push(Outcome::FailedWith(error)).drop_last() =~= outcomes);
    let state = RunState::after(outcomes);
    if state.failure is Some {
        assert(outcomes[state.completed] is Succeeded);
    }
}

/// A failure is final: whatever is reported after it, the frame stays
/// failed with the same failure.
pub proof fn lemma_failure_is_final(outcomes: Seq<Outcome>, later: Seq<Outcome>)
    requires
        RunState::after(outcomes).failure is Some,
    ensures
        RunState::after(outcomes + later) == RunState::after(outcomes),
    decreases later.len(),
{
    if later.len() == 0 {
        assert(outcomes + later =~= outcomes);
    } else {
        lemma_failure_is_final(outcomes, later.drop_last());
        assert((outcomes + later).drop_last() =~= outcomes + later.drop_last());
    }
}

} // verus!
