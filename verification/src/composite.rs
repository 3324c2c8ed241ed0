//! The composite-operation runner: a multi-step verb is an optional
//! precondition check followed by an ordered sequence of invocations, with
//! short-circuit on the first failure.  The sequencing is an explicit state
//! machine: the caller performs each emitted action (run the check, run a
//! step) and feeds the observed event back in, so the decisions themselves
//! are all made — and verified — here.

use vstd::prelude::*;
use crate::git::GitCommand;
use crate::outcome::GitCommandResult;
use crate::outcome::GitFailure;
use crate::outcome::Precondition;

verus! {

/// A multi-step verb: an optional guard and at least one step.  The last
/// step is the terminal one; its outcome is the verb's outcome.
pub struct CompositeSpec {
    pub precondition: Option<Precondition>,
    pub steps: Vec<GitCommand>,
}

impl CompositeSpec {
    /// A composite verb has at least one step.
    pub open spec fn wf(self) -> bool {
        self.steps@.len() >= 1
    }
}

/// Where a run of a composite verb stands.
pub enum CompositeState {
    /// The guard has been issued and its outcome is awaited.
    AwaitingPrecondition,
    /// Step `index` has been issued and its outcome is awaited.
    AwaitingStep { index: usize },
    /// The verb is over, with its outcome or its failure.
    Done { result: Result<GitCommandResult, GitFailure> },
}

/// What the caller must do next.
#[derive(Debug, PartialEq, Eq, Clone, Copy, Structural)]
pub enum CompositeAction {
    /// Run the named check and report its classification.
    RunPrecondition(Precondition),
    /// Run step `index` of the verb and report its outcome.
    RunStep(usize),
    /// Nothing is left to do.
    Finish,
}

/// What the caller observed for the pending check or step.
#[derive(Debug, PartialEq, Eq, Clone, Copy, Structural)]
pub enum CompositeEvent {
    /// The process ran; this is its classified outcome.
    Completed(GitCommandResult),
    /// The process could not be spawned at all.
    SpawnFailed,
}

/// The state a run may be in, relative to its verb.
pub open spec fn state_wf(c: CompositeSpec, s: CompositeState) -> bool {
    match s {
        CompositeState::AwaitingPrecondition => c.precondition is Some,
        CompositeState::AwaitingStep { index } => index < c.steps@.len(),
        CompositeState::Done { .. } => true,
    }
}

/// The first decision of a run: a guarded verb issues its check and a forced
/// or unguarded verb issues its first step directly.
pub open spec fn composite_begin_spec(c: CompositeSpec) -> (CompositeState, CompositeAction) {
    match c.precondition {
        Some(p) => (CompositeState::AwaitingPrecondition, CompositeAction::RunPrecondition(p)),
        None => (CompositeState::AwaitingStep { index: 0 }, CompositeAction::RunStep(0)),
    }
}

/// One transition of a run: abort on a failed check, a failed non-final
/// step, or a spawn failure; advance on success; take the terminal step's
/// outcome as the verb's outcome.  `Done` is absorbing.
pub open spec fn composite_step_spec(c: CompositeSpec, s: CompositeState, e: CompositeEvent) -> (
    CompositeState,
    CompositeAction,
) {
    match s {
        CompositeState::AwaitingPrecondition => match e {
            CompositeEvent::Completed(res) => if res == GitCommandResult::Success {
                (CompositeState::AwaitingStep { index: 0 }, CompositeAction::RunStep(0))
            } else {
                let check = if c.precondition is Some {
                    c.precondition->0
                } else {
                    Precondition::StagingAreaEmpty
                };
                (
                    CompositeState::Done { result: Err(GitFailure::PreconditionFailed { check }) },
                    CompositeAction::Finish,
                )
            },
            CompositeEvent::SpawnFailed => (
                CompositeState::Done { result: Err(GitFailure::SpawnFailed) },
                CompositeAction::Finish,
            ),
        },
        CompositeState::AwaitingStep { index } => match e {
            CompositeEvent::Completed(res) => if index + 1 >= c.steps@.len() {
                (CompositeState::Done { result: Ok(res) }, CompositeAction::Finish)
            } else if res == GitCommandResult::Success {
                (
                    CompositeState::AwaitingStep { index: (index + 1) as usize },
                    CompositeAction::RunStep((index + 1) as usize),
                )
            } else {
                (
                    CompositeState::Done { result: Err(GitFailure::StepFailed { step: index }) },
                    CompositeAction::Finish,
                )
            },
            CompositeEvent::SpawnFailed => (
                CompositeState::Done { result: Err(GitFailure::SpawnFailed) },
                CompositeAction::Finish,
            ),
        },
        CompositeState::Done { result } => (CompositeState::Done { result }, CompositeAction::Finish),
    }
}

/// Starts a run of `c`.
pub fn composite_begin(c: &CompositeSpec) -> (r: (CompositeState, CompositeAction))
    requires
        c.wf(),
    ensures
        r == composite_begin_spec(*c),
        state_wf(*c, r.0),
        r.1 matches CompositeAction::RunStep(i) ==> i < c.steps@.len(),
{
    match &c.precondition {
        Some(p) => (CompositeState::AwaitingPrecondition, CompositeAction::RunPrecondition(*p)),
        None => (CompositeState::AwaitingStep { index: 0 }, CompositeAction::RunStep(0)),
    }
}

/// Advances a run of `c` by one observed event.
pub fn composite_step(c: &CompositeSpec, s: CompositeState, e: CompositeEvent) -> (r: (
    CompositeState,
    CompositeAction,
))
    requires
        c.wf(),
        state_wf(*c, s),
    ensures
        r == composite_step_spec(*c, s, e),
        state_wf(*c, r.0),
        r.1 matches CompositeAction::RunStep(i) ==> i < c.steps@.len(),
{
    match s {
        CompositeState::AwaitingPrecondition => match e {
            CompositeEvent::Completed(res) => match res {
                GitCommandResult::Success => (
                    CompositeState::AwaitingStep { index: 0 },
                    CompositeAction::RunStep(0),
                ),
                GitCommandResult::Error => {
                    let check = match &c.precondition {
                        Some(p) => *p,
                        None => Precondition::StagingAreaEmpty,
                    };
                    (
                        CompositeState::Done {
                            result: Err(GitFailure::PreconditionFailed { check }),
                        },
                        CompositeAction::Finish,
                    )
                },
            },
            CompositeEvent::SpawnFailed => (
                CompositeState::Done { result: Err(GitFailure::SpawnFailed) },
                CompositeAction::Finish,
            ),
        },
        CompositeState::AwaitingStep { index } => match e {
            CompositeEvent::Completed(res) => {
                let step_count = c.steps.len();
                if index + 1 >= step_count {
                    (CompositeState::Done { result: Ok(res) }, CompositeAction::Finish)
                } else {
                    match res {
                        GitCommandResult::Success => (
                            CompositeState::AwaitingStep { index: index + 1 },
                            CompositeAction::RunStep(index + 1),
                        ),
                        GitCommandResult::Error => (
                            CompositeState::Done {
                                result: Err(GitFailure::StepFailed { step: index }),
                            },
                            CompositeAction::Finish,
                        ),
                    }
                }
            },
            CompositeEvent::SpawnFailed => (
                CompositeState::Done { result: Err(GitFailure::SpawnFailed) },
                CompositeAction::Finish,
            ),
        },
        CompositeState::Done { result } => (
            CompositeState::Done { result },
            CompositeAction::Finish,
        ),
    }
}

/// The actions a run emits from state `s` under the events that follow; a
/// finished run emits nothing further.
pub open spec fn emitted_actions_from(
    c: CompositeSpec,
    s: CompositeState,
    events: Seq<CompositeEvent>,
) -> Seq<CompositeAction>
    decreases events.len(),
{
    if events.len() == 0 || s is Done {
        Seq::<CompositeAction>::empty()
    } else {
        let next = composite_step_spec(c, s, events[0]);
        seq![next.1] + emitted_actions_from(c, next.0, events.drop_first())
    }
}

/// Every action a whole run of `c` emits under `events`.
pub open spec fn emitted_actions(c: CompositeSpec, events: Seq<CompositeEvent>) -> Seq<
    CompositeAction,
> {
    let begun = composite_begin_spec(c);
    seq![begun.1] + emitted_actions_from(c, begun.0, events)
}

/// The state a run reaches from `s` under the events that follow.
pub open spec fn state_after(
    c: CompositeSpec,
    s: CompositeState,
    events: Seq<CompositeEvent>,
) -> CompositeState
    decreases events.len(),
{
    if events.len() == 0 || s is Done {
        s
    } else {
        state_after(c, composite_step_spec(c, s, events[0]).0, events.drop_first())
    }
}

/// The state a whole run of `c` reaches under `events`.
pub open spec fn run_state(c: CompositeSpec, events: Seq<CompositeEvent>) -> CompositeState {
    state_after(c, composite_begin_spec(c).0, events)
}

/// A finished run emits no further action, whatever events arrive.
pub proof fn lemma_done_emits_nothing(
    c: CompositeSpec,
    s: CompositeState,
    events: Seq<CompositeEvent>,
)
    requires
        s is Done,
    ensures
        emitted_actions_from(c, s, events) == Seq::<CompositeAction>::empty(),
{
}

/// Transitions never ask for a precondition check: only the very first
/// decision of a run can.
proof fn lemma_steps_never_emit_check(
    c: CompositeSpec,
    s: CompositeState,
    events: Seq<CompositeEvent>,
)
    ensures
        forall|i: int|
            0 <= i < emitted_actions_from(c, s, events).len() ==> !(#[trigger] emitted_actions_from(
                c,
                s,
                events,
            )[i] is RunPrecondition),
    decreases events.len(),
{
    if events.len() == 0 || s is Done {
    } else {
        let next = composite_step_spec(c, s, events[0]);
        assert(!(next.1 is RunPrecondition));
        lemma_steps_never_emit_check(c, next.0, events.drop_first());
    }
}

/// If the precondition check of a guarded composite verb reports `Error`,
/// the run aborts with `PreconditionFailed` and no step is ever issued:
/// whatever events follow, the emitted actions never include a `RunStep`.
pub proof fn lemma_guarded_verb_aborts_on_failed_check(
    c: CompositeSpec,
    events: Seq<CompositeEvent>,
)
    requires
        c.wf(),
        c.precondition is Some,
        events.len() > 0,
        events[0] == CompositeEvent::Completed(GitCommandResult::Error),
    ensures
        forall|i: int|
            0 <= i < emitted_actions(c, events).len() ==> !(#[trigger] emitted_actions(c, events)[i]
                is RunStep),
        ({
            let aborted = composite_step_spec(c, composite_begin_spec(c).0, events[0]).0;
            aborted == CompositeState::Done {
                result: Err(
                    GitFailure::PreconditionFailed { check: c.precondition->0 },
                ),
            }
        }),
{
    let begun = composite_begin_spec(c);
    let next = composite_step_spec(c, begun.0, events[0]);
    assert(next.0 is Done);
    lemma_done_emits_nothing(c, next.0, events.drop_first());
    assert(emitted_actions_from(c, begun.0, events) =~= seq![next.1]);
    assert(emitted_actions(c, events) =~= seq![begun.1, next.1]);
}

/// A forced or unguarded variant issues its first step immediately and never
/// calls any precondition check, whatever events follow.
pub proof fn lemma_forced_verb_skips_check(c: CompositeSpec, events: Seq<CompositeEvent>)
    requires
        c.wf(),
        c.precondition is None,
    ensures
        emitted_actions(c, events)[0] == CompositeAction::RunStep(0),
        forall|i: int|
            0 <= i < emitted_actions(c, events).len() ==> !(#[trigger] emitted_actions(c, events)[i]
                is RunPrecondition),
{
    let begun = composite_begin_spec(c);
    lemma_steps_never_emit_check(c, begun.0, events);
}

proof fn lemma_success_from_step(c: CompositeSpec, i: usize, events: Seq<CompositeEvent>)
    requires
        c.wf(),
        i < c.steps@.len(),
        events.len() == c.steps@.len() - i,
        forall|k: int|
            0 <= k < events.len() ==> events[k] == CompositeEvent::Completed(
                GitCommandResult::Success,
            ),
    ensures
        state_after(c, CompositeState::AwaitingStep { index: i }, events) == (CompositeState::Done {
            result: Ok(GitCommandResult::Success),
        }),
        ({
            let emitted = emitted_actions_from(c, CompositeState::AwaitingStep { index: i }, events);
            &&& emitted.len() == c.steps@.len() - i
            &&& forall|j: int|
                0 <= j < emitted.len() - 1 ==> #[trigger] emitted[j] == CompositeAction::RunStep(
                    (i + 1 + j) as usize,
                )
            &&& emitted.last() == CompositeAction::Finish
        }),
    decreases c.steps@.len() - i,
{
    assert(c.steps.len() == c.steps@.len());
    let s = CompositeState::AwaitingStep { index: i };
    let next = composite_step_spec(c, s, events[0]);
    assert(state_after(c, s, events) == state_after(c, next.0, events.drop_first()));
    if i + 1 >= c.steps@.len() {
        assert(next == (
            CompositeState::Done { result: Ok(GitCommandResult::Success) },
            CompositeAction::Finish,
        ));
        lemma_done_emits_nothing(c, next.0, events.drop_first());
        assert(state_after(c, next.0, events.drop_first()) == next.0);
        assert(emitted_actions_from(c, s, events) =~= seq![CompositeAction::Finish]);
    } else {
        let i2 = (i + 1) as usize;
        assert(next == (
            CompositeState::AwaitingStep { index: i2 },
            CompositeAction::RunStep(i2),
        ));
        assert(forall|k: int|
            0 <= k < events.drop_first().len() ==> events.drop_first()[k]
                == CompositeEvent::Completed(GitCommandResult::Success));
        lemma_success_from_step(c, i2, events.drop_first());
        let rec = emitted_actions_from(c, next.0, events.drop_first());
        let emitted = emitted_actions_from(c, s, events);
        assert(emitted == seq![CompositeAction::RunStep(i2)] + rec);
        assert forall|j: int| 0 <= j < emitted.len() - 1 implies #[trigger] emitted[j]
            == CompositeAction::RunStep((i + 1 + j) as usize) by {
            if j > 0 {
                assert(emitted[j] == rec[j - 1]);
                assert(rec[j - 1] == CompositeAction::RunStep((i2 + 1 + (j - 1)) as usize));
            }
        }
        assert(emitted.last() == rec.last());
    }
}

/// The happy path of a guarded composite verb: when the check and every
/// step succeed, the run checks first, issues every step in order exactly
/// once, and its outcome is the terminal step's `Success`.
pub proof fn lemma_successful_guarded_run(c: CompositeSpec, events: Seq<CompositeEvent>)
    requires
        c.wf(),
        c.precondition is Some,
        events.len() == c.steps@.len() + 1,
        forall|k: int|
            0 <= k < events.len() ==> events[k] == CompositeEvent::Completed(
                GitCommandResult::Success,
            ),
    ensures
        run_state(c, events) == (CompositeState::Done { result: Ok(GitCommandResult::Success) }),
        ({
            let emitted = emitted_actions(c, events);
            &&& emitted.len() == c.steps@.len() + 2
            &&& emitted[0] == CompositeAction::RunPrecondition(c.precondition->0)
            &&& forall|j: int|
                0 <= j < c.steps@.len() ==> #[trigger] emitted[1 + j] == CompositeAction::RunStep(
                    j as usize,
                )
            &&& emitted.last() == CompositeAction::Finish
        }),
{
    assert(c.steps.len() == c.steps@.len());
    let begun = composite_begin_spec(c);
    let next = composite_step_spec(c, begun.0, events[0]);
    assert(next == (CompositeState::AwaitingStep { index: 0 }, CompositeAction::RunStep(0)));
    assert(run_state(c, events) == state_after(c, next.0, events.drop_first()));
    assert(forall|k: int|
        0 <= k < events.drop_first().len() ==> events.drop_first()[k] == CompositeEvent::Completed(
            GitCommandResult::Success,
        ));
    lemma_success_from_step(c, 0, events.drop_first());
    let rec = emitted_actions_from(c, next.0, events.drop_first());
    let emitted = emitted_actions(c, events);
    assert(emitted == seq![begun.1] + (seq![CompositeAction::RunStep(0)] + rec));
    assert forall|j: int| 0 <= j < c.steps@.len() implies #[trigger] emitted[1 + j]
        == CompositeAction::RunStep(j as usize) by {
        if j > 0 {
            assert(emitted[1 + j] == rec[j - 1]);
            assert(rec[j - 1] == CompositeAction::RunStep((0 + 1 + (j - 1)) as usize));
        }
    }
    assert(emitted.last() == rec.last());
}

/// A failed non-final step aborts the run with `StepFailed`; the terminal
/// step's outcome, success or error, is the verb's outcome.
pub proof fn lemma_step_outcomes(c: CompositeSpec, index: usize, res: GitCommandResult)
    requires
        c.wf(),
        index < c.steps@.len(),
    ensures
        index + 1 < c.steps@.len() && res == GitCommandResult::Error ==> composite_step_spec(
            c,
            CompositeState::AwaitingStep { index },
            CompositeEvent::Completed(res),
        ) == (
            CompositeState::Done { result: Err(GitFailure::StepFailed { step: index }) },
            CompositeAction::Finish,
        ),
        index + 1 == c.steps@.len() ==> composite_step_spec(
            c,
            CompositeState::AwaitingStep { index },
            CompositeEvent::Completed(res),
        ) == (CompositeState::Done { result: Ok(res) }, CompositeAction::Finish),
{
}

} // verus!
