use vstd::prelude::*;

use crate::dispatch::{actions_view, Action, ActionView, CallFailure};
use crate::pallet::{copy_bytes, Completion, Pallet};
use crate::state::DexState;
use crate::types::DispatchError;

verus! {

/// How one action of a call went in the runtime; `E` is the runtime's error.
pub enum ActionOutcome<E> {
    Succeeded,
    Failed(E),
}

/// What a call does after an action.
pub enum Step<E> {
    /// Go on with the next action.
    Continue,
    /// End the call with this error; no later action is made.
    Fail(E),
    /// Panic.
    Trap,
}

/// The call's next step: a failed transfer ends the call with the transfer's
/// error, a failed contract call goes on or panics as the action says, and a
/// success goes on.
pub open spec fn spec_step<E>(action: ActionView, outcome: ActionOutcome<E>) -> Step<E> {
    match outcome {
        ActionOutcome::Succeeded => Step::Continue,
        ActionOutcome::Failed(e) => match action {
            ActionView::Transfer { .. } => Step::Fail(e),
            ActionView::ContractCall { on_failure, .. } => match on_failure {
                CallFailure::Ignored => Step::Continue,
                CallFailure::Trap => Step::Trap,
            },
        },
    }
}

/// Decides the call's next step from an action and how it went.
pub fn step<E>(action: &Action, outcome: ActionOutcome<E>) -> (next: Step<E>)
    ensures
        next == spec_step(action@, outcome),
{
    match outcome {
        ActionOutcome::Succeeded => Step::Continue,
        ActionOutcome::Failed(e) => match action {
            Action::Transfer { .. } => Step::Fail(e),
            Action::ContractCall { on_failure, .. } => match on_failure {
                CallFailure::Ignored => Step::Continue,
                CallFailure::Trap => Step::Trap,
            },
        },
    }
}

/// How the actions of a call end, given the outcome of each action made.
pub enum RunEnd<E> {
    Completed,
    Failed(E),
    Trapped,
}

/// Runs `actions` in order against their `outcomes`, stopping at the first step
/// that does not go on.
pub open spec fn spec_run<E>(actions: Seq<ActionView>, outcomes: Seq<ActionOutcome<E>>) -> RunEnd<E>
    decreases actions.len(),
{
    if actions.len() == 0 || outcomes.len() == 0 {
        RunEnd::Completed
    } else {
        match spec_step(actions[0], outcomes[0]) {
            Step::Continue => spec_run(actions.drop_first(), outcomes.drop_first()),
            Step::Fail(e) => RunEnd::Failed(e),
            Step::Trap => RunEnd::Trapped,
        }
    }
}

/// How many actions the run makes before it stops.
pub open spec fn spec_performed<E>(actions: Seq<ActionView>, outcomes: Seq<ActionOutcome<E>>) -> nat
    decreases actions.len(),
{
    if actions.len() == 0 || outcomes.len() == 0 {
        0
    } else {
        match spec_step(actions[0], outcomes[0]) {
            Step::Continue => 1 + spec_performed(actions.drop_first(), outcomes.drop_first()),
            _ => 1,
        }
    }
}

/// Why a whole call did not complete.
pub enum CallResult<E> {
    Completed,
    /// The pallet refused the call before any effect.
    Refused(DispatchError),
    /// A transfer failed; the call ends with its error.
    Failed(E),
    /// A contract call that must succeed failed; the call panics.
    Trapped,
}

/// A whole swap, stake or redemption: the pallet's checks give the actions (or
/// refuse the call), the actions run against their outcomes, and only a
/// completed run deposits the completion event. The pallet's storage is only
/// read.
pub open spec fn spec_call<E>(
    state: DexState,
    plan: Result<Seq<ActionView>, DispatchError>,
    completion: Completion,
    outcomes: Seq<ActionOutcome<E>>,
) -> (DexState, CallResult<E>) {
    match plan {
        Err(refusal) => (state, CallResult::Refused(refusal)),
        Ok(actions) => match spec_run(actions, outcomes) {
            RunEnd::Completed => (state.deposit(completion.event()), CallResult::Completed),
            RunEnd::Failed(e) => (state, CallResult::Failed(e)),
            RunEnd::Trapped => (state, CallResult::Trapped),
        },
    }
}

/// When every step before `k` goes on, the run is the run of what follows `k`.
pub proof fn lemma_run_skips_prefix<E>(
    actions: Seq<ActionView>,
    outcomes: Seq<ActionOutcome<E>>,
    k: int,
)
    requires
        0 <= k <= actions.len(),
        k <= outcomes.len(),
        forall|j: int| 0 <= j < k ==> #[trigger] spec_step(actions[j], outcomes[j]) is Continue,
    ensures
        spec_run(actions, outcomes) == spec_run(actions.skip(k), outcomes.skip(k)),
        spec_performed(actions, outcomes) == k + spec_performed(actions.skip(k), outcomes.skip(k)),
    decreases k,
{
    if k == 0 {
        assert(actions.skip(0) =~= actions);
        assert(outcomes.skip(0) =~= outcomes);
    } else {
        assert(spec_step(actions[0], outcomes[0]) is Continue);
        let a = actions.drop_first();
        let o = outcomes.drop_first();
        assert forall|j: int| 0 <= j < k - 1 implies #[trigger] spec_step(a[j], o[j]) is Continue by {
            assert(spec_step(actions[j + 1], outcomes[j + 1]) is Continue);
        }
        lemma_run_skips_prefix(a, o, k - 1);
        assert(a.skip(k - 1) =~= actions.skip(k));
        assert(o.skip(k - 1) =~= outcomes.skip(k));
    }
}

/// The running state of a call's actions, driven by the runtime: it hands out
/// the next action, takes back how it went, and stops at the first step that
/// does not go on.
pub struct CallRun<E> {
    actions: Vec<Action>,
    done: usize,
    stopped: bool,
    completion: Completion,
    outcomes: Ghost<Seq<ActionOutcome<E>>>,
}

/// The mathematical form of a [`CallRun`].
pub struct CallRunView<E> {
    pub actions: Seq<ActionView>,
    pub done: nat,
    pub stopped: bool,
    pub completion: Completion,
    /// How each action made so far went.
    pub outcomes: Seq<ActionOutcome<E>>,
}

impl<E> View for CallRun<E> {
    type V = CallRunView<E>;

    closed spec fn view(&self) -> CallRunView<E> {
        CallRunView {
            actions: actions_view(self.actions@),
            done: self.done as nat,
            stopped: self.stopped,
            completion: self.completion,
            outcomes: self.outcomes@,
        }
    }
}

impl<E> CallRunView<E> {
    /// The run made `done` actions, against `outcomes`; it stopped exactly when
    /// the last step did not go on.
    pub open spec fn wf(self) -> bool {
        &&& self.done <= self.actions.len()
        &&& self.outcomes.len() == self.done
        &&& if self.stopped {
            &&& self.done > 0
            &&& forall|j: int|
                0 <= j < self.done - 1 ==> #[trigger] spec_step(self.actions[j], self.outcomes[j]) is Continue
            &&& !(spec_step(self.actions[self.done - 1], self.outcomes[self.done - 1]) is Continue)
        } else {
            forall|j: int| 0 <= j < self.done ==> #[trigger] spec_step(self.actions[j], self.outcomes[j]) is Continue
        }
    }

    /// Every action was made and none stopped the run.
    pub open spec fn completed(self) -> bool {
        !self.stopped && self.done == self.actions.len()
    }
}

fn copy_action(action: &Action) -> (copy: Action)
    ensures
        copy@ == action@,
{
    match action {
        Action::Transfer { from, to, amount } => Action::Transfer { from: *from, to: *to, amount: *amount },
        Action::ContractCall { origin, dest, value, gas_limit, data, on_failure } => Action::ContractCall {
            origin: *origin,
            dest: *dest,
            value: *value,
            gas_limit: *gas_limit,
            data: copy_bytes(data),
            on_failure: *on_failure,
        },
    }
}

impl<E> CallRun<E> {
    /// A run of `actions` for a call that `completion` will close.
    pub fn new(actions: Vec<Action>, completion: Completion) -> (run: CallRun<E>)
        ensures
            run@.wf(),
            run@.actions == actions_view(actions@),
            run@.done == 0,
            !run@.stopped,
            run@.completion == completion,
    {
        CallRun { actions, done: 0, stopped: false, completion, outcomes: Ghost(Seq::empty()) }
    }

    /// The next action to make: none once every action is made or the run stopped.
    pub fn next_action(&self) -> (next: Option<Action>)
        requires
            self@.wf(),
        ensures
            next is Some <==> (!self@.stopped && self@.done < self@.actions.len()),
            next is Some ==> next->0@ == self@.actions[self@.done as int],
    {
        if self.stopped || self.done >= self.actions.len() {
            None
        } else {
            Some(copy_action(&self.actions[self.done]))
        }
    }

    /// Takes back how the next action went and says what the call does now.
    pub fn record(&mut self, outcome: ActionOutcome<E>) -> (next: Step<E>)
        requires
            old(self)@.wf(),
            !old(self)@.stopped,
            old(self)@.done < old(self)@.actions.len(),
        ensures
            final(self)@.wf(),
            next == spec_step(old(self)@.actions[old(self)@.done as int], outcome),
            final(self)@.actions == old(self)@.actions,
            final(self)@.completion == old(self)@.completion,
            final(self)@.done == old(self)@.done + 1,
            final(self)@.outcomes == old(self)@.outcomes.push(outcome),
            final(self)@.stopped == !(next is Continue),
    {
        let ghost seen = outcome;
        assert(self.actions@.len() == old(self)@.actions.len());
        let next = step(&self.actions[self.done], outcome);
        self.outcomes = Ghost(self.outcomes@.push(seen));
        let count = self.actions.len();
        assert(self.done < count);
        self.done = self.done + 1;
        self.stopped = match next {
            Step::Continue => false,
            _ => true,
        };
        proof {
            let v = self@;
            assert forall|j: int| 0 <= j < v.done - 1 implies #[trigger] spec_step(
                v.actions[j],
                v.outcomes[j],
            ) is Continue by {
                assert(v.outcomes[j] == old(self)@.outcomes[j]);
            }
            if !self.stopped {
                assert forall|j: int| 0 <= j < v.done implies #[trigger] spec_step(
                    v.actions[j],
                    v.outcomes[j],
                ) is Continue by {
                    if j < v.done - 1 {
                        assert(v.outcomes[j] == old(self)@.outcomes[j]);
                    }
                }
            }
        }
        next
    }
}

/// A run that made every action without stopping has completed in the sense of
/// [`spec_run`].
pub proof fn lemma_completed_run<E>(run: CallRunView<E>)
    requires
        run.wf(),
        run.completed(),
    ensures
        spec_run(run.actions, run.outcomes) == RunEnd::<E>::Completed,
        spec_performed(run.actions, run.outcomes) == run.actions.len(),
{
    lemma_run_skips_prefix(run.actions, run.outcomes, run.done as int);
    assert(run.actions.skip(run.done as int).len() == 0);
}

impl Pallet {
    /// Closes a call whose actions all ran without stopping: deposits the
    /// completion event, as the whole-call rule [`spec_call`] gives.
    pub fn conclude<E>(&mut self, run: CallRun<E>)
        requires
            run@.wf(),
            run@.completed(),
        ensures
            final(self)@ == old(self)@.deposit(run@.completion.event()),
            (final(self)@, CallResult::<E>::Completed) == spec_call(
                old(self)@,
                Ok(run@.actions),
                run@.completion,
                run@.outcomes,
            ),
    {
        proof {
            lemma_completed_run(run@);
        }
        self.deposit_completion(run.completion);
    }
}

} // verus!
