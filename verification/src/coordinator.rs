use vstd::prelude::*;
use crate::polling::Outcome;

verus! {

/// Where one task stands, from this node's point of view.
#[derive(Debug, Clone, Copy, PartialEq, Eq, Structural)]
pub enum TaskState {
    /// Nothing was observed of the task yet.
    Idle,
    /// A request event that names this node was observed.
    Requested,
    /// The on-chain call is mined and the proving service was asked.
    ProofDispatched,
    /// The proving service answered with a proof.
    ProofReceived,
    /// The polling for the task's record is over. Terminal.
    Reconciled(Outcome),
}

/// What the coordinator learns about a task.
#[derive(Debug, Clone, Copy, PartialEq, Eq, Structural)]
pub enum TaskSignal {
    /// A request event whose prover is this node.
    RequestObserved,
    /// The on-chain call was mined and the request to the proving service
    /// was sent.
    Dispatched,
    /// The proving service returned a proof.
    ProofArrived,
    /// The polling for the task's record ended.
    PollingEnded(Outcome),
}

/// How far a state is along the life of a task.
pub open spec fn rank(state: TaskState) -> nat {
    match state {
        TaskState::Idle => 0,
        TaskState::Requested => 1,
        TaskState::ProofDispatched => 2,
        TaskState::ProofReceived => 3,
        TaskState::Reconciled(_) => 4,
    }
}

/// The state after a signal. A signal that the current state does not wait
/// for, such as a repeated event, leaves the state as it is.
pub open spec fn step(state: TaskState, signal: TaskSignal) -> TaskState {
    match (state, signal) {
        (TaskState::Idle, TaskSignal::RequestObserved) => TaskState::Requested,
        (TaskState::Requested, TaskSignal::Dispatched) => TaskState::ProofDispatched,
        (TaskState::ProofDispatched, TaskSignal::ProofArrived) => TaskState::ProofReceived,
        (TaskState::ProofReceived, TaskSignal::PollingEnded(outcome)) => TaskState::Reconciled(
            outcome,
        ),
        _ => state,
    }
}

/// The state after a run of signals, taken in order.
pub open spec fn run(state: TaskState, signals: Seq<TaskSignal>) -> TaskState
    decreases signals.len(),
{
    if signals.len() == 0 {
        state
    } else {
        step(run(state, signals.drop_last()), signals.last())
    }
}

impl TaskState {
    /// The state of a task of which nothing was observed.
    pub fn new() -> (state: TaskState)
        ensures
            state == TaskState::Idle,
    {
        TaskState::Idle
    }

    /// Whether the task has reached its end.
    pub fn is_terminal(&self) -> (done: bool)
        ensures
            done == (*self is Reconciled),
    {
        match self {
            TaskState::Reconciled(_) => true,
            _ => false,
        }
    }

    /// The state after `signal`.
    pub fn transition(self, signal: TaskSignal) -> (after: TaskState)
        ensures
            after == step(self, signal),
    {
        match (self, signal) {
            (TaskState::Idle, TaskSignal::RequestObserved) => TaskState::Requested,
            (TaskState::Requested, TaskSignal::Dispatched) => TaskState::ProofDispatched,
            (TaskState::ProofDispatched, TaskSignal::ProofArrived) => TaskState::ProofReceived,
            (TaskState::ProofReceived, TaskSignal::PollingEnded(outcome)) => TaskState::Reconciled(
                outcome,
            ),
            (state, _) => state,
        }
    }

    /// The state after all of `signals`, taken in order.
    pub fn transition_all(self, signals: &[TaskSignal]) -> (after: TaskState)
        ensures
            after == run(self, signals@),
    {
        let mut state = self;
        let mut i: usize = 0;
        while i < signals.len()
            invariant
                i <= signals@.len(),
                state == run(self, signals@.subrange(0, i as int)),
            decreases signals@.len() - i,
        {
            proof {
                let taken = signals@.subrange(0, i as int + 1);
                assert(taken.drop_last() =~= signals@.subrange(0, i as int));
                assert(taken.last() == signals@[i as int]);
            }
            state = state.transition(signals[i]);
            i += 1;
        }
        assert(signals@.subrange(0, i as int) =~= signals@);
        state
    }
}

/// No task goes backward: a signal leaves the state where it is or moves it
/// one stage on.
pub proof fn law_no_backward_step(state: TaskState, signal: TaskSignal)
    ensures
        step(state, signal) == state || rank(step(state, signal)) == rank(state) + 1,
{
}

/// A reconciled task stays as it is, whatever is signalled: a repeated
/// event is ignored.
pub proof fn law_reconciled_is_terminal(outcome: Outcome, signal: TaskSignal)
    ensures
        step(TaskState::Reconciled(outcome), signal) == TaskState::Reconciled(outcome),
{
}

/// Over any run of signals a task only moves forward, and a reconciled task
/// ends as it began.
pub proof fn law_runs_move_forward(state: TaskState, signals: Seq<TaskSignal>)
    ensures
        rank(run(state, signals)) >= rank(state),
        state is Reconciled ==> run(state, signals) == state,
    decreases signals.len(),
{
    if signals.len() > 0 {
        law_runs_move_forward(state, signals.drop_last());
        law_no_backward_step(run(state, signals.drop_last()), signals.last());
    }
}

/// The four signals of an undisturbed task, in order, lead from idle to
/// reconciled with the outcome of the polling.
pub proof fn law_full_life_reaches_reconciled(outcome: Outcome)
    ensures
        run(
            TaskState::Idle,
            seq![
                TaskSignal::RequestObserved,
                TaskSignal::Dispatched,
                TaskSignal::ProofArrived,
                TaskSignal::PollingEnded(outcome),
            ],
        ) == TaskState::Reconciled(outcome),
{
    let all = seq![
        TaskSignal::RequestObserved,
        TaskSignal::Dispatched,
        TaskSignal::ProofArrived,
        TaskSignal::PollingEnded(outcome),
    ];
    let three = seq![TaskSignal::RequestObserved, TaskSignal::Dispatched, TaskSignal::ProofArrived];
    let two = seq![TaskSignal::RequestObserved, TaskSignal::Dispatched];
    let one = seq![TaskSignal::RequestObserved];
    assert(all.drop_last() =~= three);
    assert(three.drop_last() =~= two);
    assert(two.drop_last() =~= one);
    assert(one.drop_last() =~= Seq::<TaskSignal>::empty());
    assert(run(TaskState::Idle, Seq::<TaskSignal>::empty()) == TaskState::Idle);
    assert(one.last() == TaskSignal::RequestObserved);
    assert(run(TaskState::Idle, one) == TaskState::Requested);
    assert(two.last() == TaskSignal::Dispatched);
    assert(run(TaskState::Idle, two) == TaskState::ProofDispatched);
    assert(three.last() == TaskSignal::ProofArrived);
    assert(run(TaskState::Idle, three) == TaskState::ProofReceived);
    assert(all.last() == TaskSignal::PollingEnded(outcome));
}

} // verus!
