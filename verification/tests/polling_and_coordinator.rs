use proofplus_client::coordinator::{TaskSignal, TaskState};
use proofplus_client::polling::{
    Outcome, Phase, PollAction, PollEvent, Polling, MAX_LOOKUPS, RETRY_DELAY_SECS,
};

#[test]
fn polling_constants() {
    assert_eq!(MAX_LOOKUPS, 5);
    assert_eq!(RETRY_DELAY_SECS, 2);
}

#[test]
fn polling_starts_with_a_lookup_due() {
    let session = Polling::start();
    assert_eq!(session.phase(), Phase::Looking);
    assert_eq!(session.lookups_made(), 0);
    assert_eq!(session.outcome(), None);
}

#[test]
fn polling_times_out_after_five_misses_not_earlier() {
    let mut session = Polling::start();
    let mut slept = 0u64;
    for round in 1..=5u8 {
        assert_eq!(session.phase(), Phase::Looking);
        assert_eq!(session.advance(PollEvent::NotFound), PollAction::Sleep { secs: 2 });
        slept += 2;
        assert_eq!(session.lookups_made(), round);
        assert_eq!(session.phase(), Phase::Waiting);
        let action = session.advance(PollEvent::DelayElapsed);
        if round < 5 {
            assert_eq!(action, PollAction::Lookup);
            assert_eq!(session.outcome(), None);
        } else {
            assert_eq!(action, PollAction::Report { outcome: Outcome::TimedOut });
        }
    }
    assert_eq!(slept, 10);
    assert_eq!(session.outcome(), Some(Outcome::TimedOut));
    assert_eq!(session.lookups_made(), 5);
    assert_eq!(session.advance(PollEvent::NotFound), PollAction::Ignore);
    assert_eq!(session.advance(PollEvent::Found { matches: true }), PollAction::Ignore);
    assert_eq!(session.outcome(), Some(Outcome::TimedOut));
    assert_eq!(session.lookups_made(), 5);
}

#[test]
fn polling_ends_on_the_first_record_found() {
    let mut session = Polling::start();
    assert_eq!(session.advance(PollEvent::NotFound), PollAction::Sleep { secs: 2 });
    assert_eq!(session.advance(PollEvent::DelayElapsed), PollAction::Lookup);
    assert_eq!(
        session.advance(PollEvent::Found { matches: true }),
        PollAction::Report { outcome: Outcome::Matched }
    );
    assert_eq!(session.phase(), Phase::Done(Outcome::Matched));
    assert_eq!(session.lookups_made(), 2);
}

#[test]
fn polling_reports_a_mismatch() {
    let mut session = Polling::start();
    assert_eq!(
        session.advance(PollEvent::Found { matches: false }),
        PollAction::Report { outcome: Outcome::Mismatched }
    );
    assert_eq!(session.outcome(), Some(Outcome::Mismatched));
    assert_eq!(session.lookups_made(), 1);
}

#[test]
fn polling_ignores_events_out_of_phase() {
    let mut session = Polling::start();
    assert_eq!(session.advance(PollEvent::DelayElapsed), PollAction::Ignore);
    assert_eq!(session.phase(), Phase::Looking);
    assert_eq!(session.lookups_made(), 0);
    assert_eq!(session.advance(PollEvent::NotFound), PollAction::Sleep { secs: 2 });
    assert_eq!(session.advance(PollEvent::NotFound), PollAction::Ignore);
    assert_eq!(session.advance(PollEvent::Found { matches: true }), PollAction::Ignore);
    assert_eq!(session.phase(), Phase::Waiting);
    assert_eq!(session.lookups_made(), 1);
}

#[test]
fn task_walks_through_its_life() {
    let mut state = TaskState::new();
    assert_eq!(state, TaskState::Idle);
    state = state.transition(TaskSignal::RequestObserved);
    assert_eq!(state, TaskState::Requested);
    state = state.transition(TaskSignal::Dispatched);
    assert_eq!(state, TaskState::ProofDispatched);
    state = state.transition(TaskSignal::ProofArrived);
    assert_eq!(state, TaskState::ProofReceived);
    assert!(!state.is_terminal());
    state = state.transition(TaskSignal::PollingEnded(Outcome::Mismatched));
    assert_eq!(state, TaskState::Reconciled(Outcome::Mismatched));
    assert!(state.is_terminal());
}

#[test]
fn task_ignores_signals_out_of_order() {
    assert_eq!(TaskState::Idle.transition(TaskSignal::Dispatched), TaskState::Idle);
    assert_eq!(TaskState::Idle.transition(TaskSignal::ProofArrived), TaskState::Idle);
    assert_eq!(
        TaskState::Idle.transition(TaskSignal::PollingEnded(Outcome::Matched)),
        TaskState::Idle
    );
    assert_eq!(TaskState::Requested.transition(TaskSignal::RequestObserved), TaskState::Requested);
    assert_eq!(
        TaskState::ProofDispatched.transition(TaskSignal::Dispatched),
        TaskState::ProofDispatched
    );
    assert_eq!(
        TaskState::ProofReceived.transition(TaskSignal::RequestObserved),
        TaskState::ProofReceived
    );
}

#[test]
fn reconciled_task_ignores_everything() {
    let done = TaskState::Reconciled(Outcome::TimedOut);
    for signal in [
        TaskSignal::RequestObserved,
        TaskSignal::Dispatched,
        TaskSignal::ProofArrived,
        TaskSignal::PollingEnded(Outcome::Matched),
    ] {
        assert_eq!(done.transition(signal), done);
    }
}

#[test]
fn transition_all_takes_signals_in_order() {
    let signals = [
        TaskSignal::RequestObserved,
        TaskSignal::RequestObserved,
        TaskSignal::Dispatched,
        TaskSignal::ProofArrived,
        TaskSignal::PollingEnded(Outcome::Matched),
        TaskSignal::PollingEnded(Outcome::TimedOut),
    ];
    assert_eq!(TaskState::Idle.transition_all(&signals), TaskState::Reconciled(Outcome::Matched));
    assert_eq!(TaskState::Idle.transition_all(&signals[..3]), TaskState::ProofDispatched);
    assert_eq!(TaskState::Idle.transition_all(&[]), TaskState::Idle);
}
