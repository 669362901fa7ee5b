use vstd::prelude::*;

verus! {

/// How many times the record store is asked for a task's record before the
/// reconciliation gives up.
pub const MAX_LOOKUPS: u8 = 5;

/// Seconds to wait after a lookup that found nothing.
pub const RETRY_DELAY_SECS: u64 = 2;

/// How the reconciliation of one task ended.
#[derive(Debug, Clone, Copy, PartialEq, Eq, Structural)]
pub enum Outcome {
    /// Both recomputed digests equal the finalized ones.
    Matched,
    /// At least one recomputed digest differs from the finalized one.
    Mismatched,
    /// No finalized record appeared within the allowed lookups.
    TimedOut,
}

/// Where a polling session stands.
#[derive(Debug, Clone, Copy, PartialEq, Eq, Structural)]
pub enum Phase {
    /// A lookup is due or under way.
    Looking,
    /// The delay after a fruitless lookup is running.
    Waiting,
    /// The session has ended.
    Done(Outcome),
}

/// What happened outside since the last step.
#[derive(Debug, Clone, Copy, PartialEq, Eq, Structural)]
pub enum PollEvent {
    /// The lookup found the task's record; `matches` says whether its digests
    /// equal the recomputed ones.
    Found { matches: bool },
    /// The lookup found no record.
    NotFound,
    /// The retry delay is over.
    DelayElapsed,
}

/// What the caller is to do next.
#[derive(Debug, Clone, Copy, PartialEq, Eq, Structural)]
pub enum PollAction {
    /// Ask the record store for the task's record.
    Lookup,
    /// Wait for this many seconds, then report that the delay is over.
    Sleep { secs: u64 },
    /// The session is over with this outcome.
    Report { outcome: Outcome },
    /// The event does not belong to the current phase; nothing changes.
    Ignore,
}

/// A polling session as mathematics sees it.
pub struct PollState {
    pub phase: Phase,
    /// Lookups answered so far.
    pub made: nat,
}

/// The state in which every session starts: a first lookup is due.
pub open spec fn initial_state() -> PollState {
    PollState { phase: Phase::Looking, made: 0 }
}

/// The verdict on a record that was found.
pub open spec fn verdict(matches: bool) -> Outcome {
    if matches {
        Outcome::Matched
    } else {
        Outcome::Mismatched
    }
}

/// The transition function of a polling session: the state after `event`
/// and the action that it calls for.
pub open spec fn next(state: PollState, event: PollEvent) -> (PollState, PollAction) {
    match (state.phase, event) {
        (Phase::Looking, PollEvent::Found { matches }) => (
            PollState { phase: Phase::Done(verdict(matches)), made: state.made + 1 },
            PollAction::Report { outcome: verdict(matches) },
        ),
        (Phase::Looking, PollEvent::NotFound) => (
            PollState { phase: Phase::Waiting, made: state.made + 1 },
            PollAction::Sleep { secs: RETRY_DELAY_SECS },
        ),
        (Phase::Waiting, PollEvent::DelayElapsed) => if state.made < MAX_LOOKUPS {
            (PollState { phase: Phase::Looking, made: state.made }, PollAction::Lookup)
        } else {
            (
                PollState { phase: Phase::Done(Outcome::TimedOut), made: state.made },
                PollAction::Report { outcome: Outcome::TimedOut },
            )
        },
        _ => (state, PollAction::Ignore),
    }
}

/// The states that a session can be in: a lookup is only due while fewer
/// than the maximum were answered, and a timeout is only reported after the
/// last one.
pub open spec fn reachable(state: PollState) -> bool {
    match state.phase {
        Phase::Looking => state.made < MAX_LOOKUPS,
        Phase::Waiting => 1 <= state.made <= MAX_LOOKUPS,
        Phase::Done(Outcome::TimedOut) => state.made == MAX_LOOKUPS,
        Phase::Done(_) => 1 <= state.made <= MAX_LOOKUPS,
    }
}

/// The state after `rounds` lookups that found nothing, each followed by its
/// delay.
pub open spec fn after_misses(rounds: nat) -> PollState
    decreases rounds,
{
    if rounds == 0 {
        initial_state()
    } else {
        next(next(after_misses((rounds - 1) as nat), PollEvent::NotFound).0, PollEvent::DelayElapsed).0
    }
}

/// The bounded retry loop of one reconciliation, as a state machine: the
/// caller performs lookups and delays and reports them with
/// [`Polling::advance`].
#[derive(Debug)]
pub struct Polling {
    phase: Phase,
    made: u8,
}

impl View for Polling {
    type V = PollState;

    closed spec fn view(&self) -> PollState {
        PollState { phase: self.phase, made: self.made as nat }
    }
}

impl Polling {
    /// Every session there is stands in a reachable state.
    #[verifier::type_invariant]
    pub open spec fn well_formed(&self) -> bool {
        reachable(self@)
    }

    /// A session in which the first lookup is due.
    pub fn start() -> (session: Polling)
        ensures
            session@ == initial_state(),
    {
        Polling { phase: Phase::Looking, made: 0 }
    }

    /// The current phase.
    pub fn phase(&self) -> (phase: Phase)
        ensures
            phase == self@.phase,
    {
        self.phase
    }

    /// The number of lookups answered so far.
    pub fn lookups_made(&self) -> (made: u8)
        ensures
            made == self@.made,
    {
        self.made
    }

    /// The outcome, once the session is over.
    pub fn outcome(&self) -> (outcome: Option<Outcome>)
        ensures
            outcome == match self@.phase {
                Phase::Done(o) => Some(o),
                _ => None::<Outcome>,
            },
    {
        match self.phase {
            Phase::Done(o) => Some(o),
            _ => None,
        }
    }

    /// Takes one event and says what to do next.
    pub fn advance(&mut self, event: PollEvent) -> (action: PollAction)
        ensures
            reachable(old(self)@),
            reachable(final(self)@),
            (final(self)@, action) == next(old(self)@, event),
    {
        proof {
            use_type_invariant(&*self);
        }
        match (self.phase, event) {
            (Phase::Looking, PollEvent::Found { matches }) => {
                let outcome = if matches {
                    Outcome::Matched
                } else {
                    Outcome::Mismatched
                };
                *self = Polling { phase: Phase::Done(outcome), made: self.made + 1 };
                PollAction::Report { outcome }
            },
            (Phase::Looking, PollEvent::NotFound) => {
                *self = Polling { phase: Phase::Waiting, made: self.made + 1 };
                PollAction::Sleep { secs: RETRY_DELAY_SECS }
            },
            (Phase::Waiting, PollEvent::DelayElapsed) => {
                if self.made < MAX_LOOKUPS {
                    *self = Polling { phase: Phase::Looking, made: self.made };
                    PollAction::Lookup
                } else {
                    *self = Polling { phase: Phase::Done(Outcome::TimedOut), made: self.made };
                    PollAction::Report { outcome: Outcome::TimedOut }
                }
            },
            _ => PollAction::Ignore,
        }
    }
}

/// Every step leads from a reachable state to a reachable state.
pub proof fn law_steps_stay_reachable(state: PollState, event: PollEvent)
    requires
        reachable(state),
    ensures
        reachable(next(state, event).0),
{
}

/// A session never goes back: the number of answered lookups never falls,
/// and a session that is over stays as it is, whatever is reported to it.
pub proof fn law_no_step_goes_back(state: PollState, event: PollEvent)
    ensures
        next(state, event).0.made >= state.made,
        state.phase is Done ==> next(state, event) == (state, PollAction::Ignore),
{
}

/// While the record never appears, a session asks exactly the maximum number
/// of times: after fewer fruitless rounds another lookup is due, and the
/// last fruitless round ends the session with a timeout.
pub proof fn law_timeout_after_exactly_max_lookups(rounds: nat)
    requires
        rounds <= MAX_LOOKUPS,
    ensures
        rounds < MAX_LOOKUPS ==> after_misses(rounds) == (PollState {
            phase: Phase::Looking,
            made: rounds,
        }),
        rounds == MAX_LOOKUPS ==> after_misses(rounds) == (PollState {
            phase: Phase::Done(Outcome::TimedOut),
            made: MAX_LOOKUPS as nat,
        }),
    decreases rounds,
{
    if rounds > 0 {
        law_timeout_after_exactly_max_lookups((rounds - 1) as nat);
    }
}

/// A record that is found ends the session at once, with the verdict on it
/// and without a further lookup.
pub proof fn law_found_record_ends_session(state: PollState, matches: bool)
    requires
        state.phase == Phase::Looking,
    ensures
        next(state, PollEvent::Found { matches }) == (
            PollState { phase: Phase::Done(verdict(matches)), made: state.made + 1 },
            PollAction::Report { outcome: verdict(matches) },
        ),
{
}

} // verus!
