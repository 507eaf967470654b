//! The run of a session over everything that a transport reports.
//!
//! A run is a function of the events alone: the actions that were due, one
//! after the other, and the outcome at the end. Where the events have run out,
//! the transport stays silent and every further operation times out.

use vstd::prelude::*;
use crate::outcome::Outcome;
use crate::session::{Action, Event, Failure, Session, Stage};

verus! {

/// What a transport reports that has nothing more to say.
pub open spec fn silence() -> Event {
    Event::Failed(Failure::Timeout)
}

/// The answer to the action with index `i`; past the end of the events, every
/// operation times out.
pub open spec fn event_at(events: Seq<Event>, i: int) -> Event {
    if 0 <= i < events.len() {
        events[i]
    } else {
        silence()
    }
}

/// The actions of a session from the state `session` on, where `at` is the
/// index of the next event. The last action is `Done`.
pub open spec fn actions_from(session: Session, events: Seq<Event>, at: int) -> Seq<Action>
    decreases session.remaining(),
{
    if session.stage == Stage::Closed {
        seq![session.due()]
    } else {
        seq![session.due()] + actions_from(session.after(event_at(events, at)), events, at + 1)
    }
}

/// The outcome that a session in the state `session` ends with.
pub open spec fn outcome_from(session: Session, events: Seq<Event>, at: int) -> Outcome
    decreases session.remaining(),
{
    if session.stage == Stage::Closed {
        session.outcome
    } else {
        outcome_from(session.after(event_at(events, at)), events, at + 1)
    }
}

/// The actions of a whole probe whose transport reports `events`.
pub open spec fn actions_of(events: Seq<Event>) -> Seq<Action> {
    actions_from(Session::fresh(), events, 0)
}

/// The outcome of a whole probe whose transport reports `events`.
pub open spec fn outcome_of(events: Seq<Event>) -> Outcome {
    outcome_from(Session::fresh(), events, 0)
}

/// Whether `events` starts with `first`.
pub open spec fn starts_with(events: Seq<Event>, first: Seq<Event>) -> bool {
    &&& first.len() <= events.len()
    &&& forall|i: int| 0 <= i < first.len() ==> events[i] == first[i]
}

} // verus!
