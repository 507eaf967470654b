//! A whole probe over a transport that the caller supplies.
//!
//! The transport is the only thing that touches the network: it is handed one
//! operation at a time and reports what came of it. Everything else (which
//! operation comes next, what is sent, when the probe says goodbye, that the
//! connection is released, what the outcome is) is decided here, so it is the
//! same for a socket and for a scripted server.

use vstd::prelude::*;
use crate::outcome::Outcome;
use crate::request::{ProbeRequest, RequestView};
use crate::laws::{lemma_bounded, lemma_released_once};
use crate::run::{actions_from, actions_of, event_at, outcome_from, outcome_of, starts_with};
use crate::session::{Action, Event, Session, MAX_OPERATIONS};

verus! {

/// One thing for the transport to do.
#[derive(Clone, Debug, PartialEq, Eq)]
pub enum Operation {
    /// Open a connection to `host:port`; opening it, and every later read and
    /// write on it, may take `timeout_ms` milliseconds at most.
    Connect { host: String, port: u16, timeout_ms: u64 },
    /// Write `text` to the connection and read one reply.
    Send { text: String },
    /// Release the connection. This cannot fail.
    Release,
}

/// The plain content of an [`Operation`].
pub enum OperationView {
    Connect { host: Seq<char>, port: u16, timeout_ms: u64 },
    Send { text: Seq<char> },
    Release,
}

impl View for Operation {
    type V = OperationView;

    open spec fn view(&self) -> OperationView {
        match self {
            Operation::Connect { host, port, timeout_ms } => OperationView::Connect {
                host: host@,
                port: *port,
                timeout_ms: *timeout_ms,
            },
            Operation::Send { text } => OperationView::Send { text: text@ },
            Operation::Release => OperationView::Release,
        }
    }
}

impl RequestView {
    /// The operation by which `action` is carried out for this request.
    pub open spec fn operation(self, action: Action) -> OperationView {
        match action {
            Action::Connect => OperationView::Connect {
                host: self.host,
                port: self.port,
                timeout_ms: self.timeout_ms,
            },
            Action::Send(command) => OperationView::Send { text: self.line(command) },
            _ => OperationView::Release,
        }
    }
}

/// The record of one probe: every operation that the transport was handed,
/// what it reported for each, and the outcome.
#[derive(Clone, Debug, PartialEq, Eq)]
pub struct Transcript {
    pub operations: Vec<Operation>,
    pub events: Vec<Event>,
    pub outcome: Outcome,
}

/// Runs a probe for `request` over `transport`.
///
/// The transport is handed the operations of the probe in order, each exactly
/// once, and the probe goes by what it reports: the transcript holds both
/// sides, the actions behind the operations are the actions of a session that
/// was given these events, and the outcome is that session's. Whatever the
/// transport reports, the probe is over after at most `MAX_OPERATIONS`
/// operations, and the release of the connection is the last of them and no
/// other.
pub fn probe<T: Fn(&Operation) -> Event>(request: &ProbeRequest, transport: T) -> (t: Transcript)
    requires
        forall|operation: &Operation| call_requires(transport, (operation,)),
    ensures
        t.outcome == outcome_of(t.events@),
        t.operations@.len() == t.events@.len(),
        t.events@.len() == actions_of(t.events@).len() - 1,
        2 <= t.operations@.len() <= MAX_OPERATIONS,
        forall|i: int|
            0 <= i < t.operations@.len() ==> ((#[trigger] t.operations@[i])@ is Release <==> i
                == t.operations@.len() - 1),
        forall|i: int|
            0 <= i < t.operations@.len() ==> (#[trigger] t.operations@[i])@ == request@.operation(
                actions_of(t.events@)[i],
            ),
        forall|i: int|
            0 <= i < t.events@.len() ==> call_ensures(
                transport,
                (&t.operations@[i],),
                #[trigger] t.events@[i],
            ),
{
    let mut session = Session::new();
    let mut operations: Vec<Operation> = Vec::new();
    let mut events: Vec<Event> = Vec::new();
    let ghost mut actions: Seq<Action> = Seq::empty();
    while !session.is_closed()
        invariant
            forall|operation: &Operation| call_requires(transport, (operation,)),
            operations@.len() == events@.len() == actions.len(),
            events@.len() + session.remaining() <= MAX_OPERATIONS,
            forall|script: Seq<Event>| #[trigger]
                starts_with(script, events@) ==> actions_of(script) == actions + actions_from(
                    session,
                    script,
                    events@.len() as int,
                ) && outcome_of(script) == outcome_from(session, script, events@.len() as int),
            forall|i: int|
                0 <= i < operations@.len() ==> (#[trigger] operations@[i])@ == request@.operation(
                    actions[i],
                ),
            forall|i: int|
                0 <= i < events@.len() ==> call_ensures(
                    transport,
                    (&operations@[i],),
                    #[trigger] events@[i],
                ),
        decreases session.remaining(),
    {
        let action = session.next_action();
        let operation = match action {
            Action::Connect => Operation::Connect {
                host: request.host().to_owned(),
                port: request.port(),
                timeout_ms: request.timeout_ms(),
            },
            Action::Send(command) => Operation::Send { text: request.command_text(command) },
            _ => Operation::Release,
        };
        let event = transport(&operation);
        let ghost seen = events@;
        session.handle(&event);
        operations.push(operation);
        events.push(event);
        proof {
            actions = actions.push(action);
            assert forall|script: Seq<Event>| #[trigger]
                starts_with(script, events@) implies actions_of(script) == actions + actions_from(
                session,
                script,
                events@.len() as int,
            ) && outcome_of(script) == outcome_from(session, script, events@.len() as int) by {
                assert(starts_with(script, seen));
                assert(event_at(script, seen.len() as int) == event);
                assert(actions_of(script) =~= actions + actions_from(
                    session,
                    script,
                    events@.len() as int,
                ));
            }
        }
    }
    proof {
        assert(starts_with(events@, events@));
        assert(actions_of(events@) =~= actions.push(session.due()));
        lemma_bounded(events@);
        lemma_released_once(events@);
        assert forall|i: int| 0 <= i < operations@.len() implies ((#[trigger] operations@[i])@ is Release
            <==> i == operations@.len() - 1) by {
            assert(actions_of(events@)[i] == actions[i]);
            assert(!(actions_of(events@)[i] is Done));
        }
    }
    Transcript { operations, events, outcome: session.outcome }
}

} // verus!
