//! What holds of every probe, whatever the transport reports.

use vstd::prelude::*;
use crate::command::Command;
use crate::outcome::Outcome;
use crate::run::{actions_from, actions_of, event_at, outcome_from, outcome_of};
use crate::session::{Action, Event, Session, Stage, Teardown, MAX_OPERATIONS};

verus! {

/// Whether `event` is a reply that reports success.
pub open spec fn accepts(event: Event) -> bool {
    event matches Event::Reply(reply) && reply.positive()
}

/// Whether `action` belongs to the exchange proper: the connect, or a command
/// other than the termination command.
pub open spec fn in_exchange(action: Action) -> bool {
    action == Action::Connect || (action matches Action::Send(command) && command
        != Command::Quit)
}

/// The actions of a probe that ends after `steps` steps of the exchange, with
/// or without a farewell.
pub open spec fn run_shape(steps: int, farewell: bool, outcome: Outcome) -> Seq<Action> {
    let exchange = seq![
        Action::Connect,
        Action::Send(Command::Hello),
        Action::Send(Command::MailFrom),
        Action::Send(Command::RcptTo),
    ].take(steps);
    let parting = if farewell {
        seq![Action::Send(Command::Quit), Action::Release, Action::Done(outcome)]
    } else {
        seq![Action::Release, Action::Done(outcome)]
    };
    exchange + parting
}

/// The teardown of a session, from the farewell or from the release on.
proof fn lemma_teardown(session: Session, events: Seq<Event>, at: int)
    requires
        session.stage != Stage::Closed,
        session.teardown != Teardown::NotBegun,
    ensures
        outcome_from(session, events, at) == session.outcome,
        session.teardown == Teardown::Release ==> actions_from(session, events, at) == seq![
            Action::Release,
            Action::Done(session.outcome),
        ],
        session.teardown == Teardown::Farewell ==> actions_from(session, events, at) == seq![
            Action::Send(Command::Quit),
            Action::Release,
            Action::Done(session.outcome),
        ],
{
    reveal_with_fuel(actions_from, 4);
    reveal_with_fuel(outcome_from, 4);
    if session.teardown == Teardown::Release {
        assert(actions_from(session, events, at) =~= seq![
            Action::Release,
            Action::Done(session.outcome),
        ]);
    } else {
        assert(actions_from(session, events, at) =~= seq![
            Action::Send(Command::Quit),
            Action::Release,
            Action::Done(session.outcome),
        ]);
    }
}

/// How many steps of the exchange a probe against `events` performs: the
/// connect, and one command for each success before it.
pub open spec fn exchange_steps(events: Seq<Event>) -> int {
    if !(event_at(events, 0) is Connected) {
        1
    } else if !accepts(event_at(events, 1)) {
        2
    } else if !accepts(event_at(events, 2)) {
        3
    } else {
        4
    }
}

/// Whether a probe against `events` says goodbye before it releases the
/// connection: it does when the last answer of the exchange was a reply.
pub open spec fn parts_politely(events: Seq<Event>) -> bool {
    exchange_steps(events) >= 2 && event_at(events, exchange_steps(events) - 1) is Reply
}

/// The events that make the same difference to a probe: two replies with the
/// same status code and the same first line, two failures of any kind, or
/// twice the same notice.
pub open spec fn same_answer(a: Event, b: Event) -> bool {
    match (a, b) {
        (Event::Connected, Event::Connected) => true,
        (Event::Released, Event::Released) => true,
        (Event::Failed(_), Event::Failed(_)) => true,
        (Event::Reply(x), Event::Reply(y)) => x.code == y.code && x.first_line() == y.first_line(),
        _ => false,
    }
}

/// The elements of a run, one by one.
proof fn lemma_run_shape(steps: int, farewell: bool, outcome: Outcome)
    requires
        1 <= steps <= 4,
    ensures
        ({
            let run = run_shape(steps, farewell, outcome);
            let n = run.len() as int;
            &&& n == steps + 2 + (if farewell {
                1int
            } else {
                0int
            })
            &&& run[0] == Action::Connect
            &&& steps > 1 ==> run[1] == Action::Send(Command::Hello)
            &&& steps > 2 ==> run[2] == Action::Send(Command::MailFrom)
            &&& steps > 3 ==> run[3] == Action::Send(Command::RcptTo)
            &&& farewell ==> run[steps] == Action::Send(Command::Quit)
            &&& run[n - 2] == Action::Release
            &&& run[n - 1] == Action::Done(outcome)
        }),
{
}

/// Every probe in full: the exchange runs as long as the server accepts, the
/// probe says goodbye if the server was still answering, the connection is
/// released, and the outcome is the verdict on the reply to the recipient
/// declaration where the exchange got that far.
pub proof fn lemma_run(events: Seq<Event>)
    ensures
        actions_of(events) == run_shape(
            exchange_steps(events),
            parts_politely(events),
            outcome_of(events),
        ),
        outcome_of(events) == (if exchange_steps(events) == 4 && event_at(events, 3) is Reply {
            event_at(events, 3)->Reply_0.verdict()
        } else {
            Outcome::Indeterminate
        }),
{
    let s0 = Session::fresh();
    let s1 = s0.after(event_at(events, 0));
    let s2 = s1.after(event_at(events, 1));
    let s3 = s2.after(event_at(events, 2));
    let s4 = s3.after(event_at(events, 3));
    let shape = run_shape(exchange_steps(events), parts_politely(events), outcome_of(events));
    assert(actions_from(s0, events, 0) == seq![s0.due()] + actions_from(s1, events, 1));
    assert(outcome_from(s0, events, 0) == outcome_from(s1, events, 1));
    if !(event_at(events, 0) is Connected) {
        lemma_teardown(s1, events, 1);
        assert(actions_of(events) =~= shape);
    } else {
        assert(actions_from(s1, events, 1) == seq![s1.due()] + actions_from(s2, events, 2));
        assert(outcome_from(s1, events, 1) == outcome_from(s2, events, 2));
        if !accepts(event_at(events, 1)) {
            lemma_teardown(s2, events, 2);
            assert(actions_of(events) =~= shape);
        } else {
            assert(actions_from(s2, events, 2) == seq![s2.due()] + actions_from(s3, events, 3));
            assert(outcome_from(s2, events, 2) == outcome_from(s3, events, 3));
            if !accepts(event_at(events, 2)) {
                lemma_teardown(s3, events, 3);
                assert(actions_of(events) =~= shape);
            } else {
                assert(actions_from(s3, events, 3) == seq![s3.due()] + actions_from(
                    s4,
                    events,
                    4,
                ));
                assert(outcome_from(s3, events, 3) == outcome_from(s4, events, 4));
                lemma_teardown(s4, events, 4);
                assert(actions_of(events) =~= shape);
            }
        }
    }
}

/// A probe never goes on for good: whatever the transport reports, it is done
/// after at most `MAX_OPERATIONS` network operations, and at least two.
pub proof fn lemma_bounded(events: Seq<Event>)
    ensures
        2 <= actions_of(events).len() - 1 <= MAX_OPERATIONS,
        actions_of(events).last() == Action::Done(outcome_of(events)),
        forall|i: int|
            0 <= i < actions_of(events).len() - 1 ==> !(#[trigger] actions_of(events)[i] is Done),
{
    lemma_run(events);
    lemma_run_shape(exchange_steps(events), parts_politely(events), outcome_of(events));
}

/// The time that operations take which run one after the other.
pub open spec fn total(durations: Seq<nat>) -> nat
    decreases durations.len(),
{
    if durations.len() == 0 {
        0
    } else {
        total(durations.drop_last()) + durations.last()
    }
}

/// Operations of which none takes longer than `limit` take, one after the
/// other, no longer than `limit` times their number.
proof fn lemma_total(durations: Seq<nat>, limit: nat)
    requires
        forall|i: int| 0 <= i < durations.len() ==> durations[i] <= limit,
    ensures
        total(durations) <= durations.len() * limit,
    decreases durations.len(),
{
    if durations.len() > 0 {
        lemma_total(durations.drop_last(), limit);
        assert(durations.len() * limit == durations.drop_last().len() * limit + limit)
            by (nonlinear_arith)
            requires
                durations.drop_last().len() == durations.len() - 1,
        ;
    }
}

/// A probe ends within `MAX_OPERATIONS` timeouts: where none of its operations
/// takes longer than the timeout, all of them together take no longer than
/// `MAX_OPERATIONS` times the timeout.
pub proof fn lemma_ends_in_time(events: Seq<Event>, durations: Seq<nat>, timeout: nat)
    requires
        durations.len() == actions_of(events).len() - 1,
        forall|i: int| 0 <= i < durations.len() ==> durations[i] <= timeout,
    ensures
        total(durations) <= MAX_OPERATIONS * timeout,
{
    lemma_bounded(events);
    lemma_total(durations, timeout);
    assert(durations.len() * timeout <= MAX_OPERATIONS * timeout) by (nonlinear_arith)
        requires
            durations.len() <= MAX_OPERATIONS,
    ;
}

/// The connection is released exactly once on every path: the release is the
/// last action before the probe is done, and no other action is a release.
pub proof fn lemma_released_once(events: Seq<Event>)
    ensures
        forall|i: int|
            0 <= i < actions_of(events).len() ==> (#[trigger] actions_of(events)[i]
                == Action::Release <==> i == actions_of(events).len() - 2),
{
    lemma_run(events);
    lemma_run_shape(exchange_steps(events), parts_politely(events), outcome_of(events));
}

/// The commands go out in the order of the protocol, after the connect: of two
/// commands of a probe, the earlier one comes earlier in the protocol.
pub proof fn lemma_commands_in_order(events: Seq<Event>)
    ensures
        actions_of(events)[0] == Action::Connect,
        forall|i: int|
            0 < i < actions_of(events).len() ==> #[trigger] actions_of(events)[i]
                != Action::Connect,
        forall|i: int, j: int|
            0 <= i < j < actions_of(events).len() && #[trigger] actions_of(events)[i] is Send
                && #[trigger] actions_of(events)[j] is Send ==> actions_of(
                events,
            )[i]->Send_0.rank() < actions_of(events)[j]->Send_0.rank(),
{
    lemma_run(events);
    lemma_run_shape(exchange_steps(events), parts_politely(events), outcome_of(events));
}

/// Where the connection cannot be opened, nothing is sent: the probe releases
/// what there is and ends without a definite answer.
pub proof fn lemma_refused_connection(events: Seq<Event>)
    requires
        !(event_at(events, 0) is Connected),
    ensures
        actions_of(events) == seq![
            Action::Connect,
            Action::Release,
            Action::Done(Outcome::Indeterminate),
        ],
        outcome_of(events) == Outcome::Indeterminate,
{
    lemma_run(events);
    assert(run_shape(1, false, Outcome::Indeterminate) =~= seq![
        Action::Connect,
        Action::Release,
        Action::Done(Outcome::Indeterminate),
    ]);
}

/// A failure of the transport at any step of the exchange, a timeout among
/// them, ends the probe without a definite answer: the connection is released
/// at once, without a farewell, and the probe is done.
pub proof fn lemma_failure_gives_up(events: Seq<Event>, i: int)
    requires
        0 <= i < actions_of(events).len(),
        in_exchange(actions_of(events)[i]),
        event_at(events, i) is Failed,
    ensures
        actions_of(events).len() == i + 3,
        actions_of(events)[i + 1] == Action::Release,
        outcome_of(events) == Outcome::Indeterminate,
{
    lemma_run(events);
    lemma_run_shape(exchange_steps(events), parts_politely(events), outcome_of(events));
}

/// A definite outcome comes from the reply to the recipient declaration and
/// from nowhere else: the connect and the two commands before it succeeded,
/// all four commands were sent, and the outcome is the verdict on that reply.
pub proof fn lemma_definite_outcome(events: Seq<Event>)
    requires
        outcome_of(events) != Outcome::Indeterminate,
    ensures
        event_at(events, 0) is Connected,
        accepts(event_at(events, 1)),
        accepts(event_at(events, 2)),
        event_at(events, 3) is Reply,
        outcome_of(events) == event_at(events, 3)->Reply_0.verdict(),
        actions_of(events) == seq![
            Action::Connect,
            Action::Send(Command::Hello),
            Action::Send(Command::MailFrom),
            Action::Send(Command::RcptTo),
            Action::Send(Command::Quit),
            Action::Release,
            Action::Done(outcome_of(events)),
        ],
{
    lemma_run(events);
    assert(run_shape(4, true, outcome_of(events)) =~= seq![
        Action::Connect,
        Action::Send(Command::Hello),
        Action::Send(Command::MailFrom),
        Action::Send(Command::RcptTo),
        Action::Send(Command::Quit),
        Action::Release,
        Action::Done(outcome_of(events)),
    ]);
}

/// A probe keeps no state of its own: two probes whose transports give the
/// same answers during the exchange take the same actions and end with the
/// same outcome.
pub proof fn lemma_same_answers_same_run(first: Seq<Event>, second: Seq<Event>)
    requires
        forall|i: int| 0 <= i < 4 ==> same_answer(event_at(first, i), event_at(second, i)),
    ensures
        actions_of(first) == actions_of(second),
        outcome_of(first) == outcome_of(second),
{
    lemma_run(first);
    lemma_run(second);
    assert(same_answer(event_at(first, 0), event_at(second, 0)));
    assert(same_answer(event_at(first, 1), event_at(second, 1)));
    assert(same_answer(event_at(first, 2), event_at(second, 2)));
    assert(same_answer(event_at(first, 3), event_at(second, 3)));
}

} // verus!
