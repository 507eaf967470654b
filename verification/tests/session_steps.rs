use mailbox_probe::command::Command;
use mailbox_probe::outcome::Outcome;
use mailbox_probe::reply::ServerReply;
use mailbox_probe::session::{Action, Event, Failure, Session, Stage, Teardown, MAX_OPERATIONS};

fn answer(code: u16, line: &str) -> Event {
    Event::Reply(ServerReply { code, lines: vec![line.as_bytes().to_vec()] })
}

fn session_before_recipient() -> Session {
    let mut session = Session::new();
    session.handle(&Event::Connected);
    session.handle(&answer(250, "mx.example.com greets you"));
    session.handle(&answer(250, "2.1.0 Ok"));
    session
}

#[test]
fn new_session_wants_to_connect() {
    let session = Session::new();
    assert_eq!(session.stage, Stage::Init);
    assert_eq!(session.teardown, Teardown::NotBegun);
    assert_eq!(session.outcome, Outcome::Indeterminate);
    assert!(!session.is_closed());
    assert_eq!(session.next_action(), Action::Connect);
}

#[test]
fn accepted_exchange_passes_every_stage_in_order() {
    let mut session = Session::new();
    session.handle(&Event::Connected);
    assert_eq!(session.stage, Stage::Connected);
    assert_eq!(session.next_action(), Action::Send(Command::Hello));

    session.handle(&answer(250, "mx.example.com"));
    assert_eq!(session.stage, Stage::Greeted);
    assert_eq!(session.next_action(), Action::Send(Command::MailFrom));

    session.handle(&answer(250, "2.1.0 Ok"));
    assert_eq!(session.stage, Stage::SenderAccepted);
    assert_eq!(session.teardown, Teardown::NotBegun);
    assert_eq!(session.next_action(), Action::Send(Command::RcptTo));

    session.handle(&answer(250, "2.1.5 Ok"));
    assert_eq!(session.stage, Stage::RecipientChecked);
    assert_eq!(session.teardown, Teardown::Farewell);
    assert_eq!(session.outcome, Outcome::Exists);
    assert_eq!(session.next_action(), Action::Send(Command::Quit));

    session.handle(&answer(221, "2.0.0 Bye"));
    assert_eq!(session.stage, Stage::RecipientChecked);
    assert_eq!(session.teardown, Teardown::Release);
    assert_eq!(session.next_action(), Action::Release);
    assert!(!session.is_closed());

    session.handle(&Event::Released);
    assert_eq!(session.stage, Stage::Closed);
    assert!(session.is_closed());
    assert_eq!(session.next_action(), Action::Done(Outcome::Exists));
}

#[test]
fn recipient_reply_is_classified_whatever_it_is() {
    let mut session = session_before_recipient();
    session.handle(&answer(550, "5.1.1 No such user here"));
    assert_eq!(session.stage, Stage::RecipientChecked);
    assert_eq!(session.outcome, Outcome::DoesNotExist);
    assert_eq!(session.next_action(), Action::Send(Command::Quit));

    let mut session = session_before_recipient();
    session.handle(&answer(250, "2.1.0 Ok"));
    assert_eq!(session.stage, Stage::RecipientChecked);
    assert_eq!(session.outcome, Outcome::Indeterminate);
    assert_eq!(session.next_action(), Action::Send(Command::Quit));

    let mut session = session_before_recipient();
    session.handle(&answer(451, "4.7.1 Greylisted"));
    assert_eq!(session.stage, Stage::RecipientChecked);
    assert_eq!(session.outcome, Outcome::Indeterminate);
    assert_eq!(session.next_action(), Action::Send(Command::Quit));
}

#[test]
fn refused_connection_is_released_without_a_word() {
    let mut session = Session::new();
    session.handle(&Event::Failed(Failure::Connection));
    assert_eq!(session.stage, Stage::Init);
    assert_eq!(session.next_action(), Action::Release);
    session.handle(&Event::Released);
    assert_eq!(session.next_action(), Action::Done(Outcome::Indeterminate));
}

#[test]
fn refused_identification_leaves_politely() {
    let mut session = Session::new();
    session.handle(&Event::Connected);
    session.handle(&answer(554, "5.7.1 Go away"));
    assert_eq!(session.stage, Stage::Connected);
    assert_eq!(session.next_action(), Action::Send(Command::Quit));
    session.handle(&answer(221, "Bye"));
    assert_eq!(session.next_action(), Action::Release);
    session.handle(&Event::Released);
    assert_eq!(session.next_action(), Action::Done(Outcome::Indeterminate));
}

#[test]
fn refused_sender_leaves_politely() {
    let mut session = Session::new();
    session.handle(&Event::Connected);
    session.handle(&answer(250, "hello"));
    session.handle(&answer(550, "5.1.1 Sender unknown"));
    assert_eq!(session.stage, Stage::Greeted);
    assert_eq!(session.outcome, Outcome::Indeterminate);
    assert_eq!(session.next_action(), Action::Send(Command::Quit));
    session.handle(&answer(221, "Bye"));
    session.handle(&Event::Released);
    assert_eq!(session.next_action(), Action::Done(Outcome::Indeterminate));
}

#[test]
fn intermediate_reply_is_no_success() {
    let mut session = Session::new();
    session.handle(&Event::Connected);
    session.handle(&answer(354, "go ahead"));
    assert_eq!(session.stage, Stage::Connected);
    assert_eq!(session.next_action(), Action::Send(Command::Quit));
}

#[test]
fn timeout_gives_up_at_every_stage() {
    let timeout = Event::Failed(Failure::Timeout);

    let mut session = Session::new();
    session.handle(&timeout);
    assert_eq!(session.next_action(), Action::Release);

    let mut session = Session::new();
    session.handle(&Event::Connected);
    session.handle(&timeout);
    assert_eq!(session.next_action(), Action::Release);

    let mut session = Session::new();
    session.handle(&Event::Connected);
    session.handle(&answer(250, "hello"));
    session.handle(&timeout);
    assert_eq!(session.next_action(), Action::Release);

    let mut session = session_before_recipient();
    session.handle(&timeout);
    assert_eq!(session.stage, Stage::SenderAccepted);
    assert_eq!(session.outcome, Outcome::Indeterminate);
    assert_eq!(session.next_action(), Action::Release);
    session.handle(&Event::Released);
    assert_eq!(session.next_action(), Action::Done(Outcome::Indeterminate));
}

#[test]
fn every_kind_of_failure_gives_up() {
    for failure in [Failure::Connection, Failure::Timeout, Failure::Protocol] {
        let mut session = session_before_recipient();
        session.handle(&Event::Failed(failure));
        assert_eq!(session.next_action(), Action::Release);
        assert_eq!(session.outcome, Outcome::Indeterminate);
    }
}

#[test]
fn failed_farewell_keeps_the_outcome() {
    let mut session = session_before_recipient();
    session.handle(&answer(550, "5.1.1 Unknown"));
    session.handle(&Event::Failed(Failure::Timeout));
    assert_eq!(session.next_action(), Action::Release);
    session.handle(&Event::Released);
    assert_eq!(session.next_action(), Action::Done(Outcome::DoesNotExist));

    let mut session = session_before_recipient();
    session.handle(&answer(250, "2.1.5 Ok"));
    session.handle(&answer(500, "5.5.1 What?"));
    session.handle(&Event::Failed(Failure::Connection));
    assert_eq!(session.next_action(), Action::Done(Outcome::Exists));
}

#[test]
fn event_that_is_no_answer_gives_up() {
    let mut session = Session::new();
    session.handle(&answer(220, "ready"));
    assert_eq!(session.next_action(), Action::Release);

    let mut session = Session::new();
    session.handle(&Event::Released);
    assert_eq!(session.next_action(), Action::Release);

    let mut session = Session::new();
    session.handle(&Event::Connected);
    session.handle(&Event::Connected);
    assert_eq!(session.next_action(), Action::Release);

    let mut session = session_before_recipient();
    session.handle(&Event::Released);
    assert_eq!(session.next_action(), Action::Release);
    assert_eq!(session.outcome, Outcome::Indeterminate);
}

#[test]
fn closed_session_ignores_events() {
    let mut session = Session::new();
    session.handle(&Event::Failed(Failure::Connection));
    session.handle(&Event::Released);
    assert!(session.is_closed());
    let closed = session;
    session.handle(&Event::Connected);
    assert_eq!(session, closed);
    session.handle(&answer(250, "2.1.5 Ok"));
    assert_eq!(session, closed);
    session.handle(&Event::Failed(Failure::Timeout));
    assert_eq!(session, closed);
    assert_eq!(session.next_action(), Action::Done(Outcome::Indeterminate));
}

#[test]
fn session_without_teardown_after_the_recipient_says_goodbye() {
    let mut session = Session {
        stage: Stage::RecipientChecked,
        teardown: Teardown::NotBegun,
        outcome: Outcome::Exists,
    };
    assert_eq!(session.next_action(), Action::Send(Command::Quit));
    session.handle(&answer(221, "Bye"));
    assert_eq!(session.teardown, Teardown::Farewell);
    assert_eq!(session.outcome, Outcome::Exists);
}

fn rank(stage: Stage) -> u8 {
    match stage {
        Stage::Init => 0,
        Stage::Connected => 1,
        Stage::Greeted => 2,
        Stage::SenderAccepted => 3,
        Stage::RecipientChecked => 4,
        Stage::Closed => 5,
    }
}

#[test]
fn stage_never_falls_back() {
    let events = [
        Event::Connected,
        answer(250, "2.1.5 Ok"),
        answer(550, "5.1.1 No"),
        Event::Failed(Failure::Protocol),
        Event::Released,
    ];
    for a in 0..events.len() {
        for b in 0..events.len() {
            for c in 0..events.len() {
                let mut session = Session::new();
                let mut steps: usize = 0;
                let mut next = [a, b, c, a, b, c, a, b].into_iter();
                while !session.is_closed() {
                    let before: u8 = rank(session.stage);
                    let event = &events[next.next().unwrap_or(0)];
                    session.handle(event);
                    assert!(rank(session.stage) >= before);
                    steps += 1;
                    assert!(steps <= MAX_OPERATIONS);
                }
            }
        }
    }
}
