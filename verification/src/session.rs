//! The protocol session: which step comes next, and what each answer of the
//! transport does to the session.
//!
//! The session never touches a socket. Its owner asks for the next action,
//! performs it, and reports the result as an event; after at most six events
//! the session is closed and holds the outcome.

use vstd::prelude::*;
use crate::command::Command;
use crate::outcome::Outcome;
use crate::reply::ServerReply;

verus! {

/// The most network operations that a probe performs: the connect, four
/// commands and the release.
pub const MAX_OPERATIONS: usize = 6;

/// How far the exchange has come. The stages are passed in this order and
/// none is entered twice; `Closed` can follow any of them.
#[derive(Clone, Copy, Debug, PartialEq, Eq, Structural)]
pub enum Stage {
    /// Nothing has happened yet.
    Init,
    /// The connection is open.
    Connected,
    /// The server accepted the identification.
    Greeted,
    /// The server accepted the sender.
    SenderAccepted,
    /// The server answered the recipient declaration.
    RecipientChecked,
    /// The connection has been released.
    Closed,
}

/// How far the teardown of the connection has come.
#[derive(Clone, Copy, Debug, PartialEq, Eq, Structural)]
pub enum Teardown {
    /// The exchange is still running.
    NotBegun,
    /// The connection is usable: the termination command is due.
    Farewell,
    /// The release of the connection is due.
    Release,
}

/// Why a network operation gave no reply.
#[derive(Clone, Copy, Debug, PartialEq, Eq, Structural)]
pub enum Failure {
    /// The connection was refused, lost, or the host is unreachable.
    Connection,
    /// The operation took longer than the timeout of the request.
    Timeout,
    /// What the server sent is not a reply.
    Protocol,
}

/// What the transport reports after an action.
#[derive(Clone, Debug, PartialEq, Eq)]
pub enum Event {
    /// The connection is open.
    Connected,
    /// The server replied to the command.
    Reply(ServerReply),
    /// The operation failed.
    Failed(Failure),
    /// The connection has been released.
    Released,
}

/// What the owner of the session has to do next.
#[derive(Clone, Copy, Debug, PartialEq, Eq, Structural)]
pub enum Action {
    /// Open the connection to the server of the request.
    Connect,
    /// Send the command and read the reply.
    Send(Command),
    /// Release the connection, without sending anything.
    Release,
    /// Nothing more: the probe has ended with this outcome.
    Done(Outcome),
}

/// The state of one probe.
#[derive(Clone, Copy, Debug, PartialEq, Eq, Structural)]
pub struct Session {
    pub stage: Stage,
    pub teardown: Teardown,
    pub outcome: Outcome,
}

impl Stage {
    /// The position of the stage in the order of the protocol.
    pub open spec fn rank(self) -> nat {
        match self {
            Stage::Init => 0,
            Stage::Connected => 1,
            Stage::Greeted => 2,
            Stage::SenderAccepted => 3,
            Stage::RecipientChecked => 4,
            Stage::Closed => 5,
        }
    }
}

impl Session {
    /// The session before anything has happened.
    pub open spec fn fresh() -> Session {
        Session { stage: Stage::Init, teardown: Teardown::NotBegun, outcome: Outcome::Indeterminate }
    }

    /// The states that a session can be in: no farewell without a connection,
    /// teardown right after the recipient's answer, `Closed` only after the
    /// release, and a definite outcome only from the recipient's answer.
    pub open spec fn wf(self) -> bool {
        &&& self.stage == Stage::Init ==> self.teardown != Teardown::Farewell
        &&& self.stage == Stage::RecipientChecked ==> self.teardown != Teardown::NotBegun
        &&& self.stage == Stage::Closed ==> self.teardown == Teardown::Release
        &&& self.outcome != Outcome::Indeterminate ==> self.stage == Stage::RecipientChecked
            || self.stage == Stage::Closed
    }

    /// The action that is due in this state.
    pub open spec fn due(self) -> Action {
        if self.stage == Stage::Closed {
            Action::Done(self.outcome)
        } else {
            match self.teardown {
                Teardown::Release => Action::Release,
                Teardown::Farewell => Action::Send(Command::Quit),
                Teardown::NotBegun => match self.stage {
                    Stage::Init => Action::Connect,
                    Stage::Connected => Action::Send(Command::Hello),
                    Stage::Greeted => Action::Send(Command::MailFrom),
                    Stage::SenderAccepted => Action::Send(Command::RcptTo),
                    _ => Action::Send(Command::Quit),
                },
            }
        }
    }

    /// The session that gave up: the connection is released without a word.
    pub open spec fn aborted(self) -> Session {
        Session { teardown: Teardown::Release, ..self }
    }

    /// The session that was turned down: it says goodbye and leaves.
    pub open spec fn dismissed(self) -> Session {
        Session { teardown: Teardown::Farewell, ..self }
    }

    /// The session that moved on to `stage`.
    pub open spec fn advanced(self, stage: Stage) -> Session {
        Session { stage, ..self }
    }

    /// The state after `event` answered the action that was due.
    ///
    /// While the exchange runs, a failure of the transport (or an event that is
    /// no answer to the action) makes the session give up, and a reply other
    /// than success makes it leave politely. The reply to the recipient
    /// declaration is classified, whatever it is. The answer to the termination
    /// command is ignored, and so is the answer to the release.
    pub open spec fn after(self, event: Event) -> Session {
        if self.stage == Stage::Closed {
            self
        } else {
            match self.teardown {
                Teardown::Release => self.advanced(Stage::Closed),
                Teardown::Farewell => self.aborted(),
                Teardown::NotBegun => match self.stage {
                    Stage::Init => match event {
                        Event::Connected => self.advanced(Stage::Connected),
                        _ => self.aborted(),
                    },
                    Stage::Connected => match event {
                        Event::Reply(reply) => if reply.positive() {
                            self.advanced(Stage::Greeted)
                        } else {
                            self.dismissed()
                        },
                        _ => self.aborted(),
                    },
                    Stage::Greeted => match event {
                        Event::Reply(reply) => if reply.positive() {
                            self.advanced(Stage::SenderAccepted)
                        } else {
                            self.dismissed()
                        },
                        _ => self.aborted(),
                    },
                    Stage::SenderAccepted => match event {
                        Event::Reply(reply) => Session {
                            stage: Stage::RecipientChecked,
                            teardown: Teardown::Farewell,
                            outcome: reply.verdict(),
                        },
                        _ => self.aborted(),
                    },
                    _ => self.dismissed(),
                },
            }
        }
    }

    /// An upper bound on the number of events that the session still takes.
    pub open spec fn remaining(self) -> nat {
        if self.stage == Stage::Closed {
            0
        } else {
            match self.teardown {
                Teardown::Release => 1,
                Teardown::Farewell => 2,
                Teardown::NotBegun => match self.stage {
                    Stage::Init => MAX_OPERATIONS as nat,
                    Stage::Connected => 5,
                    Stage::Greeted => 4,
                    _ => 3,
                },
            }
        }
    }

    /// Starts a probe.
    pub fn new() -> (s: Session)
        ensures
            s == Session::fresh(),
            s.wf(),
    {
        Session { stage: Stage::Init, teardown: Teardown::NotBegun, outcome: Outcome::Indeterminate }
    }

    /// Whether the probe has ended.
    pub fn is_closed(&self) -> (b: bool)
        ensures
            b == (self.stage == Stage::Closed),
    {
        match self.stage {
            Stage::Closed => true,
            _ => false,
        }
    }

    /// What to do next.
    pub fn next_action(&self) -> (action: Action)
        ensures
            action == self.due(),
    {
        match self.stage {
            Stage::Closed => Action::Done(self.outcome),
            _ => match self.teardown {
                Teardown::Release => Action::Release,
                Teardown::Farewell => Action::Send(Command::Quit),
                Teardown::NotBegun => match self.stage {
                    Stage::Init => Action::Connect,
                    Stage::Connected => Action::Send(Command::Hello),
                    Stage::Greeted => Action::Send(Command::MailFrom),
                    Stage::SenderAccepted => Action::Send(Command::RcptTo),
                    _ => Action::Send(Command::Quit),
                },
            },
        }
    }

    /// Takes the answer to the action that was due.
    ///
    /// The session moves forward only: its stage never falls back, and it is
    /// closer to `Closed` after every event.
    pub fn handle(&mut self, event: &Event)
        ensures
            *final(self) == old(self).after(*event),
            old(self).wf() ==> final(self).wf(),
            final(self).stage.rank() >= old(self).stage.rank(),
            old(self).stage != Stage::Closed ==> final(self).remaining() < old(self).remaining(),
    {
        match self.stage {
            Stage::Closed => {},
            _ => match self.teardown {
                Teardown::Release => {
                    self.stage = Stage::Closed;
                },
                Teardown::Farewell => {
                    self.teardown = Teardown::Release;
                },
                Teardown::NotBegun => match self.stage {
                    Stage::Init => match event {
                        Event::Connected => {
                            self.stage = Stage::Connected;
                        },
                        _ => {
                            self.teardown = Teardown::Release;
                        },
                    },
                    Stage::Connected => match event {
                        Event::Reply(reply) => {
                            if reply.is_positive() {
                                self.stage = Stage::Greeted;
                            } else {
                                self.teardown = Teardown::Farewell;
                            }
                        },
                        _ => {
                            self.teardown = Teardown::Release;
                        },
                    },
                    Stage::Greeted => match event {
                        Event::Reply(reply) => {
                            if reply.is_positive() {
                                self.stage = Stage::SenderAccepted;
                            } else {
                                self.teardown = Teardown::Farewell;
                            }
                        },
                        _ => {
                            self.teardown = Teardown::Release;
                        },
                    },
                    Stage::SenderAccepted => match event {
                        Event::Reply(reply) => {
                            self.outcome = reply.classify();
                            self.stage = Stage::RecipientChecked;
                            self.teardown = Teardown::Farewell;
                        },
                        _ => {
                            self.teardown = Teardown::Release;
                        },
                    },
                    _ => {
                        self.teardown = Teardown::Farewell;
                    },
                },
            },
        }
    }
}

} // verus!
