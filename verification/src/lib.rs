//! Probing a remote mail server for the deliverability of one mailbox.
//!
//! A probe performs the opening of an SMTP transaction (identification, sender,
//! recipient), reads the server's verdict on the recipient and leaves again
//! without ever sending mail. The answer is best effort: many servers accept
//! every recipient, so only two replies count as definite.
//!
//! This crate holds the protocol logic, verified: [`request`] says what is
//! asked, [`command`] what goes on the wire, [`reply`] and [`enhanced`] how an
//! answer is read, [`session`] what happens step by step, [`probe`] runs a
//! whole probe over a transport that the caller supplies, and [`laws`] states
//! what holds of every probe. The caller owns the socket.

pub mod address;
pub mod command;
pub mod enhanced;
pub mod laws;
pub mod outcome;
pub mod probe;
pub mod reply;
pub mod request;
pub mod run;
pub mod session;
