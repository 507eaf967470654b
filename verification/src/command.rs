//! The four commands of a probe and the bytes that go on the wire for each.
//!
//! The wire text is produced by lettre's own command types, so a probe sends
//! exactly what a lettre client would send.

use vstd::prelude::*;
use crate::address::address_accepted;

verus! {

/// A command of the probing exchange, in the order in which they are sent.
#[derive(Clone, Copy, Debug, PartialEq, Eq, Structural)]
pub enum Command {
    /// Identification of the probing client (`EHLO`).
    Hello,
    /// Declaration of the sender address (`MAIL FROM`), with no parameters.
    MailFrom,
    /// Declaration of the recipient address (`RCPT TO`): the probed mailbox.
    RcptTo,
    /// Polite termination of the session (`QUIT`).
    Quit,
}

impl Command {
    /// The position of the command in the order of the protocol.
    pub open spec fn rank(self) -> nat {
        match self {
            Command::Hello => 0,
            Command::MailFrom => 1,
            Command::RcptTo => 2,
            Command::Quit => 3,
        }
    }
}

/// Wire text of the identification command for a client that calls itself `client`.
pub open spec fn hello_line(client: Seq<char>) -> Seq<char> {
    "EHLO "@ + client + "\r\n"@
}

/// Wire text of the sender declaration for `sender`.
pub open spec fn mail_line(sender: Seq<char>) -> Seq<char> {
    "MAIL FROM:<"@ + sender + ">\r\n"@
}

/// Wire text of the recipient declaration for `recipient`.
pub open spec fn rcpt_line(recipient: Seq<char>) -> Seq<char> {
    "RCPT TO:<"@ + recipient + ">\r\n"@
}

/// Wire text of the termination command.
pub open spec fn quit_line() -> Seq<char> {
    "QUIT\r\n"@
}

/// Trusted: the text that `lettre::smtp::commands::EhloCommand` displays for
/// the client id that `ClientId::new` makes of the domain `client`, which is
/// `EHLO `, the domain as given, and CRLF.
#[verifier::external_body]
pub(crate) fn hello_text(client: &str) -> (text: String)
    ensures
        text@ == hello_line(client@),
{
    let id = lettre::smtp::extension::ClientId::new(client.to_string());
    lettre::smtp::commands::EhloCommand::new(id).to_string()
}

/// Trusted: the text that `lettre::smtp::commands::MailCommand` displays for
/// `sender` and an empty parameter list, which is `MAIL FROM:<`, the address as
/// given, `>` and CRLF. lettre builds the command only from an address that
/// `EmailAddress::new` accepts.
#[verifier::external_body]
pub(crate) fn mail_text(sender: &str) -> (text: String)
    requires
        address_accepted(sender@),
    ensures
        text@ == mail_line(sender@),
{
    let address = lettre::EmailAddress::new(sender.to_string()).unwrap();
    lettre::smtp::commands::MailCommand::new(Some(address), Vec::new()).to_string()
}

/// Trusted: the text that `lettre::smtp::commands::RcptCommand` displays for
/// `recipient` and an empty parameter list, which is `RCPT TO:<`, the address
/// as given, `>` and CRLF. lettre builds the command only from an address that
/// `EmailAddress::new` accepts.
#[verifier::external_body]
pub(crate) fn rcpt_text(recipient: &str) -> (text: String)
    requires
        address_accepted(recipient@),
    ensures
        text@ == rcpt_line(recipient@),
{
    let address = lettre::EmailAddress::new(recipient.to_string()).unwrap();
    lettre::smtp::commands::RcptCommand::new(address, Vec::new()).to_string()
}

/// Trusted: the text that `lettre::smtp::commands::QuitCommand` displays,
/// which is `QUIT` and CRLF.
#[verifier::external_body]
pub(crate) fn quit_text() -> (text: String)
    ensures
        text@ == quit_line(),
{
    lettre::smtp::commands::QuitCommand.to_string()
}

} // verus!
