//! What a probe is asked to do.

use vstd::prelude::*;
use crate::address::{address_accepted, check_addresses, AddressFormatError};
use crate::command::{
    hello_line, hello_text, mail_line, mail_text, quit_line, quit_text, rcpt_line, rcpt_text,
    Command,
};

verus! {

/// The name under which the probing client identifies itself.
pub const CLIENT_NAME: &'static str = "localhost";

/// The timeout of one network operation where the caller has no preference.
pub const DEFAULT_TIMEOUT_MS: u64 = 3000;

/// The plain content of a [`ProbeRequest`].
pub struct RequestView {
    pub sender: Seq<char>,
    pub recipient: Seq<char>,
    pub host: Seq<char>,
    pub port: u16,
    pub timeout_ms: u64,
}

/// One probe: who asks, which mailbox is asked about, which server is asked
/// and how long any single network operation may take. A request is immutable
/// and always holds two addresses that passed the syntax check.
pub struct ProbeRequest {
    sender: String,
    recipient: String,
    host: String,
    port: u16,
    timeout_ms: u64,
}

impl View for ProbeRequest {
    type V = RequestView;

    closed spec fn view(&self) -> RequestView {
        RequestView {
            sender: self.sender@,
            recipient: self.recipient@,
            host: self.host@,
            port: self.port,
            timeout_ms: self.timeout_ms,
        }
    }
}

impl RequestView {
    /// The wire text of `command` within this request.
    pub open spec fn line(self, command: Command) -> Seq<char> {
        match command {
            Command::Hello => hello_line(CLIENT_NAME@),
            Command::MailFrom => mail_line(self.sender),
            Command::RcptTo => rcpt_line(self.recipient),
            Command::Quit => quit_line(),
        }
    }
}

impl ProbeRequest {
    #[verifier::type_invariant]
    spec fn valid(self) -> bool {
        &&& address_accepted(self.sender@)
        &&& address_accepted(self.recipient@)
        &&& self.port >= 1
    }

    /// Builds a request, or says which address is malformed: the sender if it
    /// is, else the recipient. No request exists for a malformed address, so
    /// nothing is ever sent for one.
    pub fn new(sender: &str, recipient: &str, host: &str, port: u16, timeout_ms: u64) -> (r: Result<
        ProbeRequest,
        AddressFormatError,
    >)
        requires
            port >= 1,
        ensures
            match r {
                Ok(request) => {
                    &&& address_accepted(sender@)
                    &&& address_accepted(recipient@)
                    &&& request@ == (RequestView {
                        sender: sender@,
                        recipient: recipient@,
                        host: host@,
                        port,
                        timeout_ms,
                    })
                },
                Err(AddressFormatError::Sender) => !address_accepted(sender@),
                Err(AddressFormatError::Recipient) => address_accepted(sender@)
                    && !address_accepted(recipient@),
            },
    {
        match check_addresses(sender, recipient) {
            Err(e) => Err(e),
            Ok(()) => Ok(
                ProbeRequest {
                    sender: sender.to_owned(),
                    recipient: recipient.to_owned(),
                    host: host.to_owned(),
                    port,
                    timeout_ms,
                },
            ),
        }
    }

    /// The sender address, which passed the syntax check.
    pub fn sender(&self) -> (s: &str)
        ensures
            s@ == self@.sender,
            address_accepted(s@),
    {
        proof {
            use_type_invariant(self);
        }
        self.sender.as_str()
    }

    /// The probed address, which passed the syntax check.
    pub fn recipient(&self) -> (s: &str)
        ensures
            s@ == self@.recipient,
            address_accepted(s@),
    {
        proof {
            use_type_invariant(self);
        }
        self.recipient.as_str()
    }

    /// The mail server to ask.
    pub fn host(&self) -> (s: &str)
        ensures
            s@ == self@.host,
    {
        self.host.as_str()
    }

    /// The port of the mail server, never 0.
    pub fn port(&self) -> (p: u16)
        ensures
            p == self@.port,
            p >= 1,
    {
        proof {
            use_type_invariant(self);
        }
        self.port
    }

    /// The longest that any single network operation of the probe may take, in
    /// milliseconds.
    pub fn timeout_ms(&self) -> (t: u64)
        ensures
            t == self@.timeout_ms,
    {
        self.timeout_ms
    }

    /// The bytes to send for `command`.
    pub fn command_text(&self, command: Command) -> (text: String)
        ensures
            text@ == self@.line(command),
    {
        proof {
            use_type_invariant(self);
        }
        match command {
            Command::Hello => hello_text(CLIENT_NAME),
            Command::MailFrom => mail_text(self.sender.as_str()),
            Command::RcptTo => rcpt_text(self.recipient.as_str()),
            Command::Quit => quit_text(),
        }
    }
}

} // verus!
