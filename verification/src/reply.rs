//! A server's reply to one command, and what the reply to the recipient
//! declaration says about the mailbox.

use vstd::prelude::*;
use crate::enhanced::{
    enhanced_code_of, lemma_enhanced_code_of, mailbox_unknown, mailbox_valid, opens_with,
    parse_enhanced_code, EnhancedCode,
};
use crate::outcome::Outcome;

verus! {

/// The reply to one command: the three-digit status code and the text of each
/// line, without the status code, its separator and the line ending.
#[derive(Clone, Debug, PartialEq, Eq)]
pub struct ServerReply {
    pub code: u16,
    pub lines: Vec<Vec<u8>>,
}

impl ServerReply {
    /// The text of the first line; empty where the reply has no text at all.
    pub open spec fn first_line(&self) -> Seq<u8> {
        if self.lines@.len() > 0 {
            self.lines@[0]@
        } else {
            Seq::empty()
        }
    }

    /// The enhanced status code, which stands at the start of the first line.
    pub open spec fn enhanced(&self) -> Option<EnhancedCode> {
        enhanced_code_of(self.first_line())
    }

    /// A positive completion reply (2xx): the command succeeded.
    pub open spec fn positive(&self) -> bool {
        200 <= self.code <= 299
    }

    /// A permanent negative completion reply (5xx).
    pub open spec fn permanent_failure(&self) -> bool {
        500 <= self.code <= 599
    }

    /// What this reply, read as the answer to the recipient declaration, says
    /// about the mailbox. Only two replies are a definite answer: success with
    /// `2.1.5`, and permanent failure with `5.1.1`.
    pub open spec fn verdict(&self) -> Outcome {
        if self.positive() && self.enhanced() == Some(mailbox_valid()) {
            Outcome::Exists
        } else if self.permanent_failure() && self.enhanced() == Some(mailbox_unknown()) {
            Outcome::DoesNotExist
        } else {
            Outcome::Indeterminate
        }
    }

    /// The reply with the status code of the three digits `first`, `second`
    /// and `third`, in the order in which they stand on the wire.
    pub fn from_digits(first: u8, second: u8, third: u8, lines: Vec<Vec<u8>>) -> (reply: ServerReply)
        ensures
            reply.code == 100 * first + 10 * second + third,
            reply.lines == lines,
    {
        let code: u16 = 100 * (first as u16) + 10 * (second as u16) + (third as u16);
        ServerReply { code, lines }
    }

    /// Reads the enhanced status code of the reply.
    pub fn enhanced_code(&self) -> (r: Option<EnhancedCode>)
        ensures
            r == self.enhanced(),
    {
        if self.lines.len() > 0 {
            parse_enhanced_code(self.lines[0].as_slice())
        } else {
            let empty: Vec<u8> = Vec::new();
            parse_enhanced_code(empty.as_slice())
        }
    }

    /// Whether the command succeeded.
    pub fn is_positive(&self) -> (b: bool)
        ensures
            b == self.positive(),
    {
        200 <= self.code && self.code <= 299
    }

    /// Whether the server refused the command for good.
    pub fn is_permanent_failure(&self) -> (b: bool)
        ensures
            b == self.permanent_failure(),
    {
        500 <= self.code && self.code <= 599
    }

    /// Classifies the reply to the recipient declaration.
    pub fn classify(&self) -> (outcome: Outcome)
        ensures
            outcome == self.verdict(),
    {
        let positive = self.is_positive();
        let permanent = self.is_permanent_failure();
        if !positive && !permanent {
            return Outcome::Indeterminate;
        }
        match self.enhanced_code() {
            Some(code) => {
                if positive && code.is_mailbox_valid() {
                    Outcome::Exists
                } else if permanent && code.is_mailbox_unknown() {
                    Outcome::DoesNotExist
                } else {
                    Outcome::Indeterminate
                }
            },
            None => Outcome::Indeterminate,
        }
    }
}

/// The verdict in terms of the reply's text: the mailbox exists exactly when
/// the command succeeded and the first line opens with `2.1.5`, and it does not
/// exist exactly when the command failed for good and the first line opens with
/// `5.1.1`. Whatever else the line says makes no difference.
pub proof fn lemma_verdict(reply: ServerReply)
    ensures
        reply.verdict() == Outcome::Exists <==> reply.positive() && opens_with(
            reply.first_line(),
            mailbox_valid(),
        ),
        reply.verdict() == Outcome::DoesNotExist <==> reply.permanent_failure() && opens_with(
            reply.first_line(),
            mailbox_unknown(),
        ),
        mailbox_valid().text() == seq![50u8, 46u8, 49u8, 46u8, 53u8],
        mailbox_unknown().text() == seq![53u8, 46u8, 49u8, 46u8, 49u8],
{
    lemma_enhanced_code_of(reply.first_line(), mailbox_valid());
    lemma_enhanced_code_of(reply.first_line(), mailbox_unknown());
    assert(mailbox_valid().text() =~= seq![50u8, 46u8, 49u8, 46u8, 53u8]);
    assert(mailbox_unknown().text() =~= seq![53u8, 46u8, 49u8, 46u8, 49u8]);
}

} // verus!
