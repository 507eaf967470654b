//! Syntax check of the two mailbox addresses of a probe.
//!
//! The check itself is lettre's: an address is usable here exactly when lettre
//! would build an `EmailAddress` from it.

use vstd::prelude::*;

verus! {

/// `true` exactly for the texts from which `lettre::EmailAddress::new` builds an
/// address (it accepts what the HTML rules for e-mail addresses accept, and any
/// text that ends in `localhost`).
pub uninterp spec fn address_accepted(text: Seq<char>) -> bool;

/// Trusted: asks `lettre::EmailAddress::new` whether it accepts `text`. The
/// answer depends on the characters of `text` alone.
#[verifier::external_body]
pub(crate) fn accepts_address(text: &str) -> (ok: bool)
    ensures
        ok == address_accepted(text@),
{
    lettre::EmailAddress::new(text.to_string()).is_ok()
}

/// Which of the two addresses of a probe is not a syntactically valid mailbox.
#[derive(Clone, Copy, Debug, PartialEq, Eq, Structural)]
pub enum AddressFormatError {
    /// The sender address was refused.
    Sender,
    /// The sender address is fine, the recipient address was refused.
    Recipient,
}

/// The verdict on a pair of addresses, given the result of each syntax check.
pub open spec fn pair_verdict(sender_ok: bool, recipient_ok: bool) -> Result<
    (),
    AddressFormatError,
> {
    if !sender_ok {
        Err(AddressFormatError::Sender)
    } else if !recipient_ok {
        Err(AddressFormatError::Recipient)
    } else {
        Ok(())
    }
}

/// Combines the two syntax checks: the sender is reported first.
pub fn judge_pair(sender_ok: bool, recipient_ok: bool) -> (r: Result<(), AddressFormatError>)
    ensures
        r == pair_verdict(sender_ok, recipient_ok),
{
    if !sender_ok {
        Err(AddressFormatError::Sender)
    } else if !recipient_ok {
        Err(AddressFormatError::Recipient)
    } else {
        Ok(())
    }
}

/// Checks both addresses of a probe before anything touches the network.
pub fn check_addresses(sender: &str, recipient: &str) -> (r: Result<(), AddressFormatError>)
    ensures
        r == pair_verdict(address_accepted(sender@), address_accepted(recipient@)),
{
    let sender_ok = accepts_address(sender);
    let recipient_ok = accepts_address(recipient);
    judge_pair(sender_ok, recipient_ok)
}

} // verus!
