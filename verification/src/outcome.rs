//! The three-valued result of a probe.

use vstd::prelude::*;

verus! {

/// What a probe learned about the mailbox.
#[derive(Clone, Copy, Debug, PartialEq, Eq, Structural)]
pub enum Outcome {
    /// The server confirmed a concrete mailbox for the recipient.
    Exists,
    /// The server stated that no such mailbox exists.
    DoesNotExist,
    /// Nothing definite was learned.
    Indeterminate,
}

impl Outcome {
    /// The outcome as an optional truth value: `None` stands for `Indeterminate`.
    pub open spec fn truth(self) -> Option<bool> {
        match self {
            Outcome::Exists => Some(true),
            Outcome::DoesNotExist => Some(false),
            Outcome::Indeterminate => None,
        }
    }

    /// Collapses the outcome into `Some(true)`, `Some(false)` or `None`.
    pub fn to_option(self) -> (r: Option<bool>)
        ensures
            r == self.truth(),
    {
        match self {
            Outcome::Exists => Some(true),
            Outcome::DoesNotExist => Some(false),
            Outcome::Indeterminate => None,
        }
    }
}

} // verus!
