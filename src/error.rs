use vstd::prelude::*;

verus! {

/// Ways a prompt can end without an answer.
#[derive(Clone, Debug, PartialEq, Eq)]
pub enum InquireError {
    /// The prompt's options were rejected before it started.
    InvalidConfiguration(String),
    /// The user pressed the cancel key.
    OperationCanceled,
    /// The confirmation entry differed from the first entry.
    ConfirmationMismatch,
    /// The key stream ended before an answer was given.
    StreamEnded,
    /// The terminal reported a fault.
    Io(String),
}

pub type InquireResult<T> = Result<T, InquireError>;

/// Verdict of a validator on a candidate answer.
#[derive(Clone, Debug, PartialEq, Eq)]
pub enum Validation {
    Valid,
    Invalid(String),
}

/// `None` for a valid answer, the message for an invalid one.
pub open spec fn verdict(v: Validation) -> Option<Seq<char>> {
    match v {
        Validation::Valid => None,
        Validation::Invalid(m) => Some(m@),
    }
}

} // verus!
