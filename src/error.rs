//! The error type that every operation of the library returns.
use vstd::prelude::*;

verus! {

/// Every failure is tagged with the kind of collaborator or rule that caused it.
#[derive(Debug, Clone, PartialEq, Eq)]
pub enum JjError {
    Workspace { message: String },
    Repository { message: String },
    Backend { message: String },
    CommitNotFound { id: String },
    InvalidArgument { message: String },
    Revset { message: String },
    Transaction { message: String },
    Git { message: String },
    Internal { message: String },
}

/// The message of the error that a finalized transaction answers with.
pub const FINALIZED_MESSAGE: &'static str = "Transaction has already been committed or discarded";

/// The error of an operation on a transaction that was committed or discarded.
pub open spec fn is_finalized_error(e: JjError) -> bool {
    e matches JjError::Internal { message } && message@ == FINALIZED_MESSAGE@
}

pub fn finalized_error() -> (e: JjError)
    ensures
        is_finalized_error(e),
{
    JjError::Internal { message: String::from_str(FINALIZED_MESSAGE) }
}

/// `head` followed by `tail`.
pub fn joined(head: &str, tail: &str) -> (r: String)
    ensures
        r@ == head@ + tail@,
{
    let mut s = String::from_str(head);
    s.append(tail);
    s
}

/// What an error reads like to a user: its kind, then its message.
pub open spec fn description_of(e: JjError) -> Seq<char> {
    match e {
        JjError::Workspace { message } => "Workspace error: "@ + message@,
        JjError::Repository { message } => "Repository error: "@ + message@,
        JjError::Backend { message } => "Backend error: "@ + message@,
        JjError::CommitNotFound { id } => "Commit not found: "@ + id@,
        JjError::InvalidArgument { message } => "Invalid argument: "@ + message@,
        JjError::Revset { message } => "Revset error: "@ + message@,
        JjError::Transaction { message } => "Transaction error: "@ + message@,
        JjError::Git { message } => "Git error: "@ + message@,
        JjError::Internal { message } => "Internal error: "@ + message@,
    }
}

impl JjError {
    /// The kind of the error followed by its message, as it is shown to a user.
    pub fn describe(&self) -> (r: String)
        ensures
            r@ == description_of(*self),
    {
        match self {
            JjError::Workspace { message } => joined("Workspace error: ", message.as_str()),
            JjError::Repository { message } => joined("Repository error: ", message.as_str()),
            JjError::Backend { message } => joined("Backend error: ", message.as_str()),
            JjError::CommitNotFound { id } => joined("Commit not found: ", id.as_str()),
            JjError::InvalidArgument { message } => joined("Invalid argument: ", message.as_str()),
            JjError::Revset { message } => joined("Revset error: ", message.as_str()),
            JjError::Transaction { message } => joined("Transaction error: ", message.as_str()),
            JjError::Git { message } => joined("Git error: ", message.as_str()),
            JjError::Internal { message } => joined("Internal error: ", message.as_str()),
        }
    }
}

} // verus!
