//! The error type shared by every stage of a run.

use vstd::prelude::*;
use vstd::string::StringExecFns;

verus! {

/// What went wrong, by the stage that can go wrong.
#[derive(Clone, Copy, Debug, PartialEq, Eq, Structural)]
pub enum ErrorKind {
    /// A required setting is missing.
    Configuration,
    /// An input is malformed: a range token, or a document without its markers.
    Validation,
    /// The statistics service or a git transport failed.
    Network,
    /// The repository is not in a state the operation can work from.
    GitState,
}

/// A fatal error: its kind and a one-line description.
#[derive(Clone, Debug, PartialEq, Eq)]
pub struct Error {
    pub kind: ErrorKind,
    pub message: String,
}

/// A fatal error as the contracts see it: its kind and its description.
pub struct ErrorView {
    pub kind: ErrorKind,
    pub message: Seq<char>,
}

impl View for Error {
    type V = ErrorView;

    open spec fn view(&self) -> ErrorView {
        ErrorView { kind: self.kind, message: self.message@ }
    }
}

impl Error {
    pub fn new(kind: ErrorKind, message: String) -> (e: Error)
        ensures
            e.kind == kind,
            e.message@ == message@,
    {
        Error { kind, message }
    }

    /// The description, as an owned string.
    pub fn to_string(&self) -> (s: String)
        ensures
            s@ == self.message@,
    {
        self.message.clone()
    }
}

/// The description of a failed step: what was attempted, then the cause.
pub open spec fn failure_message(what: Seq<char>, cause: Seq<char>) -> Seq<char> {
    what + ": "@ + cause
}

/// The error for a failed step.
pub open spec fn failure(kind: ErrorKind, what: Seq<char>, cause: Seq<char>) -> ErrorView {
    ErrorView { kind, message: failure_message(what, cause) }
}

/// The error for an outcome that does not answer the step that was asked
/// for; `kind` is the kind of error that the steps themselves fail with.
pub open spec fn out_of_turn(kind: ErrorKind) -> ErrorView {
    ErrorView { kind, message: "Unexpected outcome for this step"@ }
}

/// The error for a failed step.
pub fn describe_failure(kind: ErrorKind, what: &str, cause: &str) -> (e: Error)
    ensures
        e@ == failure(kind, what@, cause@),
{
    let mut message = String::from_str(what);
    message.append(": ");
    message.append(cause);
    Error::new(kind, message)
}

/// The error for an outcome that does not answer the step that was asked
/// for; `kind` is the kind of error that the steps themselves fail with.
pub fn describe_out_of_turn(kind: ErrorKind) -> (e: Error)
    ensures
        e@ == out_of_turn(kind),
{
    Error::new(kind, String::from_str("Unexpected outcome for this step"))
}

} // verus!
