//! Failures and the lines that report them.

use vstd::prelude::*;
use vstd::string::*;

verus! {

/// The kinds of failure that the library tells apart.
#[derive(Clone, Copy, Debug, PartialEq, Eq, Structural)]
pub enum FailureKind {
    /// The configuration asks for what cannot be done: an element without a
    /// backup target, a restore of elements that do not exist.
    Configuration,
    /// An external command could not be started or did not succeed.
    Command,
    /// The local file system refused a step.
    Io,
    /// The remote store refused a step.
    RemoteStore,
    /// The remote store holds no backup to restore.
    NotFound,
    /// The command line does not name an operation.
    Usage,
}

/// A failure: its kind and the line that reports it.
#[derive(Clone, Debug, PartialEq, Eq)]
pub struct Failure {
    pub kind: FailureKind,
    pub message: String,
}

/// A `Failure` with its message as a sequence of characters.
pub struct FailureView {
    pub kind: FailureKind,
    pub message: Seq<char>,
}

impl View for Failure {
    type V = FailureView;

    open spec fn view(&self) -> FailureView {
        FailureView { kind: self.kind, message: self.message@ }
    }
}

/// The line that reports a failure on `subject` with cause `cause`.
pub open spec fn report_text(heading: Seq<char>, subject: Seq<char>, cause: Seq<char>) -> Seq<
    char,
> {
    heading + subject + ": "@ + cause
}

/// Builds the failure of kind `kind` whose line is `heading`, `subject`, a
/// colon and `cause`.
pub fn report(kind: FailureKind, heading: &str, subject: &str, cause: &str) -> (r: Failure)
    ensures
        r@ == (FailureView { kind, message: report_text(heading@, subject@, cause@) }),
{
    let mut message: String = String::from_str(heading);
    message.append(subject);
    message.append(": ");
    message.append(cause);
    Failure { kind, message }
}

impl Failure {
    /// The line that reports the failure.
    pub fn to_string(&self) -> (r: String)
        ensures
            r@ == self@.message,
    {
        self.message.clone()
    }
}

} // verus!
