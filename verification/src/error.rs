//! The failures that the decoding layer reports to its callers.

use vstd::prelude::*;

verus! {

/// Why an operation was refused or did not succeed.
#[derive(Clone, Copy, Debug, PartialEq, Eq, Structural)]
pub enum ErrorKind {
    /// Options or a search resource that cannot be used.
    ConfigurationFailure,
    /// The engine answered a protocol operation with a failure code.
    EngineFailure,
    /// The grammar parser rejected its input.
    GrammarSyntaxError,
    /// The operation is not allowed in the session's current state.
    Lifecycle,
}

/// A failure of the decoding layer. The engine writes the details to its
/// own log; the value only tells the kinds apart.
#[derive(Clone, Copy, Debug, PartialEq, Eq, Structural)]
pub struct Error {
    pub kind: ErrorKind,
}

impl Error {
    pub fn new(kind: ErrorKind) -> (e: Error)
        ensures
            e.kind == kind,
    {
        Error { kind }
    }

    pub fn kind(&self) -> (k: ErrorKind)
        ensures
            k == self.kind,
    {
        self.kind
    }

    /// A short name for the failure, the same for every kind.
    pub fn description(&self) -> (text: &'static str)
        ensures
            text@ == "PocketSphinx error"@,
    {
        "PocketSphinx error"
    }

    /// The sentence shown to a user.
    pub fn message(&self) -> (text: &'static str)
        ensures
            text@ == "PocketSphinx error, see log for details"@,
    {
        "PocketSphinx error, see log for details"
    }

    /// An error of this layer never wraps another one.
    pub fn cause(&self) -> (inner: Option<Error>)
        ensures
            inner is None,
    {
        None
    }
}

} // verus!
