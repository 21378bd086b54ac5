//! What can go wrong, and how it is reported.

use vstd::prelude::*;

verus! {

/// What the host reports of one operation on the terminal: that it went
/// well, or the error code of the system where it did not (0 where the
/// system gave none).
pub type Outcome = Result<(), i32>;

/// Why one operation on the terminal did not succeed.
#[derive(Clone, Copy, Debug, PartialEq, Eq)]
pub enum Failure {
    /// A control sequence could not be written to the output stream.
    Io(i32),
    /// The console refused a handle, a mode query or a mode change.
    Platform(i32),
}

/// The errors that the operations of this crate return.
#[derive(Clone, Copy, Debug, PartialEq, Eq)]
pub enum ErrorKind {
    /// A control sequence could not be written.
    IoError(i32),
    /// The console rejected a request.
    PlatformError(i32),
    /// A later step failed after an earlier one had succeeded, and the
    /// earlier one was undone. Carries the failure of the later step.
    CompositionError(Failure),
}

impl Failure {
    /// The error code of the system.
    pub open spec fn spec_code(self) -> i32 {
        match self {
            Failure::Io(code) => code,
            Failure::Platform(code) => code,
        }
    }

    /// The error code of the system.
    #[verifier::when_used_as_spec(spec_code)]
    pub fn code(self) -> (code: i32)
        ensures
            code == self.spec_code(),
    {
        match self {
            Failure::Io(code) => code,
            Failure::Platform(code) => code,
        }
    }
}

impl ErrorKind {
    /// The error under which a single failed operation is reported.
    pub open spec fn of(failure: Failure) -> ErrorKind {
        match failure {
            Failure::Io(code) => ErrorKind::IoError(code),
            Failure::Platform(code) => ErrorKind::PlatformError(code),
        }
    }

    /// The failed operation that an error goes back to.
    pub open spec fn spec_cause(self) -> Failure {
        match self {
            ErrorKind::IoError(code) => Failure::Io(code),
            ErrorKind::PlatformError(code) => Failure::Platform(code),
            ErrorKind::CompositionError(failure) => failure,
        }
    }

    /// Reports a single failed operation as an error, keeping its kind and
    /// code.
    pub fn from_failure(failure: Failure) -> (error: ErrorKind)
        ensures
            error == ErrorKind::of(failure),
    {
        match failure {
            Failure::Io(code) => ErrorKind::IoError(code),
            Failure::Platform(code) => ErrorKind::PlatformError(code),
        }
    }

    /// The failed operation that this error goes back to.
    #[verifier::when_used_as_spec(spec_cause)]
    pub fn cause(self) -> (failure: Failure)
        ensures
            failure == self.spec_cause(),
    {
        match self {
            ErrorKind::IoError(code) => Failure::Io(code),
            ErrorKind::PlatformError(code) => Failure::Platform(code),
            ErrorKind::CompositionError(failure) => failure,
        }
    }

    /// Whether the error reports a step that was undone.
    pub fn is_composition(&self) -> (b: bool)
        ensures
            b == (*self is CompositionError),
    {
        match self {
            ErrorKind::CompositionError(_) => true,
            _ => false,
        }
    }
}

/// An error that reports a single failed operation goes back to just that
/// failure; a composition error goes back to the failure it carries.
pub proof fn cause_of_reported_failure(failure: Failure)
    ensures
        ErrorKind::of(failure).cause() == failure,
        ErrorKind::CompositionError(failure).cause() == failure,
        !(ErrorKind::of(failure) is CompositionError),
{
}

} // verus!
