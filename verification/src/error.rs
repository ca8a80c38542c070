//! The error taxonomy shared by every stage of the pipeline.
//!
//! An [`Error`] is a (kind, human-readable message) pair. The kind records
//! why a call failed: input rejected before any side effect, work could not
//! be handed to the next stage, the next stage did not answer, the next
//! stage answered with an explicit failure, no handler was registered, or
//! the storage backend refused the mutation. Errors are clonable so that
//! the same error can simultaneously be delivered through a reply handle
//! and returned to the caller of the failing function.

use vstd::prelude::*;

verus! {

/// Why a pipeline call failed, independent of its message.
#[derive(Clone, Copy, PartialEq, Eq, Structural, Debug)]
pub enum ErrorKind {
    /// Caller input was rejected before any side effect.
    ValidationFailure,
    /// Work could not be handed to the next stage: its channel was closed.
    SendFailure,
    /// Work could not be handed to the next stage before the deadline.
    SendTimeout,
    /// The next stage vanished without answering.
    ReceiveFailure,
    /// The next stage did not answer before the deadline.
    ReceiveTimeout,
    /// The next stage answered with an explicit failure of its own.
    HandlerReportedFailure,
    /// No handler is registered for the request's tag.
    UnroutableRequest,
    /// The storage backend refused or failed the operation.
    StorageFailure,
}

/// A typed pipeline error: a kind plus a human-readable message.
#[derive(Debug)]
pub struct Error {
    pub kind: ErrorKind,
    pub message: String,
}

/// Two errors carry the same information: same kind, same message text.
pub open spec fn err_equiv(a: Error, b: Error) -> bool {
    a.kind == b.kind && a.message@ == b.message@
}

impl Error {
    /// Build an error from its kind and message.
    pub fn new(kind: ErrorKind, message: String) -> (e: Error)
        ensures
            e.kind == kind,
            e.message@ == message@,
    {
        Error { kind, message }
    }

    /// The kind of this error.
    pub fn kind(&self) -> (k: ErrorKind)
        ensures
            k == self.kind,
    {
        self.kind
    }

    /// The human-readable message of this error.
    pub fn message(&self) -> (m: &String)
        ensures
            m@ == self.message@,
    {
        &self.message
    }
}

impl Clone for Error {
    /// A clone carries the same kind and the same message.
    fn clone(&self) -> (e: Error)
        ensures
            err_equiv(e, *self),
    {
        Error { kind: self.kind, message: self.message.clone() }
    }
}

} // verus!
