//! Failures reported by the cluster accessor, and how they are classified.

use vstd::prelude::*;

verus! {

/// HTTP status with which the API server says that a resource does not exist.
pub const STATUS_NOT_FOUND: u16 = 404;

/// HTTP status with which the API server refuses a create because the
/// resource already exists.
pub const STATUS_CONFLICT: u16 = 409;

/// HTTP status with which the API server asks a client to slow down.
pub const STATUS_TOO_MANY_REQUESTS: u16 = 429;

/// HTTP status of an API server that is unable to answer for the moment.
pub const STATUS_UNAVAILABLE: u16 = 503;

/// Where a failed call went wrong.
#[derive(Debug, Clone, Copy, PartialEq, Eq, Structural)]
pub enum Cause {
    /// The API server answered, with this error status.
    Status(u16),
    /// No answer arrived: the connection could not be made or broke.
    Transport,
    /// The request could not be made, or its answer could not be read.
    Client,
}

/// The kinds of failure the controller tells apart.
#[derive(Debug, Clone, Copy, PartialEq, Eq, Structural)]
pub enum ErrorKind {
    /// The targeted resource does not exist.
    NotFound,
    /// A create was refused because the resource exists by now.
    Conflict,
    /// The network or the server failed for the moment; trying again may work.
    Transient,
    /// Anything else: permission, malformed request, server error.
    Other,
}

/// What the accessor reports of a call that did not succeed.
#[derive(Debug, Clone, PartialEq, Eq)]
pub struct Failure {
    pub cause: Cause,
    /// Description for the log; the controller never reads it.
    pub detail: String,
}

/// Mathematical value of a [`Failure`].
pub struct FailureView {
    pub cause: Cause,
    pub detail: Seq<char>,
}

impl View for Failure {
    type V = FailureView;

    open spec fn view(&self) -> FailureView {
        FailureView { cause: self.cause, detail: self.detail@ }
    }
}

/// The kind of a failure with the given cause.
///
/// Among the statuses, one names a missing resource and one an existing
/// resource, two tell the client to come back later, and every other one is
/// final.  A call that got no answer failed for the moment.  A call that the
/// client could not make, or whose answer it could not read, will fail the
/// same way again.
pub open spec fn kind_of(cause: Cause) -> ErrorKind {
    match cause {
        Cause::Status(code) => if code == STATUS_NOT_FOUND {
            ErrorKind::NotFound
        } else if code == STATUS_CONFLICT {
            ErrorKind::Conflict
        } else if code == STATUS_TOO_MANY_REQUESTS || code == STATUS_UNAVAILABLE {
            ErrorKind::Transient
        } else {
            ErrorKind::Other
        },
        Cause::Transport => ErrorKind::Transient,
        Cause::Client => ErrorKind::Other,
    }
}

/// Classifies a failure by its cause.
pub fn classify(cause: Cause) -> (kind: ErrorKind)
    ensures
        kind == kind_of(cause),
{
    match cause {
        Cause::Status(code) => {
            if code == STATUS_NOT_FOUND {
                ErrorKind::NotFound
            } else if code == STATUS_CONFLICT {
                ErrorKind::Conflict
            } else if code == STATUS_TOO_MANY_REQUESTS || code == STATUS_UNAVAILABLE {
                ErrorKind::Transient
            } else {
                ErrorKind::Other
            }
        },
        Cause::Transport => ErrorKind::Transient,
        Cause::Client => ErrorKind::Other,
    }
}

impl FailureView {
    /// The kind this failure belongs to.
    pub open spec fn kind(self) -> ErrorKind {
        kind_of(self.cause)
    }
}

impl Failure {
    /// The kind this failure belongs to.
    pub fn kind(&self) -> (kind: ErrorKind)
        ensures
            kind == self@.kind(),
    {
        classify(self.cause)
    }
}

} // verus!
