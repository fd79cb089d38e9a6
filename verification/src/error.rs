//! Failures of the protocol layer and how they are reported to clients.
use vstd::prelude::*;

verus! {

/// What went wrong, by the condition that caused it.
#[derive(Clone, Copy, Debug, PartialEq, Eq, Structural)]
pub enum ErrorKind {
    /// Malformed or missing descriptor, empty path, unknown action or command
    /// kind, undecodable envelope.
    InvalidRequest,
    /// A subscription was requested for a path that no publisher serves.
    UnknownDataset,
    /// A prepared-statement handle that was never issued or has been closed.
    NotFound,
    /// The query engine could not plan a statement.
    PlanningFailure,
    /// The query engine failed while producing rows.
    ExecutionFailure,
    /// A batch could not be encoded for the wire.
    EncodingFailure,
    /// Any other failure of a collaborator.
    InternalFailure,
}

/// The status codes of the RPC protocol.
#[derive(Clone, Copy, Debug, PartialEq, Eq, Structural)]
pub enum StatusCode {
    /// The call succeeded.
    Success,
    Cancelled,
    Unknown,
    InvalidArgument,
    DeadlineExceeded,
    NotFound,
    AlreadyExists,
    PermissionDenied,
    ResourceExhausted,
    FailedPrecondition,
    Aborted,
    OutOfRange,
    Unimplemented,
    Internal,
    Unavailable,
    DataLoss,
    Unauthenticated,
}

/// A failure together with the message shown to the client.
#[derive(Clone, Debug)]
pub struct FlightError {
    pub kind: ErrorKind,
    pub message: String,
}

/// The status code under which each kind of failure reaches the client.
pub open spec fn code_of(kind: ErrorKind) -> StatusCode {
    match kind {
        ErrorKind::InvalidRequest => StatusCode::InvalidArgument,
        ErrorKind::UnknownDataset => StatusCode::InvalidArgument,
        ErrorKind::NotFound => StatusCode::NotFound,
        ErrorKind::PlanningFailure => StatusCode::Internal,
        ErrorKind::ExecutionFailure => StatusCode::Internal,
        ErrorKind::EncodingFailure => StatusCode::Internal,
        ErrorKind::InternalFailure => StatusCode::Internal,
    }
}

impl ErrorKind {
    /// The protocol status code for this kind of failure.
    pub fn status_code(&self) -> (r: StatusCode)
        ensures
            r == code_of(*self),
    {
        match self {
            ErrorKind::InvalidRequest => StatusCode::InvalidArgument,
            ErrorKind::UnknownDataset => StatusCode::InvalidArgument,
            ErrorKind::NotFound => StatusCode::NotFound,
            ErrorKind::PlanningFailure => StatusCode::Internal,
            ErrorKind::ExecutionFailure => StatusCode::Internal,
            ErrorKind::EncodingFailure => StatusCode::Internal,
            ErrorKind::InternalFailure => StatusCode::Internal,
        }
    }
}

impl FlightError {
    /// A failure of the given kind with the given message.
    pub fn new(kind: ErrorKind, message: String) -> (r: FlightError)
        ensures
            r.kind == kind,
            r.message@ == message@,
    {
        FlightError { kind, message }
    }

    /// Whether this failure is of `kind` and carries exactly `message`.
    pub open spec fn has(&self, kind: ErrorKind, message: Seq<char>) -> bool {
        self.kind == kind && self.message@ == message
    }
}

/// Whether `r` is the failure of `kind` that carries exactly `message`.
pub open spec fn fails_with<T>(r: Result<T, FlightError>, kind: ErrorKind, message: Seq<char>) -> bool {
    r matches Err(e) && e.has(kind, message)
}

} // verus!
