use vstd::prelude::*;

verus! {

/// The remote operation during which a failure happened.
#[derive(Debug, Clone, Copy, PartialEq, Eq, Structural)]
pub enum Operation {
    Login,
    FetchNote,
    UpdateNote,
    RemoveNote,
    ListNotes,
    ReadClock,
}

/// Failures of the client, each tagged with the operation it interrupted.
#[derive(Debug, Clone, Copy, PartialEq, Eq, Structural)]
pub enum Error {
    /// The login endpoint answered with a non-success status.
    Authentication { status: u16 },
    /// The transport failed, or the service answered with an unexpected status.
    Network { op: Operation },
    /// The body of an answer did not have the expected shape.
    Decode { op: Operation },
    /// The service does not know the requested identifier.
    NotFound { op: Operation },
    /// The system clock could not be read as seconds since the Unix epoch.
    Clock { op: Operation },
}

pub type Result<T> = core::result::Result<T, Error>;

} // verus!
