//! Failures that the daemon reports.

use vstd::prelude::*;

verus! {

/// The kinds of operating-system failure that the daemon tells apart.
#[derive(Clone, Copy, Debug, PartialEq, Eq, Structural)]
pub enum IoErrorKind {
    /// A blocking call was interrupted before anything happened.
    Interrupted,
    /// The other end of a channel is gone.
    BrokenPipe,
    /// The data handed over could not be used.
    InvalidData,
    /// Any other failure.
    Other,
}

/// A failure of an operating-system call, reduced to what the daemon reads
/// of it: its kind, and the error number where the system gave one.
#[derive(Clone, Copy, Debug, PartialEq, Eq, Structural)]
pub struct IoError {
    pub kind: IoErrorKind,
    pub code: Option<i32>,
}

impl IoError {
    /// A failure of the given kind that carries no error number.
    pub fn from_kind(kind: IoErrorKind) -> (e: IoError)
        ensures
            e == (IoError { kind, code: None }),
    {
        IoError { kind, code: None }
    }

    /// Whether the failure only says that a wait was interrupted.
    pub fn is_interrupted(&self) -> (b: bool)
        ensures
            b == (self.kind == IoErrorKind::Interrupted),
    {
        self.kind == IoErrorKind::Interrupted
    }
}

/// The failure with which the protocol server answered one request, as the
/// error number it stands for.
#[derive(Clone, Copy, Debug, PartialEq, Eq, Structural)]
pub struct MessageError {
    pub code: i32,
}

/// What can go wrong in the backend device and around it.
#[derive(Clone, Copy, Debug, PartialEq, Eq, Structural)]
pub enum Error {
    /// A queue event arrived with a readiness other than "readable".
    HandleEventNotEpollIn,
    /// A queue event arrived for a queue that the device does not have.
    HandleEventUnknownEvent,
    /// A queue was to be processed before any guest memory was installed.
    NoMemoryConfigured,
    /// The protocol server failed on a request.
    ProcessQueue(MessageError),
    /// The polling handle could not be created or a registration failed.
    Epoll(IoError),
    /// An event handle could not be duplicated.
    EventFdClone(IoError),
    /// A thread could not be started.
    ThreadSpawn(IoError),
}

impl Error {
    /// The kind under which the failure is reported to a caller that only
    /// knows operating-system failures: always `Other`.
    pub fn io_kind(&self) -> (kind: IoErrorKind)
        ensures
            kind == IoErrorKind::Other,
    {
        IoErrorKind::Other
    }
}

} // verus!
