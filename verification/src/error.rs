//! Failures that a poll can report.

use vstd::prelude::*;

verus! {

/// The category of an I/O failure, as the operating system reports it.
#[derive(Clone, Copy, Debug, PartialEq, Eq, Structural)]
pub enum IoErrorKind {
    NotFound,
    PermissionDenied,
    ConnectionRefused,
    ConnectionReset,
    ConnectionAborted,
    NotConnected,
    AddrInUse,
    AddrNotAvailable,
    BrokenPipe,
    AlreadyExists,
    /// The operation could not complete at once; it may succeed later.
    WouldBlock,
    InvalidInput,
    InvalidData,
    TimedOut,
    WriteZero,
    Interrupted,
    UnexpectedEof,
    Other,
}

/// An I/O failure of a socket operation: its category and, where the
/// operating system gave one, its raw error code.
#[derive(Clone, Copy, Debug, PartialEq, Eq, Structural)]
pub struct IoError {
    pub kind: IoErrorKind,
    pub code: Option<i32>,
}

impl IoError {
    /// Whether the failure is transient: the operation would have had to
    /// wait, and nothing is wrong with the socket.
    pub open spec fn would_block(self) -> bool {
        self.kind == IoErrorKind::WouldBlock
    }

    /// An I/O failure of the given category, without an error code.
    pub fn new(kind: IoErrorKind) -> (e: IoError)
        ensures
            e == (IoError { kind, code: None }),
    {
        IoError { kind, code: None }
    }

    /// Tells a transient would-block failure from every other failure.
    pub fn is_would_block(&self) -> (b: bool)
        ensures
            b == self.would_block(),
    {
        self.kind == IoErrorKind::WouldBlock
    }
}

/// A buffer pool could not provide a buffer.
#[derive(Clone, Copy, Debug, PartialEq, Eq, Structural)]
pub struct AllocationError {
    /// The capacity that was asked for.
    pub requested: usize,
}

/// Why a poll failed.
#[derive(Clone, Copy, Debug, PartialEq, Eq, Structural)]
pub enum PollError {
    /// The pool had no buffer to give. A later poll may succeed.
    Allocation(AllocationError),
    /// The socket failed, and not merely by asking to wait.
    Io(IoError),
}

} // verus!
