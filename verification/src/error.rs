use vstd::prelude::*;

verus! {

/// What kind of failure a socket operation reported.
#[derive(Debug, Clone, Copy, PartialEq, Eq, Structural)]
pub enum IoErrorKind {
    /// Nothing is pending on a non-blocking socket.
    WouldBlock,
    /// A non-blocking connect has been started and is not yet complete.
    InProgress,
    /// Any other failure.
    Other,
}

/// A failure of a socket operation.
#[derive(Debug, Clone, Copy, PartialEq, Eq, Structural)]
pub struct IoError {
    pub kind: IoErrorKind,
    /// The operating system's error number, or zero where there is none.
    pub code: i32,
}

/// The result of a socket operation.
pub type IoResult<T> = Result<T, IoError>;

/// A failure that the tracer reports to its caller.
#[derive(Debug, Clone, Copy, PartialEq, Eq, Structural)]
pub enum Error {
    /// The packet size asked for is outside the range that can be sent.
    InvalidPacketSize(usize),
    /// A buffer is shorter than the header that was to be read from it.
    PacketTooSmall,
    /// A socket operation failed.
    IoError(IoError),
    /// A connected socket has no peer address.
    MissingAddr,
}

} // verus!
