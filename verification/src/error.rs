//! The failures that cross the transport, as plain values.
use vstd::prelude::*;

verus! {

/// The category of an I/O failure, as the platform reports it.
#[derive(Clone, Copy, Debug, PartialEq, Eq)]
pub enum ErrorKind {
    NotFound,
    PermissionDenied,
    ConnectionRefused,
    ConnectionReset,
    ConnectionAborted,
    NotConnected,
    AddrInUse,
    AddrNotAvailable,
    BrokenPipe,
    AlreadyExists,
    /// The operation cannot proceed yet: the not-ready signal, no true failure.
    WouldBlock,
    InvalidInput,
    InvalidData,
    TimedOut,
    WriteZero,
    Interrupted,
    Other,
    UnexpectedEof,
}

/// An I/O failure: its category and, where the platform gave one, its raw code.
#[derive(Clone, Copy, Debug, PartialEq, Eq)]
pub struct IoError {
    pub kind: ErrorKind,
    pub code: Option<i32>,
}

impl IoError {
    /// A failure of the given category that carries no platform code.
    pub open spec fn of(kind: ErrorKind) -> IoError {
        IoError { kind, code: None }
    }

    /// Whether this is the not-ready signal rather than a true failure.
    pub open spec fn would_block(self) -> bool {
        self.kind == ErrorKind::WouldBlock
    }

    /// Builds a failure of the given category without a platform code.
    pub fn new(kind: ErrorKind) -> (e: IoError)
        ensures
            e == IoError::of(kind),
    {
        IoError { kind, code: None }
    }

    /// Tells the not-ready signal from every other failure.
    pub fn is_would_block(&self) -> (b: bool)
        ensures
            b == self.would_block(),
    {
        match self.kind {
            ErrorKind::WouldBlock => true,
            _ => false,
        }
    }
}

} // verus!
