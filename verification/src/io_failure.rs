//! An input/output failure as the tools report it: what kind of failure it
//! was, and the text it displays.
use vstd::prelude::*;

verus! {

/// The kind of an input/output failure, as `std::io::ErrorKind` tells it.
#[derive(Debug, Clone, Copy, PartialEq, Eq, Structural)]
pub enum IoErrorKind {
    NotFound,
    PermissionDenied,
    ConnectionRefused,
    ConnectionReset,
    ConnectionAborted,
    NotConnected,
    AddrInUse,
    AddrNotAvailable,
    BrokenPipe,
    AlreadyExists,
    WouldBlock,
    InvalidInput,
    InvalidData,
    TimedOut,
    WriteZero,
    Interrupted,
    Unsupported,
    UnexpectedEof,
    OutOfMemory,
    Other,
}

/// An input/output failure: its kind and the text it displays.
#[derive(Debug)]
pub struct IoFailure {
    pub kind: IoErrorKind,
    pub message: String,
}

impl IoFailure {
    /// The failure of kind `kind` that displays `message`.
    pub fn new(kind: IoErrorKind, message: String) -> (f: IoFailure)
        ensures
            f.kind == kind,
            f.message@ == message@,
    {
        IoFailure { kind, message }
    }
}

} // verus!
