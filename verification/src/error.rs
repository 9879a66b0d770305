//! Error taxonomy for serial-port operations.
//!
//! Every fallible operation in this crate reports an [`Error`]: a kind that
//! callers can match on plus a human-readable description. Errors raised by
//! the operating system arrive as raw `errno` values and are mapped to a kind
//! by [`Error::from_errno`].

use vstd::prelude::*;

verus! {

/// The flavour of I/O failure carried inside [`ErrorKind::Io`].
#[derive(Debug, Clone, Copy, PartialEq, Eq, Structural)]
pub enum IoErrorKind {
    /// The operation did not complete before the configured timeout elapsed.
    TimedOut,
    /// The descriptor was in non-blocking mode and the call would have blocked.
    WouldBlock,
    /// The call was interrupted by a signal before any data was transferred.
    Interrupted,
    /// The caller lacks permission to access the device.
    PermissionDenied,
    /// Any other I/O failure.
    Other,
}

/// Categories of errors that can occur when interacting with serial ports.
#[derive(Debug, Clone, Copy, PartialEq, Eq, Structural)]
pub enum ErrorKind {
    /// The device is not available: absent, disconnected, or held by another
    /// process.
    NoDevice,
    /// A parameter was incorrect, such as a baud rate the platform cannot
    /// represent.
    InvalidInput,
    /// An unknown error occurred, such as a device readback that does not
    /// match what was requested.
    Unknown,
    /// An I/O error occurred; the subkind says which one.
    Io(IoErrorKind),
}

/// An error type for serial port operations.
#[derive(Debug)]
pub struct Error {
    /// The kind of error this is.
    pub kind: ErrorKind,
    /// A description of the error suitable for end-users.
    pub description: String,
}

/// `errno` value for an absent path component.
pub const ENOENT: i32 = 2;
/// `errno` value for a call interrupted by a signal.
pub const EINTR: i32 = 4;
/// `errno` value for a device that exists but cannot respond.
pub const ENXIO: i32 = 6;
/// `errno` value for a call that would block.
pub const EAGAIN: i32 = 11;
/// `errno` value for a permission failure.
pub const EACCES: i32 = 13;
/// `errno` value for a device held by another owner.
pub const EBUSY: i32 = 16;
/// `errno` value for a missing device.
pub const ENODEV: i32 = 19;
/// `errno` value for an invalid argument.
pub const EINVAL: i32 = 22;
/// `errno` value for an operation that is not permitted.
pub const EPERM: i32 = 1;
/// `errno` value for a connection that timed out.
pub const ETIMEDOUT: i32 = 110;

/// The error kind that a raw `errno` value from the operating system maps to.
///
/// Absent, unresponsive, or busy devices map to `NoDevice`; invalid arguments
/// map to `InvalidInput`; the remaining values keep their I/O identity.
pub open spec fn kind_of_errno(errno: i32) -> ErrorKind {
    if errno == ENOENT || errno == ENXIO || errno == ENODEV || errno == EBUSY {
        ErrorKind::NoDevice
    } else if errno == EINVAL {
        ErrorKind::InvalidInput
    } else if errno == EACCES || errno == EPERM {
        ErrorKind::Io(IoErrorKind::PermissionDenied)
    } else if errno == EINTR {
        ErrorKind::Io(IoErrorKind::Interrupted)
    } else if errno == EAGAIN {
        ErrorKind::Io(IoErrorKind::WouldBlock)
    } else if errno == ETIMEDOUT {
        ErrorKind::Io(IoErrorKind::TimedOut)
    } else {
        ErrorKind::Io(IoErrorKind::Other)
    }
}

impl Error {
    /// Instantiates a new error.
    pub fn new(kind: ErrorKind, description: String) -> (r: Self)
        ensures
            r.kind == kind,
            r.description == description,
    {
        Error { kind, description }
    }

    /// Returns the corresponding `ErrorKind` for this error.
    pub fn kind(&self) -> (r: ErrorKind)
        ensures
            r == self.kind,
    {
        self.kind
    }

    /// Builds the error that a raw `errno` value from a failed system call
    /// stands for.
    pub fn from_errno(errno: i32) -> (r: Self)
        ensures
            r.kind == kind_of_errno(errno),
    {
        let kind = if errno == ENOENT || errno == ENXIO || errno == ENODEV || errno == EBUSY {
            ErrorKind::NoDevice
        } else if errno == EINVAL {
            ErrorKind::InvalidInput
        } else if errno == EACCES || errno == EPERM {
            ErrorKind::Io(IoErrorKind::PermissionDenied)
        } else if errno == EINTR {
            ErrorKind::Io(IoErrorKind::Interrupted)
        } else if errno == EAGAIN {
            ErrorKind::Io(IoErrorKind::WouldBlock)
        } else if errno == ETIMEDOUT {
            ErrorKind::Io(IoErrorKind::TimedOut)
        } else {
            ErrorKind::Io(IoErrorKind::Other)
        };
        Error { kind, description: "operating system call failed".to_owned() }
    }
}

/// A type for results generated by interacting with serial ports.
///
/// The `Err` type is hard-wired to [`Error`].
pub type Result<T> = core::result::Result<T, Error>;

} // verus!
