//! The failures that an operation reports to its caller.
use vstd::prelude::*;

verus! {

/// The class of a failed operation.
#[derive(Clone, Copy, Debug, PartialEq, Eq, Structural)]
pub enum ErrorKind {
    /// The argument record did not have the shape the operation expects.
    InvalidArgs,
    /// A seek origin other than start, current or end was requested.
    InvalidSeekMode,
    /// The permission policy refused a read or write.
    PermissionDenied,
    /// The handle names no open resource of the expected kind.
    BadResource,
    /// The operating system refused the call.
    IoFailure,
    /// No handler is registered under the requested operation name.
    UnknownOp,
}

/// Which permission the policy was asked for.
#[derive(Clone, Copy, Debug, PartialEq, Eq, Structural)]
pub enum PermissionKind {
    Read,
    Write,
}

/// A failed operation, with what the caller needs to describe it.
#[derive(Clone, Debug)]
pub enum OpError {
    /// Decoding the arguments failed; holds the decoder's reason.
    InvalidArgs(String),
    /// The rejected `whence` value.
    InvalidSeekMode(u32),
    /// The permission that was refused.
    PermissionDenied(PermissionKind),
    BadResource,
    /// The reason the operating system gave.
    IoFailure(String),
    /// The name that no handler is registered under.
    UnknownOp(String),
}

impl OpError {
    pub open spec fn spec_kind(&self) -> ErrorKind {
        match self {
            OpError::InvalidArgs(_) => ErrorKind::InvalidArgs,
            OpError::InvalidSeekMode(_) => ErrorKind::InvalidSeekMode,
            OpError::PermissionDenied(_) => ErrorKind::PermissionDenied,
            OpError::BadResource => ErrorKind::BadResource,
            OpError::IoFailure(_) => ErrorKind::IoFailure,
            OpError::UnknownOp(_) => ErrorKind::UnknownOp,
        }
    }

    /// The class of this failure.
    pub fn kind(&self) -> (k: ErrorKind)
        ensures
            k == self.spec_kind(),
    {
        match self {
            OpError::InvalidArgs(_) => ErrorKind::InvalidArgs,
            OpError::InvalidSeekMode(_) => ErrorKind::InvalidSeekMode,
            OpError::PermissionDenied(_) => ErrorKind::PermissionDenied,
            OpError::BadResource => ErrorKind::BadResource,
            OpError::IoFailure(_) => ErrorKind::IoFailure,
            OpError::UnknownOp(_) => ErrorKind::UnknownOp,
        }
    }
}

} // verus!
