//! The error taxonomy of the callback protocol, and the translation between
//! it and the numeric status codes the operating system speaks.
//!
//! A provider decline (`NotSupported`) is kept distinct from an underlying
//! transfer failure (`IoError`): callers branch on the difference.

use vstd::prelude::*;

verus! {

/// Status code reported on success.
pub const STATUS_SUCCESS: u32 = 0;

/// Status code for an operation the provider declined or does not handle.
pub const STATUS_NOT_SUPPORTED: u32 = 0x8007_0032;

/// Status code for malformed command parameters.
pub const STATUS_INVALID_ARGUMENT: u32 = 0x8007_0057;

/// Status code for an underlying transfer failure.
pub const STATUS_IO_ERROR: u32 = 0x8007_045D;

/// Status code for an operation cancelled mid-flight.
pub const STATUS_CANCELLED: u32 = 0x8007_04C7;

/// Why a command or an operation failed.
#[derive(Clone, Copy, Debug, PartialEq, Eq, Structural, Hash)]
pub enum CloudErrorKind {
    /// The provider declined the operation or does not implement it.
    NotSupported,
    /// A command carried malformed parameters (for example a misaligned
    /// write, or an oversized metadata blob).
    InvalidArgument,
    /// The underlying transfer failed: a stale transfer key or an invalid
    /// byte range.
    IoError,
    /// The operation was cancelled mid-flight.
    Cancelled,
    /// An unrecognized status code, preserved for diagnostics.
    Unknown(u32),
}

/// The uniform result type of every command execution.
pub type CResult<T> = Result<T, CloudErrorKind>;

/// The error that a non-zero status code denotes.
pub open spec fn error_of_status_spec(status: u32) -> CloudErrorKind {
    if status == STATUS_NOT_SUPPORTED {
        CloudErrorKind::NotSupported
    } else if status == STATUS_INVALID_ARGUMENT {
        CloudErrorKind::InvalidArgument
    } else if status == STATUS_IO_ERROR {
        CloudErrorKind::IoError
    } else if status == STATUS_CANCELLED {
        CloudErrorKind::Cancelled
    } else {
        CloudErrorKind::Unknown(status)
    }
}

/// The status code that reports an error to the system.
pub open spec fn status_of_error_spec(error: CloudErrorKind) -> u32 {
    match error {
        CloudErrorKind::NotSupported => STATUS_NOT_SUPPORTED,
        CloudErrorKind::InvalidArgument => STATUS_INVALID_ARGUMENT,
        CloudErrorKind::IoError => STATUS_IO_ERROR,
        CloudErrorKind::Cancelled => STATUS_CANCELLED,
        CloudErrorKind::Unknown(code) => code,
    }
}

impl CloudErrorKind {
    /// Interprets a non-zero status code.
    pub fn from_status(status: u32) -> (r: CloudErrorKind)
        requires
            status != STATUS_SUCCESS,
        ensures
            r == error_of_status_spec(status),
    {
        if status == STATUS_NOT_SUPPORTED {
            CloudErrorKind::NotSupported
        } else if status == STATUS_INVALID_ARGUMENT {
            CloudErrorKind::InvalidArgument
        } else if status == STATUS_IO_ERROR {
            CloudErrorKind::IoError
        } else if status == STATUS_CANCELLED {
            CloudErrorKind::Cancelled
        } else {
            CloudErrorKind::Unknown(status)
        }
    }

    /// The status code this error is reported as.
    pub fn to_status(&self) -> (r: u32)
        ensures
            r == status_of_error_spec(*self),
    {
        match *self {
            CloudErrorKind::NotSupported => STATUS_NOT_SUPPORTED,
            CloudErrorKind::InvalidArgument => STATUS_INVALID_ARGUMENT,
            CloudErrorKind::IoError => STATUS_IO_ERROR,
            CloudErrorKind::Cancelled => STATUS_CANCELLED,
            CloudErrorKind::Unknown(code) => code,
        }
    }
}

/// Every non-zero status code survives the round trip through the error
/// taxonomy: the distinction between failure causes is never lost.
pub proof fn lemma_status_round_trip(status: u32)
    requires
        status != STATUS_SUCCESS,
    ensures
        status_of_error_spec(error_of_status_spec(status)) == status,
{
}

} // verus!
