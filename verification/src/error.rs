//! Status codes and the error type.
//!
//! The engine speaks in plain status codes: one success value, everything
//! else a failure. At every entry point that calls into the engine, a
//! failing status is classified into an [`Error`] carrying a recoverable
//! [`ErrorKind`]; rich error information never crosses the engine boundary
//! in the other direction.

use vstd::prelude::*;

verus! {

/// The one success status.
pub const STATUS_OK: i32 = 0;

/// The engine could not be created.
pub const STATUS_INIT_FAILED: i32 = -1;

/// The engine rejected a loader registration.
pub const STATUS_REGISTRATION_FAILED: i32 = -2;

/// Raw key bytes handed to a bridge callback could not be decoded.
pub const STATUS_KEY_DECODE_FAILED: i32 = -3;

/// A user loader failed to produce a stream.
pub const STATUS_CALLBACK_FAILED: i32 = -4;

/// No loader registration matches the given bridge reference.
pub const STATUS_LOADER_NOT_FOUND: i32 = -5;

/// The engine rejected the key bytes of a custom file reference.
pub const STATUS_KEY_REJECTED: i32 = -6;

/// A stream read failed.
pub const STATUS_IO_FAILED: i32 = -7;

/// The data is not a font the engine supports.
pub const STATUS_UNSUPPORTED_FILE: i32 = -8;

/// The engine ran out of identities for registrations and files. An
/// uncommon code with no classification of its own: it passes through
/// opaquely as a `StatusCodeFailure`.
pub const STATUS_IDS_EXHAUSTED: i32 = -64;

/// The recoverable classification of a failure.
#[derive(Clone, Copy, Debug, PartialEq, Eq, Structural)]
pub enum ErrorKind {
    /// The engine could not be created.
    InitializationFailure,
    /// Registering a loader with the engine failed.
    RegistrationFailure,
    /// Key bytes could not be decoded back into a typed key.
    KeyEncodingFailure,
    /// A user-supplied loader callback failed.
    LoaderCallbackFailure,
    /// The call succeeded but the data is not a supported font.
    UnsupportedFileFailure,
    /// A custom file reference named a loader that is not registered.
    LoaderNotFound,
    /// The engine rejected the key bytes.
    KeyRejected,
    /// An underlying stream read failed.
    IOFailure,
    /// Opaque passthrough for an unrecognized status code.
    StatusCodeFailure,
}

/// An error as surfaced to the application: the classified kind together
/// with the raw status code it was derived from.
#[derive(Clone, Copy, Debug, PartialEq, Eq, Structural)]
pub struct Error {
    /// The recoverable classification of the failure.
    pub kind: ErrorKind,
    /// The raw status code the engine reported.
    pub status: i32,
}

/// Whether a status code reports failure: every non-zero code does.
pub open spec fn spec_is_failure(status: i32) -> bool {
    status != STATUS_OK
}

/// The kind each status code classifies to; codes this library never
/// produces pass through as `StatusCodeFailure`.
pub open spec fn spec_kind_of_status(status: i32) -> ErrorKind {
    if status == STATUS_INIT_FAILED {
        ErrorKind::InitializationFailure
    } else if status == STATUS_REGISTRATION_FAILED {
        ErrorKind::RegistrationFailure
    } else if status == STATUS_KEY_DECODE_FAILED {
        ErrorKind::KeyEncodingFailure
    } else if status == STATUS_CALLBACK_FAILED {
        ErrorKind::LoaderCallbackFailure
    } else if status == STATUS_UNSUPPORTED_FILE {
        ErrorKind::UnsupportedFileFailure
    } else if status == STATUS_LOADER_NOT_FOUND {
        ErrorKind::LoaderNotFound
    } else if status == STATUS_KEY_REJECTED {
        ErrorKind::KeyRejected
    } else if status == STATUS_IO_FAILED {
        ErrorKind::IOFailure
    } else {
        ErrorKind::StatusCodeFailure
    }
}

impl Error {
    /// Classify a failing status code into an error.
    pub fn from_status(status: i32) -> (r: Error)
        ensures
            r.kind == spec_kind_of_status(status),
            r.status == status,
    {
        let kind = if status == STATUS_INIT_FAILED {
            ErrorKind::InitializationFailure
        } else if status == STATUS_REGISTRATION_FAILED {
            ErrorKind::RegistrationFailure
        } else if status == STATUS_KEY_DECODE_FAILED {
            ErrorKind::KeyEncodingFailure
        } else if status == STATUS_CALLBACK_FAILED {
            ErrorKind::LoaderCallbackFailure
        } else if status == STATUS_UNSUPPORTED_FILE {
            ErrorKind::UnsupportedFileFailure
        } else if status == STATUS_LOADER_NOT_FOUND {
            ErrorKind::LoaderNotFound
        } else if status == STATUS_KEY_REJECTED {
            ErrorKind::KeyRejected
        } else if status == STATUS_IO_FAILED {
            ErrorKind::IOFailure
        } else {
            ErrorKind::StatusCodeFailure
        };
        Error { kind, status }
    }

    /// Whether a status code reports failure.
    pub fn is_failure(status: i32) -> (r: bool)
        ensures
            r == spec_is_failure(status),
    {
        status != STATUS_OK
    }
}

} // verus!
