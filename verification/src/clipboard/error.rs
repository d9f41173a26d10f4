//! Errors of clipboard operations.
use vstd::prelude::*;
use crate::screen_capture::error::with_context_text;
use crate::text::{concat, decimal, owned, u64_to_decimal};

verus! {

/// What kind of failure a [`ClipboardError`] reports.
#[derive(Debug, Clone, Copy, PartialEq, Eq, Structural)]
pub enum ClipboardErrorKind {
    UnsupportedPlatform,
    ClipboardUnavailable,
    EmptyClipboard,
    InvalidFormat,
    EntryNotFound,
    SerializationError,
    DecodingError,
    NetworkError,
    PermissionDenied,
    UnsupportedOperation,
    IoError,
    Timeout,
    ContentTooLarge,
    ContentBlocked,
    ConfigError,
}

/// Error types for clipboard operations
#[derive(Debug)]
pub enum ClipboardError {
    /// Platform not supported
    UnsupportedPlatform(String),
    /// Clipboard not available
    ClipboardUnavailable(String),
    /// Clipboard is empty
    EmptyClipboard,
    /// Invalid data format
    InvalidFormat(String),
    /// Entry not found
    EntryNotFound(String),
    /// Serialization error
    SerializationError(String),
    /// Decoding error
    DecodingError(String),
    /// Network error during synchronisation
    NetworkError(String),
    /// Permission error
    PermissionDenied(String),
    /// Operation not supported
    UnsupportedOperation(String),
    /// I/O error
    IoError(String),
    /// Operation timed out
    Timeout(String),
    /// Content too large: (actual size, maximum size) in bytes
    ContentTooLarge(usize, usize),
    /// Content blocked by a filter
    ContentBlocked(String),
    /// Configuration error
    ConfigError(String),
}

impl ClipboardError {
    pub open spec fn kind(&self) -> ClipboardErrorKind {
        match self {
            ClipboardError::UnsupportedPlatform(_) => ClipboardErrorKind::UnsupportedPlatform,
            ClipboardError::ClipboardUnavailable(_) => ClipboardErrorKind::ClipboardUnavailable,
            ClipboardError::EmptyClipboard => ClipboardErrorKind::EmptyClipboard,
            ClipboardError::InvalidFormat(_) => ClipboardErrorKind::InvalidFormat,
            ClipboardError::EntryNotFound(_) => ClipboardErrorKind::EntryNotFound,
            ClipboardError::SerializationError(_) => ClipboardErrorKind::SerializationError,
            ClipboardError::DecodingError(_) => ClipboardErrorKind::DecodingError,
            ClipboardError::NetworkError(_) => ClipboardErrorKind::NetworkError,
            ClipboardError::PermissionDenied(_) => ClipboardErrorKind::PermissionDenied,
            ClipboardError::UnsupportedOperation(_) => ClipboardErrorKind::UnsupportedOperation,
            ClipboardError::IoError(_) => ClipboardErrorKind::IoError,
            ClipboardError::Timeout(_) => ClipboardErrorKind::Timeout,
            ClipboardError::ContentTooLarge(_, _) => ClipboardErrorKind::ContentTooLarge,
            ClipboardError::ContentBlocked(_) => ClipboardErrorKind::ContentBlocked,
            ClipboardError::ConfigError(_) => ClipboardErrorKind::ConfigError,
        }
    }

    /// The description an error carries (empty for the variants without
    /// one).
    pub open spec fn detail(&self) -> Seq<char> {
        match self {
            ClipboardError::UnsupportedPlatform(m) => m@,
            ClipboardError::ClipboardUnavailable(m) => m@,
            ClipboardError::EmptyClipboard => Seq::empty(),
            ClipboardError::InvalidFormat(m) => m@,
            ClipboardError::EntryNotFound(m) => m@,
            ClipboardError::SerializationError(m) => m@,
            ClipboardError::DecodingError(m) => m@,
            ClipboardError::NetworkError(m) => m@,
            ClipboardError::PermissionDenied(m) => m@,
            ClipboardError::UnsupportedOperation(m) => m@,
            ClipboardError::IoError(m) => m@,
            ClipboardError::Timeout(m) => m@,
            ClipboardError::ContentTooLarge(_, _) => Seq::empty(),
            ClipboardError::ContentBlocked(m) => m@,
            ClipboardError::ConfigError(m) => m@,
        }
    }

    /// Whether this error is of kind `kind` and carries `detail`.
    pub open spec fn is(&self, kind: ClipboardErrorKind, detail: Seq<char>) -> bool {
        self.kind() == kind && self.detail() == detail
    }

    /// The human-readable message of the error.
    pub open spec fn text(&self) -> Seq<char> {
        match self {
            ClipboardError::UnsupportedPlatform(m) => "Unsupported platform: "@ + m@,
            ClipboardError::ClipboardUnavailable(m) => "Clipboard unavailable: "@ + m@,
            ClipboardError::EmptyClipboard => "Clipboard is empty"@,
            ClipboardError::InvalidFormat(m) => "Invalid format: "@ + m@,
            ClipboardError::EntryNotFound(m) => "Entry not found: "@ + m@,
            ClipboardError::SerializationError(m) => "Serialization error: "@ + m@,
            ClipboardError::DecodingError(m) => "Decoding error: "@ + m@,
            ClipboardError::NetworkError(m) => "Network error: "@ + m@,
            ClipboardError::PermissionDenied(m) => "Permission denied: "@ + m@,
            ClipboardError::UnsupportedOperation(m) => "Unsupported operation: "@ + m@,
            ClipboardError::IoError(m) => "I/O error: "@ + m@,
            ClipboardError::Timeout(m) => "Timeout: "@ + m@,
            ClipboardError::ContentTooLarge(actual, max) => "Content too large: "@ + decimal(*actual as nat)
                + " bytes (max: "@ + decimal(*max as nat) + " bytes)"@,
            ClipboardError::ContentBlocked(m) => "Content blocked: "@ + m@,
            ClipboardError::ConfigError(m) => "Configuration error: "@ + m@,
        }
    }

    /// The kind of this error.
    pub fn error_kind(&self) -> (k: ClipboardErrorKind)
        ensures
            k == self.kind(),
    {
        match self {
            ClipboardError::UnsupportedPlatform(_) => ClipboardErrorKind::UnsupportedPlatform,
            ClipboardError::ClipboardUnavailable(_) => ClipboardErrorKind::ClipboardUnavailable,
            ClipboardError::EmptyClipboard => ClipboardErrorKind::EmptyClipboard,
            ClipboardError::InvalidFormat(_) => ClipboardErrorKind::InvalidFormat,
            ClipboardError::EntryNotFound(_) => ClipboardErrorKind::EntryNotFound,
            ClipboardError::SerializationError(_) => ClipboardErrorKind::SerializationError,
            ClipboardError::DecodingError(_) => ClipboardErrorKind::DecodingError,
            ClipboardError::NetworkError(_) => ClipboardErrorKind::NetworkError,
            ClipboardError::PermissionDenied(_) => ClipboardErrorKind::PermissionDenied,
            ClipboardError::UnsupportedOperation(_) => ClipboardErrorKind::UnsupportedOperation,
            ClipboardError::IoError(_) => ClipboardErrorKind::IoError,
            ClipboardError::Timeout(_) => ClipboardErrorKind::Timeout,
            ClipboardError::ContentTooLarge(_, _) => ClipboardErrorKind::ContentTooLarge,
            ClipboardError::ContentBlocked(_) => ClipboardErrorKind::ContentBlocked,
            ClipboardError::ConfigError(_) => ClipboardErrorKind::ConfigError,
        }
    }

    /// The human-readable message of the error.
    pub fn message(&self) -> (s: String)
        ensures
            s@ == self.text(),
    {
        match self {
            ClipboardError::UnsupportedPlatform(m) => concat("Unsupported platform: ", m.as_str()),
            ClipboardError::ClipboardUnavailable(m) => concat("Clipboard unavailable: ", m.as_str()),
            ClipboardError::EmptyClipboard => owned("Clipboard is empty"),
            ClipboardError::InvalidFormat(m) => concat("Invalid format: ", m.as_str()),
            ClipboardError::EntryNotFound(m) => concat("Entry not found: ", m.as_str()),
            ClipboardError::SerializationError(m) => concat("Serialization error: ", m.as_str()),
            ClipboardError::DecodingError(m) => concat("Decoding error: ", m.as_str()),
            ClipboardError::NetworkError(m) => concat("Network error: ", m.as_str()),
            ClipboardError::PermissionDenied(m) => concat("Permission denied: ", m.as_str()),
            ClipboardError::UnsupportedOperation(m) => concat("Unsupported operation: ", m.as_str()),
            ClipboardError::IoError(m) => concat("I/O error: ", m.as_str()),
            ClipboardError::Timeout(m) => concat("Timeout: ", m.as_str()),
            ClipboardError::ContentTooLarge(actual, max) => {
                let a = u64_to_decimal(*actual as u64);
                let m = u64_to_decimal(*max as u64);
                let s1 = concat("Content too large: ", a.as_str());
                let s2 = concat(s1.as_str(), " bytes (max: ");
                let s3 = concat(s2.as_str(), m.as_str());
                concat(s3.as_str(), " bytes)")
            },
            ClipboardError::ContentBlocked(m) => concat("Content blocked: ", m.as_str()),
            ClipboardError::ConfigError(m) => concat("Configuration error: ", m.as_str()),
        }
    }
}

/// The clipboard is unavailable, for the reason `context`.
pub fn clipboard_unavailable_error(context: &str) -> (e: ClipboardError)
    ensures
        e.is(ClipboardErrorKind::ClipboardUnavailable, context@),
{
    ClipboardError::ClipboardUnavailable(owned(context))
}

/// Data is not in the expected format: `InvalidFormat("format: context")`.
pub fn invalid_format_error(format: &str, context: &str) -> (e: ClipboardError)
    ensures
        e.is(ClipboardErrorKind::InvalidFormat, format@ + ": "@ + context@),
{
    let head = concat(format, ": ");
    ClipboardError::InvalidFormat(concat(head.as_str(), context))
}

/// An operation was refused.
pub fn permission_denied_error(operation: &str) -> (e: ClipboardError)
    ensures
        e.is(ClipboardErrorKind::PermissionDenied, "Permission denied for operation: "@ + operation@),
{
    ClipboardError::PermissionDenied(concat("Permission denied for operation: ", operation))
}

/// Content of `actual_size` bytes exceeds the limit of `max_size` bytes.
pub fn content_too_large_error(actual_size: usize, max_size: usize) -> (e: ClipboardError)
    ensures
        e == ClipboardError::ContentTooLarge(actual_size, max_size),
{
    ClipboardError::ContentTooLarge(actual_size, max_size)
}

/// An operation is not supported on a platform:
/// `UnsupportedOperation("operation not supported on platform")`.
pub fn unsupported_operation_error(operation: &str, platform: &str) -> (e: ClipboardError)
    ensures
        e.is(ClipboardErrorKind::UnsupportedOperation, operation@ + " not supported on "@ + platform@),
{
    let head = concat(operation, " not supported on ");
    ClipboardError::UnsupportedOperation(concat(head.as_str(), platform))
}

/// Conversion of any displayable error into a clipboard error, with context.
pub trait ClipboardErrorExt<T>: Sized {
    fn with_clipboard_context<C>(self, context: C) -> (res: Result<T, ClipboardError>) where
        C: FnOnce() -> String,

        requires
            context.requires(()),
    ;
}

impl<T, E: std::fmt::Display> ClipboardErrorExt<T> for Result<T, E> {
    /// An `Ok` value passes through; an error becomes an `IoError` whose
    /// description is the context's text, `": "` and the error's rendering.
    fn with_clipboard_context<C>(self, context: C) -> (res: Result<T, ClipboardError>) where
        C: FnOnce() -> String,
        ensures
            match self {
                Ok(v) => res == Ok::<T, ClipboardError>(v),
                Err(e) => res matches Err(err) && err.kind() == ClipboardErrorKind::IoError && exists|c: String|
                    context.ensures((), c) && with_context_text(c@, &e, err.detail()),
            },
    {
        match self {
            Ok(v) => Ok(v),
            Err(e) => {
                let c = context();
                let t = e.to_string();
                let head = concat(c.as_str(), ": ");
                let s = concat(head.as_str(), t.as_str());
                assert(s@ == c@ + ": "@ + t@);
                Err(ClipboardError::IoError(s))
            },
        }
    }
}

} // verus!
