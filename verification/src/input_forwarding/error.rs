//! Errors of input forwarding.
use vstd::prelude::*;
use crate::screen_capture::error::with_context_text;
use crate::text::concat;

verus! {

/// What kind of failure an [`InputForwardingError`] reports.
#[derive(Debug, Clone, Copy, PartialEq, Eq, Structural)]
pub enum InputForwardingErrorKind {
    InitializationFailed,
    SendEventFailed,
    UnsupportedEvent,
    PermissionDenied,
    MonitorConfigError,
}

/// Input forwarding error types; each carries a description.
#[derive(Debug)]
pub enum InputForwardingError {
    InitializationFailed(String),
    SendEventFailed(String),
    UnsupportedEvent(String),
    PermissionDenied(String),
    MonitorConfigError(String),
}

impl InputForwardingError {
    pub open spec fn kind(&self) -> InputForwardingErrorKind {
        match self {
            InputForwardingError::InitializationFailed(_) => InputForwardingErrorKind::InitializationFailed,
            InputForwardingError::SendEventFailed(_) => InputForwardingErrorKind::SendEventFailed,
            InputForwardingError::UnsupportedEvent(_) => InputForwardingErrorKind::UnsupportedEvent,
            InputForwardingError::PermissionDenied(_) => InputForwardingErrorKind::PermissionDenied,
            InputForwardingError::MonitorConfigError(_) => InputForwardingErrorKind::MonitorConfigError,
        }
    }

    /// The description the error carries.
    pub open spec fn detail(&self) -> Seq<char> {
        match self {
            InputForwardingError::InitializationFailed(m) => m@,
            InputForwardingError::SendEventFailed(m) => m@,
            InputForwardingError::UnsupportedEvent(m) => m@,
            InputForwardingError::PermissionDenied(m) => m@,
            InputForwardingError::MonitorConfigError(m) => m@,
        }
    }

    /// Whether this error is of kind `kind` and carries `detail`.
    pub open spec fn is(&self, kind: InputForwardingErrorKind, detail: Seq<char>) -> bool {
        self.kind() == kind && self.detail() == detail
    }

    /// The prefix that the error's message puts before its description.
    pub open spec fn label(kind: InputForwardingErrorKind) -> Seq<char> {
        match kind {
            InputForwardingErrorKind::InitializationFailed => "Initialization failed: "@,
            InputForwardingErrorKind::SendEventFailed => "Failed to send event: "@,
            InputForwardingErrorKind::UnsupportedEvent => "Unsupported event: "@,
            InputForwardingErrorKind::PermissionDenied => "Permission denied: "@,
            InputForwardingErrorKind::MonitorConfigError => "Monitor configuration error: "@,
        }
    }

    /// The kind of this error.
    pub fn error_kind(&self) -> (k: InputForwardingErrorKind)
        ensures
            k == self.kind(),
    {
        match self {
            InputForwardingError::InitializationFailed(_) => InputForwardingErrorKind::InitializationFailed,
            InputForwardingError::SendEventFailed(_) => InputForwardingErrorKind::SendEventFailed,
            InputForwardingError::UnsupportedEvent(_) => InputForwardingErrorKind::UnsupportedEvent,
            InputForwardingError::PermissionDenied(_) => InputForwardingErrorKind::PermissionDenied,
            InputForwardingError::MonitorConfigError(_) => InputForwardingErrorKind::MonitorConfigError,
        }
    }

    /// The human-readable message of the error: its label, then its
    /// description.
    pub fn message(&self) -> (s: String)
        ensures
            s@ == Self::label(self.kind()) + self.detail(),
    {
        match self {
            InputForwardingError::InitializationFailed(m) => concat("Initialization failed: ", m.as_str()),
            InputForwardingError::SendEventFailed(m) => concat("Failed to send event: ", m.as_str()),
            InputForwardingError::UnsupportedEvent(m) => concat("Unsupported event: ", m.as_str()),
            InputForwardingError::PermissionDenied(m) => concat("Permission denied: ", m.as_str()),
            InputForwardingError::MonitorConfigError(m) => concat("Monitor configuration error: ", m.as_str()),
        }
    }
}

/// Conversion of any displayable error into a forwarding error, with context.
pub trait InputForwardingErrorExt<T>: Sized {
    fn with_context<C>(self, context: C) -> (res: Result<T, InputForwardingError>) where
        C: FnOnce() -> String,

        requires
            context.requires(()),
    ;
}

impl<T, E: std::fmt::Display> InputForwardingErrorExt<T> for Result<T, E> {
    /// An `Ok` value passes through; an error becomes `SendEventFailed` whose
    /// description is the context's text, `": "` and the error's rendering.
    fn with_context<C>(self, context: C) -> (res: Result<T, InputForwardingError>) where
        C: FnOnce() -> String,
        ensures
            match self {
                Ok(v) => res == Ok::<T, InputForwardingError>(v),
                Err(e) => res matches Err(err) && err.kind() == InputForwardingErrorKind::SendEventFailed
                    && exists|c: String| context.ensures((), c) && with_context_text(c@, &e, err.detail()),
            },
    {
        match self {
            Ok(v) => Ok(v),
            Err(e) => {
                let c = context();
                let t = e.to_string();
                let head = concat(c.as_str(), ": ");
                let s = concat(head.as_str(), t.as_str());
                assert(s@ == c@ + ": "@ + t@);
                Err(InputForwardingError::SendEventFailed(s))
            },
        }
    }
}

} // verus!
