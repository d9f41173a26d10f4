//! Errors of the screen capture system and helpers that build them with
//! context.
use vstd::prelude::*;
use vstd::string::to_string_from_display_ensures;
use crate::text::concat;

verus! {

/// What kind of failure a [`ScreenCaptureError`] reports.
#[derive(Debug, Clone, Copy, PartialEq, Eq, Structural)]
pub enum ScreenCaptureErrorKind {
    InitializationFailed,
    CaptureError,
    EncodingError,
    DisplayServerError,
    InvalidMonitor,
    StreamBufferError,
    HardwareAccelerationError,
    FFmpegError,
    PipeWireError,
}

/// Error types for screen capture operations; each carries a description.
#[derive(Debug)]
pub enum ScreenCaptureError {
    /// Initialization of the capture system failed
    InitializationFailed(String),
    /// Error during capture process
    CaptureError(String),
    /// Error during video encoding
    EncodingError(String),
    /// Error related to display server detection or interaction
    DisplayServerError(String),
    /// Error when trying to capture from an invalid monitor
    InvalidMonitor(String),
    /// Error related to stream buffer operations
    StreamBufferError(String),
    /// Error with hardware acceleration
    HardwareAccelerationError(String),
    /// Error with FFmpeg process
    FFmpegError(String),
    /// Error with PipeWire process (Wayland)
    PipeWireError(String),
}

impl ScreenCaptureError {
    pub open spec fn kind(&self) -> ScreenCaptureErrorKind {
        match self {
            ScreenCaptureError::InitializationFailed(_) => ScreenCaptureErrorKind::InitializationFailed,
            ScreenCaptureError::CaptureError(_) => ScreenCaptureErrorKind::CaptureError,
            ScreenCaptureError::EncodingError(_) => ScreenCaptureErrorKind::EncodingError,
            ScreenCaptureError::DisplayServerError(_) => ScreenCaptureErrorKind::DisplayServerError,
            ScreenCaptureError::InvalidMonitor(_) => ScreenCaptureErrorKind::InvalidMonitor,
            ScreenCaptureError::StreamBufferError(_) => ScreenCaptureErrorKind::StreamBufferError,
            ScreenCaptureError::HardwareAccelerationError(_) => ScreenCaptureErrorKind::HardwareAccelerationError,
            ScreenCaptureError::FFmpegError(_) => ScreenCaptureErrorKind::FFmpegError,
            ScreenCaptureError::PipeWireError(_) => ScreenCaptureErrorKind::PipeWireError,
        }
    }

    /// The description the error carries.
    pub open spec fn detail(&self) -> Seq<char> {
        match self {
            ScreenCaptureError::InitializationFailed(m) => m@,
            ScreenCaptureError::CaptureError(m) => m@,
            ScreenCaptureError::EncodingError(m) => m@,
            ScreenCaptureError::DisplayServerError(m) => m@,
            ScreenCaptureError::InvalidMonitor(m) => m@,
            ScreenCaptureError::StreamBufferError(m) => m@,
            ScreenCaptureError::HardwareAccelerationError(m) => m@,
            ScreenCaptureError::FFmpegError(m) => m@,
            ScreenCaptureError::PipeWireError(m) => m@,
        }
    }

    /// The prefix that the error's message puts before its description.
    pub open spec fn label(kind: ScreenCaptureErrorKind) -> Seq<char> {
        match kind {
            ScreenCaptureErrorKind::InitializationFailed => "Initialization failed: "@,
            ScreenCaptureErrorKind::CaptureError => "Capture error: "@,
            ScreenCaptureErrorKind::EncodingError => "Encoding error: "@,
            ScreenCaptureErrorKind::DisplayServerError => "Display server error: "@,
            ScreenCaptureErrorKind::InvalidMonitor => "Invalid monitor: "@,
            ScreenCaptureErrorKind::StreamBufferError => "Stream buffer error: "@,
            ScreenCaptureErrorKind::HardwareAccelerationError => "Hardware acceleration error: "@,
            ScreenCaptureErrorKind::FFmpegError => "FFmpeg error: "@,
            ScreenCaptureErrorKind::PipeWireError => "PipeWire error: "@,
        }
    }

    /// The kind of this error.
    pub fn error_kind(&self) -> (k: ScreenCaptureErrorKind)
        ensures
            k == self.kind(),
    {
        match self {
            ScreenCaptureError::InitializationFailed(_) => ScreenCaptureErrorKind::InitializationFailed,
            ScreenCaptureError::CaptureError(_) => ScreenCaptureErrorKind::CaptureError,
            ScreenCaptureError::EncodingError(_) => ScreenCaptureErrorKind::EncodingError,
            ScreenCaptureError::DisplayServerError(_) => ScreenCaptureErrorKind::DisplayServerError,
            ScreenCaptureError::InvalidMonitor(_) => ScreenCaptureErrorKind::InvalidMonitor,
            ScreenCaptureError::StreamBufferError(_) => ScreenCaptureErrorKind::StreamBufferError,
            ScreenCaptureError::HardwareAccelerationError(_) => ScreenCaptureErrorKind::HardwareAccelerationError,
            ScreenCaptureError::FFmpegError(_) => ScreenCaptureErrorKind::FFmpegError,
            ScreenCaptureError::PipeWireError(_) => ScreenCaptureErrorKind::PipeWireError,
        }
    }

    /// The human-readable message of the error: its label, then its
    /// description.
    pub fn message(&self) -> (s: String)
        ensures
            s@ == Self::label(self.kind()) + self.detail(),
    {
        match self {
            ScreenCaptureError::InitializationFailed(m) => concat("Initialization failed: ", m.as_str()),
            ScreenCaptureError::CaptureError(m) => concat("Capture error: ", m.as_str()),
            ScreenCaptureError::EncodingError(m) => concat("Encoding error: ", m.as_str()),
            ScreenCaptureError::DisplayServerError(m) => concat("Display server error: ", m.as_str()),
            ScreenCaptureError::InvalidMonitor(m) => concat("Invalid monitor: ", m.as_str()),
            ScreenCaptureError::StreamBufferError(m) => concat("Stream buffer error: ", m.as_str()),
            ScreenCaptureError::HardwareAccelerationError(m) => concat("Hardware acceleration error: ", m.as_str()),
            ScreenCaptureError::FFmpegError(m) => concat("FFmpeg error: ", m.as_str()),
            ScreenCaptureError::PipeWireError(m) => concat("PipeWire error: ", m.as_str()),
        }
    }
}

/// `context: rendering` where `rendering` is what `Display` writes for `e`.
pub open spec fn with_context_text<E: std::fmt::Display>(context: Seq<char>, e: &E, text: Seq<char>) -> bool {
    exists|t: String| to_string_from_display_ensures::<E>(e, t) && text == context + ": "@ + t@
}

fn context_text<E: std::fmt::Display>(e: &E, context: &str) -> (s: String)
    ensures
        with_context_text(context@, e, s@),
{
    let t = e.to_string();
    let head = concat(context, ": ");
    let s = concat(head.as_str(), t.as_str());
    assert(s@ == context@ + ": "@ + t@);
    s
}

/// Conversion of any displayable error into a capture error, with context.
pub trait ScreenCaptureErrorExt<T>: Sized {
    fn with_context<C>(self, context: C) -> (res: Result<T, ScreenCaptureError>) where
        C: FnOnce() -> String,

        requires
            context.requires(()),
    ;
}

impl<T, E: std::fmt::Display> ScreenCaptureErrorExt<T> for Result<T, E> {
    /// An `Ok` value passes through; an error becomes a `CaptureError` whose
    /// description is the context's text, `": "` and the error's rendering.
    fn with_context<C>(self, context: C) -> (res: Result<T, ScreenCaptureError>) where
        C: FnOnce() -> String,
        ensures
            match self {
                Ok(v) => res == Ok::<T, ScreenCaptureError>(v),
                Err(e) => res matches Err(err) && err.kind() == ScreenCaptureErrorKind::CaptureError
                    && exists|c: String| context.ensures((), c) && with_context_text(c@, &e, err.detail()),
            },
    {
        match self {
            Ok(v) => Ok(v),
            Err(e) => {
                let c = context();
                Err(ScreenCaptureError::CaptureError(context_text(&e, c.as_str())))
            },
        }
    }
}

/// An initialization error: `InitializationFailed("context: e")`.
pub fn to_init_error<E: std::fmt::Display>(e: E, context: &str) -> (err: ScreenCaptureError)
    ensures
        err.kind() == ScreenCaptureErrorKind::InitializationFailed,
        with_context_text(context@, &e, err.detail()),
{
    ScreenCaptureError::InitializationFailed(context_text(&e, context))
}

/// A capture error: `CaptureError("context: e")`.
pub fn to_capture_error<E: std::fmt::Display>(e: E, context: &str) -> (err: ScreenCaptureError)
    ensures
        err.kind() == ScreenCaptureErrorKind::CaptureError,
        with_context_text(context@, &e, err.detail()),
{
    ScreenCaptureError::CaptureError(context_text(&e, context))
}

/// An encoding error: `EncodingError("context: e")`.
pub fn to_encoding_error<E: std::fmt::Display>(e: E, context: &str) -> (err: ScreenCaptureError)
    ensures
        err.kind() == ScreenCaptureErrorKind::EncodingError,
        with_context_text(context@, &e, err.detail()),
{
    ScreenCaptureError::EncodingError(context_text(&e, context))
}

/// An FFmpeg error: `FFmpegError("context: e")`.
pub fn to_ffmpeg_error<E: std::fmt::Display>(e: E, context: &str) -> (err: ScreenCaptureError)
    ensures
        err.kind() == ScreenCaptureErrorKind::FFmpegError,
        with_context_text(context@, &e, err.detail()),
{
    ScreenCaptureError::FFmpegError(context_text(&e, context))
}

} // verus!
