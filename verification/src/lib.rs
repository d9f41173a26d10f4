//! Verified core of a remote-desktop host: stream buffering, adaptive
//! quality control, capture configuration and encoder arguments, monitor
//! discovery parsing, clipboard text handling and input-event planning.
pub mod text;
pub mod screen_capture;
pub mod input_forwarding;
pub mod clipboard;
