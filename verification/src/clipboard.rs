//! Clipboard synchronisation: entries and their history, change detection,
//! what a remote entry asks of the local clipboard, and the X11 and Wayland
//! clipboard tools: which invocations to make and what their output means.
pub mod error;
pub mod types;
pub mod tools;
pub mod x11_clipboard;
pub mod wayland_clipboard;
pub mod history;
