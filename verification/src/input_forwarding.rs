//! Input forwarding: the events a remote viewer sends, the errors of
//! forwarding them, monitor placement, and the X11 forwarder that turns each
//! event into the `xdotool` invocations that replay it.
pub mod types;
pub mod error;
pub mod utils;
pub mod x11;
pub mod factory;
