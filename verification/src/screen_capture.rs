//! Screen capture: shared types, errors, configuration, the frame buffer,
//! the adaptive quality controller, encoder arguments and monitor discovery.
pub mod types;
pub mod error;
pub mod buffer;
pub mod config;
pub mod quality;
pub mod ffmpeg;
pub mod monitors;
pub mod utils;
pub mod manager;
pub mod capture;
