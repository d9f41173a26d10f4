//! Common types of the screen capture system.
use vstd::prelude::*;

verus! {

/// Display server type
#[derive(Debug, Clone, Copy, PartialEq, Eq, Structural)]
pub enum DisplayServer {
    X11,
    Wayland,
    Unknown,
}

/// Video codec options
#[derive(Debug, Clone, Copy, PartialEq, Eq, Structural)]
pub enum VideoCodec {
    H264,
    VP8,
    VP9,
    AV1,
}

/// Hardware acceleration options
#[derive(Debug, Clone, Copy, PartialEq, Eq, Structural)]
pub enum HardwareAcceleration {
    /// Software encoding (no hardware acceleration)
    NoAcceleration,
    VAAPI,
    NVENC,
    QuickSync,
}

/// Latency optimization modes
#[derive(Debug, Clone, Copy, PartialEq, Eq, Structural)]
pub enum LatencyMode {
    /// Minimal latency, possibly at the expense of quality
    UltraLow,
    /// Balanced ratio between latency and quality
    Balanced,
    /// Higher quality, possibly at the expense of latency
    Quality,
}

/// Monitor information
#[derive(Debug)]
pub struct MonitorInfo {
    pub index: usize,
    pub name: String,
    pub width: u32,
    pub height: u32,
    /// Refresh rate in Hz, as the decimal number the display server
    /// reported (a text that `str::parse::<f64>` accepts), if known
    pub refresh_rate: Option<String>,
    pub primary: bool,
    pub x_offset: i32,
    pub y_offset: i32,
}

/// What a [`MonitorInfo`] holds, with its texts as character sequences.
pub struct MonitorView {
    pub index: usize,
    pub name: Seq<char>,
    pub width: u32,
    pub height: u32,
    pub refresh_rate: Option<Seq<char>>,
    pub primary: bool,
    pub x_offset: i32,
    pub y_offset: i32,
}

pub open spec fn opt_text(o: Option<String>) -> Option<Seq<char>> {
    match o {
        Some(s) => Some(s@),
        None => None,
    }
}

impl View for MonitorInfo {
    type V = MonitorView;

    open spec fn view(&self) -> MonitorView {
        MonitorView {
            index: self.index,
            name: self.name@,
            width: self.width,
            height: self.height,
            refresh_rate: opt_text(self.refresh_rate),
            primary: self.primary,
            x_offset: self.x_offset,
            y_offset: self.y_offset,
        }
    }
}

/// The views of a sequence of monitors.
pub open spec fn monitor_views(v: Seq<MonitorInfo>) -> Seq<MonitorView> {
    v.map_values(|m: MonitorInfo| m@)
}

/// Frame data containing a video frame and its metadata
#[derive(Debug, Clone)]
pub struct FrameData {
    pub data: Vec<u8>,
    pub timestamp: u64,
    pub keyframe: bool,
    pub width: u32,
    pub height: u32,
    /// Container or codec of the data, e.g. "h264", "matroska"
    pub format: String,
}

} // verus!
