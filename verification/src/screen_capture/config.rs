//! Capture configuration, its builder, and conversion from the legacy
//! configuration format.
use vstd::prelude::*;
use vstd::std_specs::convert::FromSpecImpl;
use crate::screen_capture::types::{VideoCodec, HardwareAcceleration, LatencyMode};
use crate::text::{owned, str_eq};

verus! {

/// Rate control modes for video encoding
#[derive(Debug, Clone, Copy, PartialEq, Eq, Structural)]
pub enum RateControlMode {
    /// Constant Rate Factor (quality-based)
    CRF(u32),
    /// Variable Bitrate
    VBR { target_bitrate: u32, max_bitrate: u32 },
    /// Constant Bitrate
    CBR(u32),
}

/// Advanced encoding options for FFmpeg
#[derive(Debug)]
pub struct AdvancedEncodingOptions {
    /// Pixel format (e.g., "yuv420p")
    pub pixel_format: String,
    /// Preset for x264/x265 encoders (e.g., "ultrafast", "medium", "slow")
    pub preset: Option<String>,
    /// Tune parameter for x264/x265 encoders (e.g., "zerolatency", "film")
    pub tune: Option<String>,
    /// Profile for encoders (e.g., "baseline", "main", "high")
    pub profile: Option<String>,
    /// Rate control mode (e.g., "crf", "vbr", "cbr")
    pub rate_control: RateControlMode,
    /// Additional FFmpeg parameters as key-value pairs
    pub extra_params: Vec<(String, String)>,
}

/// Screen capture configuration
#[derive(Debug)]
pub struct ScreenCaptureConfig {
    /// Index of the monitor to capture
    pub monitor_index: usize,
    /// Target frames per second
    pub fps: u32,
    /// Quality setting (0-100)
    pub quality: u32,
    /// Video codec to use
    pub codec: VideoCodec,
    /// Hardware acceleration method
    pub hardware_acceleration: HardwareAcceleration,
    /// Whether to capture the cursor
    pub capture_cursor: bool,
    /// Whether to capture audio
    pub capture_audio: bool,
    /// Keyframe interval for better compression
    pub keyframe_interval: u32,
    /// Optional bitrate in Kbps (overrides quality-based bitrate estimation)
    pub bitrate: Option<u32>,
    /// Latency optimization mode
    pub latency_mode: LatencyMode,
    /// Advanced FFmpeg options (optional)
    pub advanced_options: Option<AdvancedEncodingOptions>,
}

/// The settings of the default configuration, apart from its advanced
/// options, which it does not have.
pub open spec fn is_default_config(c: ScreenCaptureConfig) -> bool {
    &&& c.monitor_index == 0
    &&& c.fps == 30
    &&& c.quality == 80
    &&& c.codec == VideoCodec::H264
    &&& c.hardware_acceleration == HardwareAcceleration::NoAcceleration
    &&& c.capture_cursor
    &&& !c.capture_audio
    &&& c.keyframe_interval == 30
    &&& c.bitrate is None
    &&& c.latency_mode == LatencyMode::Balanced
    &&& c.advanced_options is None
}

impl Default for ScreenCaptureConfig {
    fn default() -> (c: Self)
        ensures
            is_default_config(c),
    {
        ScreenCaptureConfig {
            monitor_index: 0,
            fps: 30,
            quality: 80,
            codec: VideoCodec::H264,
            hardware_acceleration: HardwareAcceleration::NoAcceleration,
            capture_cursor: true,
            capture_audio: false,
            keyframe_interval: 30,  // One keyframe per second at 30 FPS
            bitrate: None,  // Auto bitrate based on quality
            latency_mode: LatencyMode::Balanced,
            advanced_options: None,
        }
    }
}

pub open spec fn opt_text_is(o: Option<String>, text: Seq<char>) -> bool {
    o matches Some(s) && s@ == text
}

impl Default for AdvancedEncodingOptions {
    fn default() -> (o: Self)
        ensures
            o.pixel_format@ == "yuv420p"@,
            opt_text_is(o.preset, "ultrafast"@),
            opt_text_is(o.tune, "zerolatency"@),
            opt_text_is(o.profile, "baseline"@),
            o.rate_control == RateControlMode::CRF(23),
            o.extra_params@.len() == 0,
    {
        AdvancedEncodingOptions {
            pixel_format: owned("yuv420p"),
            preset: Some(owned("ultrafast")),
            tune: Some(owned("zerolatency")),
            profile: Some(owned("baseline")),
            rate_control: RateControlMode::CRF(23),
            extra_params: Vec::new(),
        }
    }
}

/// Builder pattern for ScreenCaptureConfig
pub struct ScreenCaptureConfigBuilder {
    config: ScreenCaptureConfig,
}

impl ScreenCaptureConfigBuilder {
    /// The configuration built so far.
    pub closed spec fn current(self) -> ScreenCaptureConfig {
        self.config
    }

    /// A builder that starts from the default configuration.
    pub fn new() -> (b: Self)
        ensures
            is_default_config(b.current()),
    {
        ScreenCaptureConfigBuilder { config: ScreenCaptureConfig::default() }
    }

    pub fn monitor_index(self, index: usize) -> (b: Self)
        ensures
            b.current() == (ScreenCaptureConfig { monitor_index: index, ..self.current() }),
    {
        let mut b = self;
        b.config.monitor_index = index;
        b
    }

    pub fn fps(self, fps: u32) -> (b: Self)
        ensures
            b.current() == (ScreenCaptureConfig { fps, ..self.current() }),
    {
        let mut b = self;
        b.config.fps = fps;
        b
    }

    /// Sets the quality, brought into the range 1 to 100.
    pub fn quality(self, quality: u32) -> (b: Self)
        ensures
            b.current() == (ScreenCaptureConfig {
                quality: if quality > 100 {
                    100
                } else if quality < 1 {
                    1
                } else {
                    quality
                },
                ..self.current()
            }),
    {
        let q = if quality > 100 {
            100
        } else {
            quality
        };
        let q = if q < 1 {
            1
        } else {
            q
        };
        let mut b = self;
        b.config.quality = q;
        b
    }

    pub fn codec(self, codec: VideoCodec) -> (b: Self)
        ensures
            b.current() == (ScreenCaptureConfig { codec, ..self.current() }),
    {
        let mut b = self;
        b.config.codec = codec;
        b
    }

    pub fn hardware_acceleration(self, accel: HardwareAcceleration) -> (b: Self)
        ensures
            b.current() == (ScreenCaptureConfig { hardware_acceleration: accel, ..self.current() }),
    {
        let mut b = self;
        b.config.hardware_acceleration = accel;
        b
    }

    pub fn capture_cursor(self, capture: bool) -> (b: Self)
        ensures
            b.current() == (ScreenCaptureConfig { capture_cursor: capture, ..self.current() }),
    {
        let mut b = self;
        b.config.capture_cursor = capture;
        b
    }

    pub fn capture_audio(self, capture: bool) -> (b: Self)
        ensures
            b.current() == (ScreenCaptureConfig { capture_audio: capture, ..self.current() }),
    {
        let mut b = self;
        b.config.capture_audio = capture;
        b
    }

    pub fn keyframe_interval(self, interval: u32) -> (b: Self)
        ensures
            b.current() == (ScreenCaptureConfig { keyframe_interval: interval, ..self.current() }),
    {
        let mut b = self;
        b.config.keyframe_interval = interval;
        b
    }

    pub fn bitrate(self, bitrate: Option<u32>) -> (b: Self)
        ensures
            b.current() == (ScreenCaptureConfig { bitrate, ..self.current() }),
    {
        let mut b = self;
        b.config.bitrate = bitrate;
        b
    }

    pub fn latency_mode(self, mode: LatencyMode) -> (b: Self)
        ensures
            b.current() == (ScreenCaptureConfig { latency_mode: mode, ..self.current() }),
    {
        let mut b = self;
        b.config.latency_mode = mode;
        b
    }

    pub fn advanced_options(self, options: AdvancedEncodingOptions) -> (b: Self)
        ensures
            b.current() == (ScreenCaptureConfig { advanced_options: Some(options), ..self.current() }),
    {
        let mut b = self;
        b.config.advanced_options = Some(options);
        b
    }

    /// The configuration built.
    pub fn build(self) -> (c: ScreenCaptureConfig)
        ensures
            c == self.current(),
    {
        self.config
    }
}

/// Configuration in the format of earlier releases, where codec and
/// acceleration are named by strings.
#[derive(Debug)]
pub struct LegacyScreenCaptureConfig {
    pub fps: u32,
    pub quality: u8,
    pub codec: String,
    pub hardware_acceleration: String,
    pub capture_cursor: bool,
    pub capture_audio: bool,
    pub monitor_index: usize,
}

/// The codec a legacy codec name selects; unknown names select H.264.
pub open spec fn codec_from_name(name: Seq<char>) -> VideoCodec {
    if name == "VP8"@ {
        VideoCodec::VP8
    } else if name == "VP9"@ {
        VideoCodec::VP9
    } else if name == "AV1"@ {
        VideoCodec::AV1
    } else {
        VideoCodec::H264
    }
}

/// The acceleration a legacy name selects; unknown names select none.
pub open spec fn acceleration_from_name(name: Seq<char>) -> HardwareAcceleration {
    if name == "VAAPI"@ {
        HardwareAcceleration::VAAPI
    } else if name == "NVENC"@ {
        HardwareAcceleration::NVENC
    } else if name == "QuickSync"@ {
        HardwareAcceleration::QuickSync
    } else {
        HardwareAcceleration::NoAcceleration
    }
}

fn codec_named(name: &str) -> (c: VideoCodec)
    ensures
        c == codec_from_name(name@),
{
    if str_eq(name, "VP8") {
        VideoCodec::VP8
    } else if str_eq(name, "VP9") {
        VideoCodec::VP9
    } else if str_eq(name, "AV1") {
        VideoCodec::AV1
    } else {
        VideoCodec::H264
    }
}

fn acceleration_named(name: &str) -> (a: HardwareAcceleration)
    ensures
        a == acceleration_from_name(name@),
{
    if str_eq(name, "VAAPI") {
        HardwareAcceleration::VAAPI
    } else if str_eq(name, "NVENC") {
        HardwareAcceleration::NVENC
    } else if str_eq(name, "QuickSync") {
        HardwareAcceleration::QuickSync
    } else {
        HardwareAcceleration::NoAcceleration
    }
}

impl From<LegacyScreenCaptureConfig> for ScreenCaptureConfig {
    fn from(legacy: LegacyScreenCaptureConfig) -> (c: Self) {
        let codec = codec_named(legacy.codec.as_str());
        let hardware_acceleration = acceleration_named(legacy.hardware_acceleration.as_str());
        ScreenCaptureConfig {
            monitor_index: legacy.monitor_index,
            fps: legacy.fps,
            quality: legacy.quality as u32,
            codec,
            hardware_acceleration,
            capture_cursor: legacy.capture_cursor,
            capture_audio: legacy.capture_audio,
            keyframe_interval: 30,
            bitrate: None,
            latency_mode: LatencyMode::Balanced,
            advanced_options: None,
        }
    }
}

impl FromSpecImpl<LegacyScreenCaptureConfig> for ScreenCaptureConfig {
    open spec fn obeys_from_spec() -> bool {
        true
    }

    open spec fn from_spec(legacy: LegacyScreenCaptureConfig) -> ScreenCaptureConfig {
        ScreenCaptureConfig {
            monitor_index: legacy.monitor_index,
            fps: legacy.fps,
            quality: legacy.quality as u32,
            codec: codec_from_name(legacy.codec@),
            hardware_acceleration: acceleration_from_name(legacy.hardware_acceleration@),
            capture_cursor: legacy.capture_cursor,
            capture_audio: legacy.capture_audio,
            keyframe_interval: 30,
            bitrate: None,
            latency_mode: LatencyMode::Balanced,
            advanced_options: None,
        }
    }
}

} // verus!
