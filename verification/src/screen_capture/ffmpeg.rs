//! Encoder command lines for X11 and PipeWire capture, and the splitting of
//! the encoder's output stream into frames.
use vstd::prelude::*;
use crate::screen_capture::config::ScreenCaptureConfig;
use crate::screen_capture::quality::{AdaptiveQualityController, params_defined, encoder_params};
use crate::screen_capture::types::{HardwareAcceleration, LatencyMode, MonitorInfo, VideoCodec};
use crate::text::{decimal, decimal_signed, string_views, owned, u64_to_decimal, i64_to_decimal, concat, str_eq};

verus! {

/// Arguments that select hardware acceleration and the video encoder.
pub open spec fn encoder_selection(accel: HardwareAcceleration, codec: VideoCodec) -> Seq<Seq<char>> {
    match accel {
        HardwareAcceleration::VAAPI => seq![
            "-hwaccel"@,
            "vaapi"@,
            "-hwaccel_device"@,
            "/dev/dri/renderD128"@,
            "-hwaccel_output_format"@,
            "vaapi"@,
        ] + match codec {
            VideoCodec::H264 => seq!["-c:v"@, "h264_vaapi"@, "-qp"@, "23"@, "-quality"@, "speed"@],
            VideoCodec::VP8 => seq!["-c:v"@, "vp8_vaapi"@],
            VideoCodec::VP9 => seq!["-c:v"@, "vp9_vaapi"@],
            VideoCodec::AV1 => seq!["-c:v"@, "libaom-av1"@],
        },
        HardwareAcceleration::NVENC => seq!["-hwaccel"@, "cuda"@, "-hwaccel_output_format"@, "cuda"@]
            + match codec {
            VideoCodec::H264 => seq!["-c:v"@, "h264_nvenc"@, "-preset"@, "llhp"@, "-zerolatency"@, "1"@],
            VideoCodec::VP8 => seq!["-c:v"@, "libvpx"@],
            VideoCodec::VP9 => seq!["-c:v"@, "libvpx-vp9"@],
            VideoCodec::AV1 => seq!["-c:v"@, "av1_nvenc"@],
        },
        HardwareAcceleration::QuickSync => seq!["-hwaccel"@, "qsv"@, "-hwaccel_output_format"@, "qsv"@]
            + match codec {
            VideoCodec::H264 => seq!["-c:v"@, "h264_qsv"@, "-preset"@, "veryfast"@, "-low_power"@, "1"@],
            VideoCodec::VP8 => seq!["-c:v"@, "libvpx"@],
            VideoCodec::VP9 => seq!["-c:v"@, "libvpx-vp9"@],
            VideoCodec::AV1 => seq!["-c:v"@, "libaom-av1"@],
        },
        HardwareAcceleration::NoAcceleration => match codec {
            VideoCodec::H264 => seq!["-c:v"@, "libx264"@, "-preset"@, "ultrafast"@, "-tune"@, "zerolatency"@],
            VideoCodec::VP8 => seq!["-c:v"@, "libvpx"@, "-deadline"@, "realtime"@, "-cpu-used"@, "8"@],
            VideoCodec::VP9 => seq!["-c:v"@, "libvpx-vp9"@, "-deadline"@, "realtime"@, "-cpu-used"@, "8"@],
            VideoCodec::AV1 => seq!["-c:v"@, "libaom-av1"@, "-cpu-used"@, "8"@],
        },
    }
}

/// The tail shared by both capture command lines: the quality parameters,
/// the keyframe interval, and Matroska output on standard output.
pub open spec fn output_args(quality_params: Seq<Seq<char>>, keyframe_interval: u32) -> Seq<Seq<char>> {
    quality_params + seq!["-g"@, decimal(keyframe_interval as nat), "-f"@, "matroska"@, "-movflags"@, "faststart"@, "-"@]
}

/// FFmpeg arguments for capturing an X11 monitor.
pub open spec fn x11_args(
    config: ScreenCaptureConfig,
    width: u32,
    height: u32,
    x: i32,
    y: i32,
    quality_params: Seq<Seq<char>>,
) -> Seq<Seq<char>> {
    seq![
        "-f"@,
        "x11grab"@,
        "-video_size"@,
        decimal(width as nat) + "x"@ + decimal(height as nat),
        "-i"@,
        ":0.0+"@ + decimal_signed(x as int) + ","@ + decimal_signed(y as int),
        "-framerate"@,
        decimal(config.fps as nat),
        "-draw_mouse"@,
        if config.capture_cursor {
            "1"@
        } else {
            "0"@
        },
    ] + encoder_selection(config.hardware_acceleration, config.codec) + output_args(
        quality_params,
        config.keyframe_interval,
    )
}

/// FFmpeg arguments for capturing a Wayland monitor through PipeWire; the
/// generic "Wayland-0" monitor is captured as the default screen.
pub open spec fn pipewire_args(
    config: ScreenCaptureConfig,
    monitor_name: Seq<char>,
    monitor_index: usize,
    quality_params: Seq<Seq<char>>,
) -> Seq<Seq<char>> {
    seq![
        "-f"@,
        "pipewire"@,
        "-framerate"@,
        decimal(config.fps as nat),
        "-i"@,
        if monitor_name != "Wayland-0"@ {
            "pipewire:"@ + decimal(monitor_index as nat)
        } else {
            "0"@
        },
    ] + encoder_selection(config.hardware_acceleration, config.codec) + output_args(
        quality_params,
        config.keyframe_interval,
    )
}

fn push_text(v: &mut Vec<String>, s: &str)
    ensures
        string_views(final(v)@) == string_views(old(v)@).push(s@),
{
    let t = owned(s);
    v.push(t);
    assert(string_views(v@) =~= string_views(old(v)@).push(s@));
}

fn push_string(v: &mut Vec<String>, s: String)
    ensures
        string_views(final(v)@) == string_views(old(v)@).push(s@),
{
    let ghost t = s@;
    v.push(s);
    assert(string_views(v@) =~= string_views(old(v)@).push(t));
}

fn append_strings(v: &mut Vec<String>, extra: Vec<String>)
    ensures
        string_views(final(v)@) == string_views(old(v)@) + string_views(extra@),
{
    let mut e = extra;
    v.append(&mut e);
    assert(string_views(v@) =~= string_views(old(v)@) + string_views(extra@));
}

/// Appends the hardware-acceleration and encoder arguments.
fn push_encoder_selection(v: &mut Vec<String>, accel: HardwareAcceleration, codec: VideoCodec)
    ensures
        string_views(final(v)@) == string_views(old(v)@) + encoder_selection(accel, codec),
{
    let ghost start = string_views(v@);
    match accel {
        HardwareAcceleration::VAAPI => {
            push_text(v, "-hwaccel");
            push_text(v, "vaapi");
            push_text(v, "-hwaccel_device");
            push_text(v, "/dev/dri/renderD128");
            push_text(v, "-hwaccel_output_format");
            push_text(v, "vaapi");
            match codec {
                VideoCodec::H264 => {
                    push_text(v, "-c:v");
                    push_text(v, "h264_vaapi");
                    push_text(v, "-qp");
                    push_text(v, "23");
                    push_text(v, "-quality");
                    push_text(v, "speed");
                },
                VideoCodec::VP8 => {
                    push_text(v, "-c:v");
                    push_text(v, "vp8_vaapi");
                },
                VideoCodec::VP9 => {
                    push_text(v, "-c:v");
                    push_text(v, "vp9_vaapi");
                },
                VideoCodec::AV1 => {
                    push_text(v, "-c:v");
                    push_text(v, "libaom-av1");
                },
            }
        },
        HardwareAcceleration::NVENC => {
            push_text(v, "-hwaccel");
            push_text(v, "cuda");
            push_text(v, "-hwaccel_output_format");
            push_text(v, "cuda");
            match codec {
                VideoCodec::H264 => {
                    push_text(v, "-c:v");
                    push_text(v, "h264_nvenc");
                    push_text(v, "-preset");
                    push_text(v, "llhp");
                    push_text(v, "-zerolatency");
                    push_text(v, "1");
                },
                VideoCodec::VP8 => {
                    push_text(v, "-c:v");
                    push_text(v, "libvpx");
                },
                VideoCodec::VP9 => {
                    push_text(v, "-c:v");
                    push_text(v, "libvpx-vp9");
                },
                VideoCodec::AV1 => {
                    push_text(v, "-c:v");
                    push_text(v, "av1_nvenc");
                },
            }
        },
        HardwareAcceleration::QuickSync => {
            push_text(v, "-hwaccel");
            push_text(v, "qsv");
            push_text(v, "-hwaccel_output_format");
            push_text(v, "qsv");
            match codec {
                VideoCodec::H264 => {
                    push_text(v, "-c:v");
                    push_text(v, "h264_qsv");
                    push_text(v, "-preset");
                    push_text(v, "veryfast");
                    push_text(v, "-low_power");
                    push_text(v, "1");
                },
                VideoCodec::VP8 => {
                    push_text(v, "-c:v");
                    push_text(v, "libvpx");
                },
                VideoCodec::VP9 => {
                    push_text(v, "-c:v");
                    push_text(v, "libvpx-vp9");
                },
                VideoCodec::AV1 => {
                    push_text(v, "-c:v");
                    push_text(v, "libaom-av1");
                },
            }
        },
        HardwareAcceleration::NoAcceleration => {
            match codec {
                VideoCodec::H264 => {
                    push_text(v, "-c:v");
                    push_text(v, "libx264");
                    push_text(v, "-preset");
                    push_text(v, "ultrafast");
                    push_text(v, "-tune");
                    push_text(v, "zerolatency");
                },
                VideoCodec::VP8 => {
                    push_text(v, "-c:v");
                    push_text(v, "libvpx");
                    push_text(v, "-deadline");
                    push_text(v, "realtime");
                    push_text(v, "-cpu-used");
                    push_text(v, "8");
                },
                VideoCodec::VP9 => {
                    push_text(v, "-c:v");
                    push_text(v, "libvpx-vp9");
                    push_text(v, "-deadline");
                    push_text(v, "realtime");
                    push_text(v, "-cpu-used");
                    push_text(v, "8");
                },
                VideoCodec::AV1 => {
                    push_text(v, "-c:v");
                    push_text(v, "libaom-av1");
                    push_text(v, "-cpu-used");
                    push_text(v, "8");
                },
            }
        },
    }
    assert(string_views(v@) =~= start + encoder_selection(accel, codec));
}

/// Appends the quality parameters, keyframe interval and output arguments.
fn push_output_args(v: &mut Vec<String>, quality_params: Vec<String>, keyframe_interval: u32)
    ensures
        string_views(final(v)@) == string_views(old(v)@) + output_args(
            string_views(quality_params@),
            keyframe_interval,
        ),
{
    let ghost start = string_views(v@);
    append_strings(v, quality_params);
    push_text(v, "-g");
    push_string(v, u64_to_decimal(keyframe_interval as u64));
    push_text(v, "-f");
    push_text(v, "matroska");
    push_text(v, "-movflags");
    push_text(v, "faststart");
    push_text(v, "-");
    assert(string_views(v@) =~= start + output_args(string_views(quality_params@), keyframe_interval));
}

/// FFmpeg arguments for capturing the X11 monitor `monitor` with `config`,
/// the quality parameters coming from `quality`.
pub fn x11_capture_args(
    config: &ScreenCaptureConfig,
    monitor: &MonitorInfo,
    quality: &AdaptiveQualityController,
) -> (args: Vec<String>)
    requires
        params_defined(config.codec, quality.quality(), quality.target_latency()),
    ensures
        string_views(args@) == x11_args(
            *config,
            monitor.width,
            monitor.height,
            monitor.x_offset,
            monitor.y_offset,
            encoder_params(
                config.codec,
                quality.quality(),
                quality.measured_latency(),
                quality.target_latency(),
                config.bitrate,
                config.keyframe_interval,
            ),
        ),
{
    let mut args: Vec<String> = Vec::new();
    push_text(&mut args, "-f");
    push_text(&mut args, "x11grab");
    push_text(&mut args, "-video_size");
    let w = u64_to_decimal(monitor.width as u64);
    let h = u64_to_decimal(monitor.height as u64);
    let wx = concat(w.as_str(), "x");
    push_string(&mut args, concat(wx.as_str(), h.as_str()));
    push_text(&mut args, "-i");
    let x = i64_to_decimal(monitor.x_offset as i64);
    let y = i64_to_decimal(monitor.y_offset as i64);
    let p1 = concat(":0.0+", x.as_str());
    let p2 = concat(p1.as_str(), ",");
    push_string(&mut args, concat(p2.as_str(), y.as_str()));
    push_text(&mut args, "-framerate");
    push_string(&mut args, u64_to_decimal(config.fps as u64));
    push_text(&mut args, "-draw_mouse");
    push_text(&mut args, if config.capture_cursor { "1" } else { "0" });
    let ghost head = string_views(args@);
    push_encoder_selection(&mut args, config.hardware_acceleration, config.codec);
    let params = quality.generate_ffmpeg_params(config);
    push_output_args(&mut args, params, config.keyframe_interval);
    assert(string_views(args@) =~= x11_args(
        *config,
        monitor.width,
        monitor.height,
        monitor.x_offset,
        monitor.y_offset,
        encoder_params(
            config.codec,
            quality.quality(),
            quality.measured_latency(),
            quality.target_latency(),
            config.bitrate,
            config.keyframe_interval,
        ),
    ));
    args
}

/// FFmpeg arguments for capturing the Wayland monitor `monitor` through
/// PipeWire with `config`, the quality parameters coming from `quality`.
pub fn pipewire_capture_args(
    config: &ScreenCaptureConfig,
    monitor: &MonitorInfo,
    quality: &AdaptiveQualityController,
) -> (args: Vec<String>)
    requires
        params_defined(config.codec, quality.quality(), quality.target_latency()),
    ensures
        string_views(args@) == pipewire_args(
            *config,
            monitor.name@,
            monitor.index,
            encoder_params(
                config.codec,
                quality.quality(),
                quality.measured_latency(),
                quality.target_latency(),
                config.bitrate,
                config.keyframe_interval,
            ),
        ),
{
    let mut args: Vec<String> = Vec::new();
    push_text(&mut args, "-f");
    push_text(&mut args, "pipewire");
    push_text(&mut args, "-framerate");
    push_string(&mut args, u64_to_decimal(config.fps as u64));
    push_text(&mut args, "-i");
    if !str_eq(monitor.name.as_str(), "Wayland-0") {
        let idx = u64_to_decimal(monitor.index as u64);
        push_string(&mut args, concat("pipewire:", idx.as_str()));
    } else {
        push_text(&mut args, "0");
    }
    push_encoder_selection(&mut args, config.hardware_acceleration, config.codec);
    let params = quality.generate_ffmpeg_params(config);
    push_output_args(&mut args, params, config.keyframe_interval);
    assert(string_views(args@) =~= pipewire_args(
        *config,
        monitor.name@,
        monitor.index,
        encoder_params(
            config.codec,
            quality.quality(),
            quality.measured_latency(),
            quality.target_latency(),
            config.bitrate,
            config.keyframe_interval,
        ),
    ));
    args
}

/// Low-latency options by latency mode: none when quality comes first.
pub open spec fn latency_args(mode: LatencyMode) -> Seq<Seq<char>> {
    match mode {
        LatencyMode::UltraLow => seq!["-tune"@, "zerolatency"@, "-probesize"@, "32"@, "-flush_packets"@, "1"@],
        LatencyMode::Balanced => seq!["-tune"@, "zerolatency"@],
        LatencyMode::Quality => Seq::empty(),
    }
}

/// FFmpeg arguments for capturing a Wayland monitor through PipeWire, with
/// the low-latency options of the configured latency mode before the output
/// arguments.
pub open spec fn pipewire_tuned_args(
    config: ScreenCaptureConfig,
    monitor_name: Seq<char>,
    monitor_index: usize,
    quality_params: Seq<Seq<char>>,
) -> Seq<Seq<char>> {
    seq![
        "-f"@,
        "pipewire"@,
        "-framerate"@,
        decimal(config.fps as nat),
        "-i"@,
        if monitor_name != "Wayland-0"@ {
            "pipewire:"@ + decimal(monitor_index as nat)
        } else {
            "0"@
        },
    ] + encoder_selection(config.hardware_acceleration, config.codec) + quality_params + seq![
        "-g"@,
        decimal(config.keyframe_interval as nat),
    ] + latency_args(config.latency_mode) + seq!["-f"@, "matroska"@, "-movflags"@, "faststart"@, "-"@]
}

/// FFmpeg arguments for capturing the Wayland monitor `monitor` through
/// PipeWire with `config`, tuned for its latency mode, the quality
/// parameters coming from `quality`.
pub fn pipewire_tuned_capture_args(
    config: &ScreenCaptureConfig,
    monitor: &MonitorInfo,
    quality: &AdaptiveQualityController,
) -> (args: Vec<String>)
    requires
        params_defined(config.codec, quality.quality(), quality.target_latency()),
    ensures
        string_views(args@) == pipewire_tuned_args(
            *config,
            monitor.name@,
            monitor.index,
            encoder_params(
                config.codec,
                quality.quality(),
                quality.measured_latency(),
                quality.target_latency(),
                config.bitrate,
                config.keyframe_interval,
            ),
        ),
{
    let mut args: Vec<String> = Vec::new();
    push_text(&mut args, "-f");
    push_text(&mut args, "pipewire");
    push_text(&mut args, "-framerate");
    push_string(&mut args, u64_to_decimal(config.fps as u64));
    push_text(&mut args, "-i");
    if !str_eq(monitor.name.as_str(), "Wayland-0") {
        let idx = u64_to_decimal(monitor.index as u64);
        push_string(&mut args, concat("pipewire:", idx.as_str()));
    } else {
        push_text(&mut args, "0");
    }
    push_encoder_selection(&mut args, config.hardware_acceleration, config.codec);
    let params = quality.generate_ffmpeg_params(config);
    append_strings(&mut args, params);
    push_text(&mut args, "-g");
    push_string(&mut args, u64_to_decimal(config.keyframe_interval as u64));
    match config.latency_mode {
        LatencyMode::UltraLow => {
            push_text(&mut args, "-tune");
            push_text(&mut args, "zerolatency");
            push_text(&mut args, "-probesize");
            push_text(&mut args, "32");
            push_text(&mut args, "-flush_packets");
            push_text(&mut args, "1");
        },
        LatencyMode::Balanced => {
            push_text(&mut args, "-tune");
            push_text(&mut args, "zerolatency");
        },
        LatencyMode::Quality => {},
    }
    push_text(&mut args, "-f");
    push_text(&mut args, "matroska");
    push_text(&mut args, "-movflags");
    push_text(&mut args, "faststart");
    push_text(&mut args, "-");
    assert(string_views(args@) =~= pipewire_tuned_args(
        *config,
        monitor.name@,
        monitor.index,
        encoder_params(
            config.codec,
            quality.quality(),
            quality.measured_latency(),
            quality.target_latency(),
            config.bitrate,
            config.keyframe_interval,
        ),
    ));
    args
}

// ---------------------------------------------------------------------------
// Splitting the encoder output into frames
// ---------------------------------------------------------------------------

/// A byte pair `0x87 0x00` at `i` is taken as the start of a new frame.
pub open spec fn is_frame_marker(buf: Seq<u8>, i: int) -> bool {
    buf[i] == 0x87 && buf[i + 1] == 0x00
}

/// How many positions of the pending data are scanned for markers: all but
/// the last four bytes.
pub open spec fn scan_len(len: nat) -> nat {
    if len >= 4 {
        (len - 4) as nat
    } else {
        0
    }
}

/// The frames found by scanning positions `[0, n)` of `buf`, and the start of
/// the data not yet part of a complete frame.
pub open spec fn frames_upto(buf: Seq<u8>, n: nat) -> (Seq<Seq<u8>>, nat)
    decreases n,
{
    if n == 0 {
        (Seq::empty(), 0)
    } else {
        let (frames, start) = frames_upto(buf, (n - 1) as nat);
        let i = (n - 1) as nat;
        if is_frame_marker(buf, i as int) && i > start {
            (frames.push(buf.subrange(start as int, i as int)), i)
        } else {
            (frames, start)
        }
    }
}

/// The complete frames in `buf`, and how many leading bytes they occupy.
pub open spec fn split_frames_spec(buf: Seq<u8>) -> (Seq<Seq<u8>>, nat) {
    frames_upto(buf, scan_len(buf.len()))
}

proof fn lemma_frames_upto_start(buf: Seq<u8>, n: nat)
    ensures
        frames_upto(buf, n).1 <= n,
        n > 0 ==> frames_upto(buf, n).1 < n,
    decreases n,
{
    if n > 0 {
        lemma_frames_upto_start(buf, (n - 1) as nat);
    }
}

/// The bytes the complete frames occupy lie within the data.
pub proof fn lemma_split_used(buf: Seq<u8>)
    ensures
        split_frames_spec(buf).1 <= buf.len(),
{
    lemma_frames_upto_start(buf, scan_len(buf.len()));
}

fn copy_range(buf: &Vec<u8>, start: usize, end: usize) -> (v: Vec<u8>)
    requires
        start <= end <= buf@.len(),
    ensures
        v@ == buf@.subrange(start as int, end as int),
{
    let mut v: Vec<u8> = Vec::new();
    let mut i = start;
    while i < end
        invariant
            start <= i <= end <= buf@.len(),
            v@ == buf@.subrange(start as int, i as int),
        decreases end - i,
    {
        v.push(buf[i]);
        assert(buf@.subrange(start as int, i + 1) =~= buf@.subrange(start as int, i as int).push(buf@[i as int]));
        i = i + 1;
    }
    v
}

/// Splits pending encoder output into the complete frames it holds: each
/// `0x87 0x00` marker past the current frame's start (in all but the last
/// four bytes) ends the current frame and starts the next. Returns the frames
/// and the number of leading bytes they occupy, which the caller removes.
pub fn split_stream_frames(buf: &Vec<u8>) -> (res: (Vec<Vec<u8>>, usize))
    ensures
        res.0@.map_values(|f: Vec<u8>| f@) == split_frames_spec(buf@).0,
        res.1 == split_frames_spec(buf@).1,
{
    let n: usize = if buf.len() >= 4 {
        buf.len() - 4
    } else {
        0
    };
    let mut frames: Vec<Vec<u8>> = Vec::new();
    let mut start: usize = 0;
    let mut i: usize = 0;
    while i < n
        invariant
            n == scan_len(buf@.len()),
            i <= n,
            frames@.map_values(|f: Vec<u8>| f@) == frames_upto(buf@, i as nat).0,
            start == frames_upto(buf@, i as nat).1,
        decreases n - i,
    {
        proof {
            lemma_frames_upto_start(buf@, i as nat);
        }
        if buf[i] == 0x87 && buf[i + 1] == 0x00 && i > start {
            let f = copy_range(buf, start, i);
            let ghost before = frames@.map_values(|f: Vec<u8>| f@);
            frames.push(f);
            assert(frames@.map_values(|f: Vec<u8>| f@) =~= before.push(buf@.subrange(start as int, i as int)));
            start = i;
        }
        i = i + 1;
    }
    (frames, start)
}


/// The X11 capture draws the mouse pointer exactly when the configuration
/// asks for the cursor: the argument after `-draw_mouse` is "1" when
/// `capture_cursor` is set and "0" when it is not.
pub proof fn law_pointer_drawn_iff_cursor_captured(
    config: ScreenCaptureConfig,
    width: u32,
    height: u32,
    x: i32,
    y: i32,
    quality_params: Seq<Seq<char>>,
)
    ensures
        x11_args(config, width, height, x, y, quality_params)[8] == "-draw_mouse"@,
        config.capture_cursor ==> x11_args(config, width, height, x, y, quality_params)[9] == "1"@,
        !config.capture_cursor ==> x11_args(config, width, height, x, y, quality_params)[9] == "0"@,
        x11_args(config, width, height, x, y, quality_params)[9] == "1"@ <==> config.capture_cursor,
{
    reveal_strlit("1");
    reveal_strlit("0");
    assert("1"@[0] != "0"@[0]);
}

} // verus!
