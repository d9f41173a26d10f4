use smoldesk::screen_capture::buffer::{DropMode, StreamBuffer};
use smoldesk::screen_capture::capture::{matroska_frame, StreamAssembler};
use smoldesk::screen_capture::config::{
    AdvancedEncodingOptions, LegacyScreenCaptureConfig, RateControlMode, ScreenCaptureConfig,
    ScreenCaptureConfigBuilder,
};
use smoldesk::screen_capture::error::{
    to_capture_error, to_encoding_error, to_ffmpeg_error, to_init_error, ScreenCaptureError, ScreenCaptureErrorExt,
    ScreenCaptureErrorKind,
};
use smoldesk::screen_capture::ffmpeg::{
    pipewire_capture_args, pipewire_tuned_capture_args, split_stream_frames, x11_capture_args,
};
use smoldesk::screen_capture::manager::{display_server_from, stream_buffer_for, ScreenCaptureManager};
use smoldesk::screen_capture::monitors::{
    parse_swaymsg_outputs, parse_wlr_randr_output, parse_x11_monitors, wayland_monitors_from, x11_monitors_from,
    SwayOutput, SwayRect, WaylandMonitorDetector, X11MonitorDetector,
};
use smoldesk::screen_capture::quality::AdaptiveQualityController;
use smoldesk::screen_capture::types::{
    DisplayServer, FrameData, HardwareAcceleration, LatencyMode, MonitorInfo, VideoCodec,
};
use smoldesk::screen_capture::utils::{
    check_ffmpeg, check_hardware_acceleration, frame_to_base64, generate_session_id, get_available_codecs,
    get_available_hardware_acceleration, session_id_from, CommandOutput, EncoderReport,
};

fn out(success: bool, stdout: &str) -> CommandOutput {
    CommandOutput { success, stdout: stdout.as_bytes().to_vec(), stderr: vec![] }
}

fn monitor(index: usize, name: &str, width: u32, height: u32, x: i32, y: i32) -> MonitorInfo {
    MonitorInfo { index, name: name.to_string(), width, height, refresh_rate: None, primary: index == 0, x_offset: x, y_offset: y }
}

fn detail(e: &ScreenCaptureError) -> String {
    match e {
        ScreenCaptureError::InitializationFailed(m)
        | ScreenCaptureError::CaptureError(m)
        | ScreenCaptureError::EncodingError(m)
        | ScreenCaptureError::DisplayServerError(m)
        | ScreenCaptureError::InvalidMonitor(m)
        | ScreenCaptureError::StreamBufferError(m)
        | ScreenCaptureError::HardwareAccelerationError(m)
        | ScreenCaptureError::FFmpegError(m)
        | ScreenCaptureError::PipeWireError(m) => m.clone(),
    }
}

#[test]
fn x11_monitor_listing() {
    let text = "Monitors: 2\n 0: eDP-1: 1920x1080 x primary\n 1: HDMI-1: 2560x1440 2560x1440+1920+0 extra\n";
    let ms = parse_x11_monitors(text.as_bytes());
    assert_eq!(ms.len(), 2);
    assert_eq!((ms[0].index, ms[0].name.as_str(), ms[0].width, ms[0].height, ms[0].primary), (0, "eDP-1", 1920, 1080, true));
    assert_eq!((ms[1].index, ms[1].name.as_str(), ms[1].width, ms[1].x_offset, ms[1].primary), (1, "HDMI-1", 2560, 1920, false));
    let fallback = parse_x11_monitors(b"Monitors: 0\n");
    assert_eq!(fallback.len(), 1);
    assert_eq!((fallback[0].name.as_str(), fallback[0].width, fallback[0].height), ("Default", 1920, 1080));
    assert_eq!(fallback[0].refresh_rate.as_deref(), Some("60"));
    assert!(fallback[0].primary);
}

#[test]
fn x11_monitor_detection() {
    let err = x11_monitors_from(&Err("not found".to_string())).unwrap_err();
    assert_eq!(err.message(), "Display server error: Failed to execute xrandr: not found");
    let err = X11MonitorDetector.detect_monitors(&Ok(out(false, ""))).unwrap_err();
    assert_eq!(detail(&err), "xrandr returned an error");
    let ms = X11MonitorDetector.detect_monitors(&Ok(out(true, "Monitors: 1\n 0: A: 800x600 x y\n"))).unwrap();
    assert_eq!((ms[0].name.as_str(), ms[0].width, ms[0].height), ("A", 800, 600));
}

#[test]
fn wlr_randr_listing() {
    let text = "HDMI-A-1\n  current 2560x1440\n  refresh 59.95Hz\n  position 1920,-5\n  primary\nDP-2 extra\n";
    let ms = parse_wlr_randr_output(text.as_bytes()).unwrap();
    assert_eq!(ms.len(), 2);
    assert_eq!((ms[0].name.as_str(), ms[0].width, ms[0].height), ("HDMI-A-1", 2560, 1440));
    assert_eq!(ms[0].refresh_rate.as_deref(), Some("59.95"));
    assert_eq!((ms[0].x_offset, ms[0].y_offset, ms[0].primary), (1920, -5, true));
    assert_eq!((ms[1].index, ms[1].name.as_str(), ms[1].width), (1, "DP-2 extra", 0));
    let err = parse_wlr_randr_output(b"").unwrap_err();
    assert_eq!(detail(&err), "No monitors detected from wlr-randr");
}

fn sway(name: &str, active: bool, x: i64) -> SwayOutput {
    SwayOutput {
        name: Some(name.to_string()),
        active: Some(active),
        primary: Some(false),
        rect: Some(SwayRect { width: Some(2560), height: Some(1440), x: Some(x), y: Some(0) }),
        refresh: Some("60".to_string()),
    }
}

#[test]
fn swaymsg_listing() {
    let ms = parse_swaymsg_outputs(Ok(vec![sway("eDP-1", false, 0), sway("DP-1", true, -2560)])).unwrap();
    assert_eq!(ms.len(), 1);
    assert_eq!((ms[0].index, ms[0].name.as_str(), ms[0].x_offset), (1, "DP-1", -2560));
    let err = parse_swaymsg_outputs(Ok(vec![sway("eDP-1", false, 0)])).unwrap_err();
    assert_eq!(detail(&err), "No active monitors detected from swaymsg");
    let err = parse_swaymsg_outputs(Err("expected value at line 1".to_string())).unwrap_err();
    assert_eq!(detail(&err), "Failed to parse swaymsg output: expected value at line 1");
}

#[test]
fn wayland_sources_are_tried_in_turn() {
    let ms = wayland_monitors_from(Some(b"OUT\n".to_vec()), None, None).unwrap();
    assert_eq!(ms[0].name, "OUT");
    let ms = wayland_monitors_from(None, Some(Ok(vec![sway("DP-1", true, 0)])), None).unwrap();
    assert_eq!(ms[0].name, "DP-1");
    let ms = WaylandMonitorDetector.detect_monitors(None, None, Some(b"wayland-0\n".to_vec())).unwrap();
    assert_eq!((ms[0].name.as_str(), ms[0].width), ("Wayland-0", 1920));
    let err = wayland_monitors_from(None, None, Some(b"  \n".to_vec())).unwrap_err();
    assert_eq!(detail(&err), "Failed to detect Wayland monitors");    let err = wayland_monitors_from(Some(Vec::new()), None, None).unwrap_err();
    assert_eq!(detail(&err), "No monitors detected from wlr-randr");
    let err = WaylandMonitorDetector.detect_monitors(None, Some(Err("bad json".to_string())), None).unwrap_err();
    assert_eq!(detail(&err), "Failed to parse swaymsg output: bad json");
    let err = wayland_monitors_from(None, Some(Ok(vec![sway("DP-1", false, 0)])), None).unwrap_err();
    assert_eq!(detail(&err), "No active monitors detected from swaymsg");
}

#[test]
fn x11_ffmpeg_arguments() {
    let config = ScreenCaptureConfig::default();
    let quality = AdaptiveQualityController::new(80, None);
    let args = x11_capture_args(&config, &monitor(0, "eDP-1", 1920, 1080, 0, -10), &quality);
    let expected = "-f x11grab -video_size 1920x1080 -i :0.0+0,-10 -framerate 30 -draw_mouse 1 \
        -c:v libx264 -preset ultrafast -tune zerolatency \
        -crf 11 -preset medium -tune zerolatency -g 30 \
        -g 30 -f matroska -movflags faststart -";
    assert_eq!(args.join(" "), expected.split_whitespace().collect::<Vec<_>>().join(" "));
}

#[test]
fn pipewire_ffmpeg_arguments() {
    let mut config = ScreenCaptureConfig::default();
    config.hardware_acceleration = HardwareAcceleration::VAAPI;
    config.latency_mode = LatencyMode::UltraLow;
    let quality = AdaptiveQualityController::new(80, None);
    let args = pipewire_capture_args(&config, &monitor(2, "DP-1", 1920, 1080, 0, 0), &quality);
    assert_eq!(&args[..6], &["-f", "pipewire", "-framerate", "30", "-i", "pipewire:2"]);
    assert_eq!(&args[6..12], &["-hwaccel", "vaapi", "-hwaccel_device", "/dev/dri/renderD128", "-hwaccel_output_format", "vaapi"]);
    assert_eq!(&args[12..18], &["-c:v", "h264_vaapi", "-qp", "23", "-quality", "speed"]);
    let args = pipewire_capture_args(&config, &monitor(0, "Wayland-0", 1920, 1080, 0, 0), &quality);
    assert_eq!(args[5], "0");
    let tuned = pipewire_tuned_capture_args(&config, &monitor(0, "Wayland-0", 1920, 1080, 0, 0), &quality);
    let tail: Vec<&str> = tuned.iter().rev().take(13).rev().map(|s| s.as_str()).collect();
    assert_eq!(
        tail,
        vec!["-g", "30", "-tune", "zerolatency", "-probesize", "32", "-flush_packets", "1", "-f", "matroska", "-movflags", "faststart", "-"]
    );
}

#[test]
fn encoder_output_is_split_at_markers() {
    let buf = vec![1, 2, 0x87, 0x00, 3, 0x87, 0x00, 4, 5, 6, 7];
    let (frames, used) = split_stream_frames(&buf);
    assert_eq!(frames, vec![vec![1, 2], vec![0x87, 0x00, 3]]);
    assert_eq!(used, 5);
    // A marker among the last four bytes is not looked at yet.
    let (frames, used) = split_stream_frames(&vec![9, 0x87, 0x00, 1, 2]);
    assert!(frames.is_empty());
    assert_eq!(used, 0);
}

#[test]
fn assembler_keeps_partial_frames() {
    let mut a = StreamAssembler::new();
    assert!(a.take_chunk(&[1, 2, 0x87]).is_empty());
    let frames = a.take_chunk(&[0x00, 3, 4, 5, 6, 0x87, 0x00, 9, 9, 9, 9]);
    assert_eq!(frames, vec![vec![1, 2], vec![0x87, 0x00, 3, 4, 5, 6]]);
    let frames = a.take_chunk(&[0x87, 0x00, 1, 1, 1, 1]);
    assert_eq!(frames, vec![vec![0x87, 0x00, 9, 9, 9, 9]]);
    let f = matroska_frame(vec![1, 2, 3], 42, 640, 480);
    assert_eq!((f.timestamp, f.keyframe, f.width, f.height, f.format.as_str()), (42, true, 640, 480, "matroska"));
}

#[test]
fn stream_is_cut_at_markers() {
    let stream: Vec<u8> = vec![5, 0x87, 0x00, 1, 0x87, 0x00, 2, 2, 0x87, 0x00, 3, 3, 3, 3, 3];
    let mut a = StreamAssembler::new();
    let mut frames: Vec<Vec<u8>> = Vec::new();
    for chunk in stream.chunks(3) {
        frames.extend(a.take_chunk(chunk));
    }
    assert_eq!(frames, vec![vec![5], vec![0x87, 0x00, 1], vec![0x87, 0x00, 2, 2]]);
    assert_eq!(a.pending_len(), 7);
    let total: usize = frames.iter().map(|f| f.len()).sum();
    assert_eq!(total + a.pending_len(), stream.len());
}

#[test]
fn assembler_discards_runaway_data() {
    let mut a = StreamAssembler::new();
    let big = vec![0u8; 11 * 1024 * 1024];
    assert!(a.take_chunk(&big).is_empty());
    // The runaway data was dropped: a marker now starts at the front.
    let frames = a.take_chunk(&[7, 0x87, 0x00, 1, 1, 1, 1]);
    assert_eq!(frames, vec![vec![7]]);
}

#[test]
fn display_server_detection() {
    assert_eq!(display_server_from(Some("wayland-0"), Some(":0")).unwrap(), DisplayServer::Wayland);
    assert_eq!(display_server_from(Some(""), Some(":0")).unwrap(), DisplayServer::X11);
    let err = display_server_from(None, Some("")).unwrap_err();
    assert_eq!(err.message(), "Display server error: No supported display server detected");
}

#[test]
fn manager_checks_its_monitor() {
    let err = ScreenCaptureManager::new(DisplayServer::Unknown, vec![]).err().unwrap();
    assert_eq!(detail(&err), "Unsupported display server");
    let mut m = ScreenCaptureManager::new(DisplayServer::X11, vec![monitor(0, "A", 800, 600, 0, 0)]).unwrap();
    assert_eq!(m.get_display_server(), DisplayServer::X11);
    assert_eq!(m.get_monitors().len(), 1);
    let mut buffer = stream_buffer_for(m.fps());
    assert_eq!((buffer.get_max_frames(), buffer.get_max_bytes(), buffer.get_fps()), (90, 10 * 1024 * 1024, 30));
    buffer.push_frame(matroska_frame(vec![1], 1, 1, 1)).unwrap();
    let started = m.start_capture(&mut buffer).unwrap().unwrap();
    assert_eq!(started.name, "A");
    assert!(buffer.is_empty());
    assert!(m.is_running());
    assert!(m.start_capture(&mut buffer).unwrap().is_none());

    let bad = ScreenCaptureConfigBuilder::new().monitor_index(3).build();
    let err = m.update_config(bad, &mut buffer).unwrap_err();
    assert_eq!(err.error_kind(), ScreenCaptureErrorKind::InvalidMonitor);
    assert_eq!(detail(&err), "Monitor index 3 out of bounds (0-0)");
    let good = ScreenCaptureConfigBuilder::new().fps(60).build();
    assert!(m.update_config(good, &mut buffer).unwrap());
    assert_eq!(buffer.get_fps(), 60);
    m.stop_capture();
    assert!(!m.is_running());
    assert!(!m.update_config(ScreenCaptureConfig::default(), &mut buffer).unwrap());
    m.refresh_monitors(vec![]).unwrap();
    assert!(m.get_monitors().is_empty());
}

#[test]
fn default_config_and_builder() {
    let c = ScreenCaptureConfig::default();
    assert_eq!((c.monitor_index, c.fps, c.quality, c.keyframe_interval), (0, 30, 80, 30));
    assert_eq!((c.codec, c.hardware_acceleration, c.latency_mode), (VideoCodec::H264, HardwareAcceleration::NoAcceleration, LatencyMode::Balanced));
    assert!(c.capture_cursor && !c.capture_audio && c.bitrate.is_none() && c.advanced_options.is_none());
    let c = ScreenCaptureConfigBuilder::new()
        .monitor_index(1)
        .fps(60)
        .quality(150)
        .codec(VideoCodec::AV1)
        .hardware_acceleration(HardwareAcceleration::NVENC)
        .capture_cursor(false)
        .capture_audio(true)
        .keyframe_interval(120)
        .bitrate(Some(6000))
        .latency_mode(LatencyMode::UltraLow)
        .advanced_options(AdvancedEncodingOptions::default())
        .build();
    assert_eq!((c.monitor_index, c.fps, c.quality, c.keyframe_interval, c.bitrate), (1, 60, 100, 120, Some(6000)));
    assert_eq!((c.codec, c.hardware_acceleration, c.latency_mode), (VideoCodec::AV1, HardwareAcceleration::NVENC, LatencyMode::UltraLow));
    assert!(!c.capture_cursor && c.capture_audio);
    let o = c.advanced_options.unwrap();
    assert_eq!((o.pixel_format.as_str(), o.preset.as_deref(), o.tune.as_deref(), o.profile.as_deref()), ("yuv420p", Some("ultrafast"), Some("zerolatency"), Some("baseline")));
    assert_eq!(o.rate_control, RateControlMode::CRF(23));
    assert_eq!(ScreenCaptureConfigBuilder::new().quality(0).build().quality, 1);
}

#[test]
fn legacy_configs_convert() {
    let legacy = LegacyScreenCaptureConfig {
        fps: 24,
        quality: 70,
        codec: "VP9".to_string(),
        hardware_acceleration: "QuickSync".to_string(),
        capture_cursor: false,
        capture_audio: true,
        monitor_index: 2,
    };
    let c = ScreenCaptureConfig::from(legacy);
    assert_eq!((c.fps, c.quality, c.monitor_index, c.keyframe_interval), (24, 70, 2, 30));
    assert_eq!((c.codec, c.hardware_acceleration), (VideoCodec::VP9, HardwareAcceleration::QuickSync));
    let legacy = LegacyScreenCaptureConfig {
        fps: 30,
        quality: 50,
        codec: "h265".to_string(),
        hardware_acceleration: "vaapi".to_string(),
        capture_cursor: true,
        capture_audio: false,
        monitor_index: 0,
    };
    let c: ScreenCaptureConfig = legacy.into();
    assert_eq!((c.codec, c.hardware_acceleration), (VideoCodec::H264, HardwareAcceleration::NoAcceleration));
}

#[test]
fn capture_errors() {
    assert_eq!(ScreenCaptureError::PipeWireError("x".to_string()).message(), "PipeWire error: x");
    assert_eq!(to_init_error("boom", "starting").message(), "Initialization failed: starting: boom");
    assert_eq!(detail(&to_capture_error(7, "frame")), "frame: 7");
    assert_eq!(to_encoding_error("e", "c").error_kind(), ScreenCaptureErrorKind::EncodingError);
    assert_eq!(to_ffmpeg_error("e", "c").message(), "FFmpeg error: c: e");
    let r: Result<(), String> = Err("pipe closed".to_string());
    assert_eq!(r.with_context(|| "reading".to_string()).unwrap_err().message(), "Capture error: reading: pipe closed");
}

#[test]
fn encoder_probes() {
    let report = EncoderReport {
        vaapi_device_present: true,
        hwaccels: Ok(out(true, "Hardware acceleration methods:\nvdpau\nvaapi\n")),
        encoders: Ok(out(true, " V..... libx264 H.264\n V..... h264_nvenc NVIDIA\n V..... libvpx VP8\n")),
    };
    assert_eq!(get_available_hardware_acceleration(&report).unwrap(), vec!["None", "VAAPI", "NVENC"]);
    assert!(check_hardware_acceleration(&HardwareAcceleration::NVENC, &report).unwrap());
    assert!(!check_hardware_acceleration(&HardwareAcceleration::QuickSync, &report).unwrap());
    assert!(check_hardware_acceleration(&HardwareAcceleration::NoAcceleration, &report).unwrap());
    let no_device = EncoderReport { vaapi_device_present: false, ..report };
    assert!(!check_hardware_acceleration(&HardwareAcceleration::VAAPI, &no_device).unwrap());
    let broken = EncoderReport { vaapi_device_present: false, hwaccels: Err("x".to_string()), encoders: Err("gone".to_string()) };
    let err = get_available_hardware_acceleration(&broken).unwrap_err();
    assert_eq!(detail(&err), "Failed to check FFmpeg encoders: gone");
    assert_eq!(get_available_codecs(&Ok(out(true, " libx264 libvpx-vp9 "))).unwrap(), vec!["H264", "VP8", "VP9"]);
    assert_eq!(get_available_codecs(&Ok(out(true, "nothing"))).unwrap(), vec!["H264"]);
    assert_eq!(get_available_codecs(&Ok(out(true, " av1 "))).unwrap(), vec!["AV1"]);
}

#[test]
fn ffmpeg_version_check() {
    assert_eq!(check_ffmpeg(&Ok(out(true, "ffmpeg version 6.1\nbuilt with gcc\n"))).unwrap(), "ffmpeg version 6.1");
    assert_eq!(check_ffmpeg(&Ok(out(true, ""))).unwrap(), "Unknown version");
    assert_eq!(detail(&check_ffmpeg(&Ok(out(false, "x"))).unwrap_err()), "FFmpeg returned an error when checking version.");
    assert_eq!(
        detail(&check_ffmpeg(&Err("No such file".to_string())).unwrap_err()),
        "Failed to execute ffmpeg: No such file. Make sure FFmpeg is installed."
    );
}

#[test]
fn base64_and_session_ids() {
    assert_eq!(frame_to_base64(b"hello"), "aGVsbG8=");
    assert_eq!(frame_to_base64(b""), "");
    assert_eq!(frame_to_base64(&[0xff, 0xfe]), "//4=");
    assert_eq!(session_id_from(1_700_000_000, 42), "capture_1700000000_42");
    let id = generate_session_id();
    assert!(id.starts_with("capture_"));
    assert_eq!(id.split('_').count(), 3);
}

#[test]
fn frame_data_fields() {
    let f = FrameData { data: vec![1], timestamp: 3, keyframe: false, width: 2, height: 2, format: "h264".to_string() };
    let g = f.clone();
    assert_eq!((g.data, g.timestamp), (vec![1], 3));
    let mut b = StreamBuffer::new(1, 1, 1, DropMode::DropOldest);
    b.push_frame(f).unwrap();
    assert_eq!(b.len(), 1);
}
