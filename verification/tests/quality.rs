use smoldesk::screen_capture::config::ScreenCaptureConfig;
use smoldesk::screen_capture::quality::{AdaptiveQualityController, QualityAdapterConfig};
use smoldesk::screen_capture::types::VideoCodec;

/// CPU usage in percent to hundredths of a percent.
fn cpu(percent: f32) -> u32 {
    (percent * 100.0).round() as u32
}

/// A frame drop rate to millionths.
fn drops(rate: f32) -> u32 {
    (rate * 1_000_000.0).round() as u32
}

#[test]
fn test_quality_adjustment() {
    let mut controller = AdaptiveQualityController::new(80, None);

    // Test high CPU should lower quality
    controller.update_metrics(cpu(90.0), 5000, drops(0.01), 150);
    let new_quality = controller.adjust_quality();
    assert!(new_quality < 80);

    // Reset and test high frame drop rate
    let mut controller = AdaptiveQualityController::new(80, None);
    controller.update_metrics(cpu(50.0), 5000, drops(0.1), 150);
    let new_quality = controller.adjust_quality();
    assert!(new_quality < 80);

    // Reset and test low CPU and no drops should increase quality
    let mut controller = AdaptiveQualityController::new(50, None);
    controller.update_metrics(cpu(30.0), 10000, drops(0.01), 150);
    let new_quality = controller.adjust_quality();
    assert!(new_quality > 50);
}

#[test]
fn test_bitrate_calculation() {
    let mut controller = AdaptiveQualityController::new(50, None);

    let bitrate_720p = controller.get_bitrate_for_resolution(1280, 720);
    let bitrate_1080p = controller.get_bitrate_for_resolution(1920, 1080);

    assert!(bitrate_1080p > bitrate_720p);

    controller.set_quality(100);
    let bitrate_high_quality = controller.get_bitrate_for_resolution(1280, 720);

    controller.set_quality(20);
    let bitrate_low_quality = controller.get_bitrate_for_resolution(1280, 720);

    assert!(bitrate_high_quality > bitrate_low_quality);
}

#[test]
fn adjustments_have_exact_sizes() {
    let mut controller = AdaptiveQualityController::new(80, None);
    controller.update_metrics(9000, 5000, 10_000, 150);
    assert_eq!(controller.adjust_quality_at(1_000), 75);

    let mut controller = AdaptiveQualityController::new(80, None);
    controller.update_metrics(5000, 5000, 100_000, 150);
    assert_eq!(controller.adjust_quality_at(1_000), 70);

    let mut controller = AdaptiveQualityController::new(50, None);
    controller.update_metrics(3000, 10_000, 10_000, 150);
    assert_eq!(controller.adjust_quality_at(1_000), 52);
}

#[test]
fn latency_above_target_costs_ten_points_per_multiple() {
    let mut controller = AdaptiveQualityController::new(80, None);
    // Target 200 ms, measured 600 ms: 10 * 400 / 200 = 20 points.
    controller.update_metrics(6000, 5000, 0, 600);
    assert_eq!(controller.adjust_quality_at(0), 60);
}

#[test]
fn adjustments_are_throttled() {
    let mut controller = AdaptiveQualityController::new(80, None);
    controller.update_metrics(9000, 5000, 0, 150);
    assert_eq!(controller.adjust_quality_at(10_000), 75);
    // Within five seconds of the last adjustment nothing changes.
    assert_eq!(controller.adjust_quality_at(12_000), 75);
    // Afterwards it adjusts again.
    assert_eq!(controller.adjust_quality_at(15_000), 70);
}

#[test]
fn quality_stays_within_its_range() {
    let mut controller = AdaptiveQualityController::new(12, None);
    controller.update_metrics(9000, 5000, 100_000, 150);
    assert_eq!(controller.adjust_quality_at(0), 10);
    let mut controller = AdaptiveQualityController::new(250, None);
    assert_eq!(controller.get_quality(), 100);
    controller.update_metrics(1000, 5000, 0, 100);
    assert_eq!(controller.adjust_quality_at(0), 100);
}

#[test]
fn smoothed_quality_is_the_history_mean() {
    let mut controller = AdaptiveQualityController::new(80, None);
    assert_eq!(controller.get_smoothed_quality(), 80);
    controller.update_metrics(9000, 5000, 0, 150);
    controller.adjust_quality_at(0); // 75
    // History of five: 80, 80, 80, 80, 75.
    assert_eq!(controller.get_smoothed_quality(), 79);
}

#[test]
fn bitrate_is_capped_by_bandwidth() {
    let mut controller = AdaptiveQualityController::new(100, None);
    // 1080p at full quality asks 5000 kbps; the average bandwidth is 5000,
    // of which 80% may be used.
    assert_eq!(controller.get_bitrate_for_resolution(1920, 1080), 4000);
    controller.set_quality(40);
    assert_eq!(controller.get_bitrate_for_resolution(1920, 1080), 2000);
    assert_eq!(controller.get_bitrate_for_resolution(640, 480), 400);
}

#[test]
fn update_config_brings_quality_into_range() {
    let mut controller = AdaptiveQualityController::new(80, None);
    let mut cfg = QualityAdapterConfig::default();
    cfg.max_quality = 60;
    controller.update_config(cfg);
    assert_eq!(controller.get_quality(), 60);
}

#[test]
fn ffmpeg_params_for_h264() {
    let controller = AdaptiveQualityController::new(80, None);
    let config = ScreenCaptureConfig::default();
    let params = controller.generate_ffmpeg_params(&config);
    assert_eq!(params, vec!["-crf", "11", "-preset", "medium", "-tune", "zerolatency", "-g", "30"]);
}

#[test]
fn ffmpeg_params_for_vp9() {
    let mut controller = AdaptiveQualityController::new(50, None);
    controller.set_target_latency(100);
    let mut config = ScreenCaptureConfig::default();
    config.codec = VideoCodec::VP9;
    config.bitrate = Some(2500);
    let params = controller.generate_ffmpeg_params(&config);
    assert_eq!(params, vec!["-crf", "32", "-speed", "6", "-b:v", "2500k", "-g", "30"]);
}
