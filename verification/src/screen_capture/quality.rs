//! Adaptive quality controller: adjusts the encoding quality to CPU load,
//! frame drops and latency, derives bitrates, and renders encoder parameters.
//!
//! Measurements are fixed-point integers: CPU usage in hundredths of a
//! percent, frame drop rates in millionths, and the adjustment factor in
//! thousandths.
use vstd::prelude::*;
use crate::screen_capture::config::ScreenCaptureConfig;
use crate::screen_capture::types::VideoCodec;
use crate::screen_capture::utils::clock_millis;
use crate::text::{decimal, string_views, owned, u64_to_decimal, concat};

verus! {

/// Configuration for the quality adapter
#[derive(Debug, Clone, Copy, PartialEq, Eq, Structural)]
pub struct QualityAdapterConfig {
    /// Maximum quality setting
    pub max_quality: u32,
    /// Minimum quality setting
    pub min_quality: u32,
    /// How aggressively to adjust quality, in thousandths (1000 leaves the
    /// adjustment as computed; higher is more aggressive)
    pub adjustment_factor: u32,
    /// Minimum time between adjustments
    pub min_adjustment_interval_ms: u64,
    /// CPU usage above which quality is reduced, in hundredths of a percent
    pub cpu_threshold_high: u32,
    /// CPU usage below which quality may increase, in hundredths of a percent
    pub cpu_threshold_low: u32,
    /// Frame drop rate above which quality is reduced, in millionths
    pub frame_drop_threshold: u32,
    /// Size of history buffer for smoothing
    pub history_size: usize,
    /// Whether to prioritize latency over quality
    pub prioritize_latency: bool,
}

impl QualityAdapterConfig {
    /// The quality bounds can be compared as signed 32-bit values.
    pub open spec fn supported(&self) -> bool {
        &&& self.max_quality <= i32::MAX
        &&& self.min_quality <= i32::MAX
    }
}

pub open spec fn default_adapter_config() -> QualityAdapterConfig {
    QualityAdapterConfig {
        max_quality: 100,
        min_quality: 10,
        adjustment_factor: 1000,
        min_adjustment_interval_ms: 5000,
        cpu_threshold_high: 8500,
        cpu_threshold_low: 5000,
        frame_drop_threshold: 50000,
        history_size: 5,
        prioritize_latency: true,
    }
}

impl Default for QualityAdapterConfig {
    fn default() -> (c: Self)
        ensures
            c == default_adapter_config(),
    {
        QualityAdapterConfig {
            max_quality: 100,
            min_quality: 10,
            adjustment_factor: 1000,
            min_adjustment_interval_ms: 5000,
            cpu_threshold_high: 8500,
            cpu_threshold_low: 5000,
            frame_drop_threshold: 50000,
            history_size: 5,
            prioritize_latency: true,
        }
    }
}

/// `v` raised to at least `lo`, then lowered to at most `hi`.
pub open spec fn clamp(v: int, lo: int, hi: int) -> int {
    let v1 = if v < lo {
        lo
    } else {
        v
    };
    if v1 > hi {
        hi
    } else {
        v1
    }
}

/// `v` lowered to at most `hi`, then raised to at least `lo`.
pub open spec fn clamp_upper_first(v: int, lo: int, hi: int) -> int {
    let v1 = if v > hi {
        hi
    } else {
        v
    };
    if v1 < lo {
        lo
    } else {
        v1
    }
}

/// Appending to a history that keeps `size` entries: the oldest entry leaves
/// when the history grows past `size`.
pub open spec fn bounded_push(h: Seq<u32>, x: u32, size: nat) -> Seq<u32> {
    if h.len() + 1 > size {
        h.push(x).drop_first()
    } else {
        h.push(x)
    }
}

/// Whether an adjustment at `now` comes sooner than `interval` after the last.
pub open spec fn throttled(last: Option<u64>, now: u64, interval: u64) -> bool {
    match last {
        Some(t) => (if now >= t {
            now - t
        } else {
            0
        }) < interval,
        None => false,
    }
}

/// Quality points taken off for latency above the target: ten per whole
/// multiple of the target that the excess amounts to.
pub open spec fn latency_penalty(measured: u32, target: u32) -> int {
    if target == 0 {
        i32::MAX as int
    } else {
        let p = (10 * (measured - target)) / (target as int);
        if p > i32::MAX {
            i32::MAX as int
        } else {
            p
        }
    }
}

/// The adjustment before scaling: -5 for CPU above the high threshold, -10
/// for drops above the threshold, minus the latency penalty when latency is
/// prioritized and above the target, +2 when CPU, drops and latency all
/// leave headroom.
pub open spec fn raw_adjustment(cfg: QualityAdapterConfig, cpu: u32, drop_rate: u32, measured: u32, target: u32) -> int {
    let a1: int = if cpu > cfg.cpu_threshold_high {
        -5
    } else {
        0
    };
    let a2: int = if drop_rate > cfg.frame_drop_threshold {
        -10
    } else {
        0
    };
    let a3: int = if cfg.prioritize_latency && measured > target {
        -latency_penalty(measured, target)
    } else {
        0
    };
    let a4: int = if cpu < cfg.cpu_threshold_low && 2 * drop_rate < cfg.frame_drop_threshold && measured
        < target {
        2
    } else {
        0
    };
    a1 + a2 + a3 + a4
}

/// Division rounding toward zero.
pub open spec fn div_toward_zero(a: int, d: int) -> int {
    if a >= 0 {
        a / d
    } else {
        -((-a) / d)
    }
}

pub open spec fn saturate_i32(a: int) -> int {
    clamp(a, i32::MIN as int, i32::MAX as int)
}

/// The quality chosen by an adjustment from `current`.
pub open spec fn adjusted_quality(
    cfg: QualityAdapterConfig,
    current: u32,
    cpu: u32,
    drop_rate: u32,
    measured: u32,
    target: u32,
) -> u32 {
    let scaled = saturate_i32(
        div_toward_zero(raw_adjustment(cfg, cpu, drop_rate, measured, target) * cfg.adjustment_factor, 1000),
    );
    clamp(current + scaled, cfg.min_quality as int, cfg.max_quality as int) as u32
}

pub open spec fn seq_sum(s: Seq<u32>) -> nat
    decreases s.len(),
{
    if s.len() == 0 {
        0
    } else {
        seq_sum(s.drop_last()) + s.last() as nat
    }
}

/// Mean of a nonempty history, rounded down.
pub open spec fn mean(s: Seq<u32>) -> nat {
    seq_sum(s) / s.len()
}

/// Bitrate in kbps for a resolution of `pixels` pixels before quality and
/// bandwidth are taken into account.
pub open spec fn base_bitrate(pixels: nat) -> nat {
    if pixels > 2073600 {
        8000
    } else if pixels > 921600 {
        5000
    } else if pixels > 480000 {
        2500
    } else {
        1000
    }
}

pub open spec fn encoder_speed(q: u32) -> nat {
    if q < 30 {
        8
    } else if q < 60 {
        6
    } else {
        4
    }
}

pub open spec fn x264_preset(q: u32, measured: u32, target: u32) -> Seq<char> {
    if measured > 2 * target {
        "ultrafast"@
    } else if q < 30 {
        "superfast"@
    } else if q < 60 {
        "veryfast"@
    } else {
        "medium"@
    }
}

/// Quantizer on the 0-63 scale for a quality on the 0-100 scale.
pub open spec fn quantizer63(q: u32) -> nat {
    (63 - (q * 63) / 100) as nat
}

/// Whether the codec's quality parameters are defined for quality `q` and
/// latency target `target`.
pub open spec fn params_defined(codec: VideoCodec, q: u32, target: u32) -> bool {
    match codec {
        VideoCodec::H264 => q / 2 <= 51 && 2 * target <= u32::MAX,
        _ => (q * 63) / 100 <= 63,
    }
}

/// The codec-specific part of the encoder parameters.
pub open spec fn codec_params(codec: VideoCodec, q: u32, measured: u32, target: u32) -> Seq<Seq<char>> {
    match codec {
        VideoCodec::H264 => seq![
            "-crf"@,
            decimal((51 - q / 2) as nat),
            "-preset"@,
            x264_preset(q, measured, target),
            "-tune"@,
            "zerolatency"@,
        ],
        VideoCodec::VP8 => seq![
            "-qmin"@,
            decimal(quantizer63(q)),
            "-qmax"@,
            decimal(if quantizer63(q) + 10 > 63 { 63 } else { quantizer63(q) + 10 }),
        ],
        VideoCodec::VP9 => seq!["-crf"@, decimal(quantizer63(q)), "-speed"@, decimal(encoder_speed(q))],
        VideoCodec::AV1 => seq!["-crf"@, decimal(quantizer63(q)), "-cpu-used"@, decimal(encoder_speed(q))],
    }
}

/// All encoder parameters: the codec's, then the requested bitrate if any,
/// then the keyframe interval.
pub open spec fn encoder_params(
    codec: VideoCodec,
    q: u32,
    measured: u32,
    target: u32,
    bitrate: Option<u32>,
    keyframe_interval: u32,
) -> Seq<Seq<char>> {
    let rate = match bitrate {
        Some(b) => seq!["-b:v"@, decimal(b as nat) + "k"@],
        None => Seq::empty(),
    };
    codec_params(codec, q, measured, target) + rate + seq!["-g"@, decimal(keyframe_interval as nat)]
}

fn push_text(v: &mut Vec<String>, s: &str)
    ensures
        string_views(final(v)@) == string_views(old(v)@).push(s@),
{
    let t = owned(s);
    v.push(t);
    assert(string_views(v@) =~= string_views(old(v)@).push(s@));
}

fn push_number(v: &mut Vec<String>, n: u64)
    ensures
        string_views(final(v)@) == string_views(old(v)@).push(decimal(n as nat)),
{
    let t = u64_to_decimal(n);
    v.push(t);
    assert(string_views(v@) =~= string_views(old(v)@).push(decimal(n as nat)));
}

proof fn lemma_sum_bound(s: Seq<u32>)
    ensures
        seq_sum(s) <= s.len() * (u32::MAX as nat),
    decreases s.len(),
{
    if s.len() > 0 {
        lemma_sum_bound(s.drop_last());
        assert(seq_sum(s) <= s.len() * (u32::MAX as nat)) by (nonlinear_arith)
            requires
                seq_sum(s) == seq_sum(s.drop_last()) + s.last(),
                seq_sum(s.drop_last()) <= s.drop_last().len() * (u32::MAX as nat),
                s.drop_last().len() + 1 == s.len(),
                s.last() <= u32::MAX,
        ;
    }
}

/// The mean of a nonempty vector of `u32` values, rounded down.
fn mean_of(v: &Vec<u32>) -> (m: u32)
    requires
        v@.len() > 0,
    ensures
        m == mean(v@),
{
    let mut acc: u128 = 0;
    let mut i: usize = 0;
    while i < v.len()
        invariant
            i <= v@.len(),
            acc == seq_sum(v@.take(i as int)),
            acc <= i * (u32::MAX as nat),
        decreases v.len() - i,
    {
        proof {
            assert(v@.take(i as int + 1).drop_last() =~= v@.take(i as int));
            assert(acc + v@[i as int] <= (i + 1) * (u32::MAX as nat)) by (nonlinear_arith)
                requires
                    acc <= i * (u32::MAX as nat),
                    v@[i as int] <= u32::MAX,
            ;
            assert((i + 1) * (u32::MAX as nat) <= 0x1_0000_0000_0000_0000 * 0x1_0000_0000) by (nonlinear_arith)
                requires
                    i < 0x1_0000_0000_0000_0000,
            ;
        }
        acc = acc + v[i] as u128;
        i = i + 1;
    }
    assert(v@.take(v@.len() as int) =~= v@);
    let n = v.len() as u128;
    proof {
        lemma_sum_bound(v@);
        assert(acc / n <= u32::MAX) by (nonlinear_arith)
            requires
                acc <= n * (u32::MAX as nat),
                n > 0,
        ;
    }
    (acc / n) as u32
}

/// Appends `x` to a history of `size` entries, dropping the oldest entry when
/// the history grows past `size`.
fn push_bounded(h: &mut Vec<u32>, x: u32, size: usize)
    ensures
        final(h)@ == bounded_push(old(h)@, x, size as nat),
{
    h.push(x);
    if h.len() > size {
        h.remove(0);
        assert(old(h)@.push(x).remove(0) =~= old(h)@.push(x).drop_first());
    }
}

/// Adaptive quality controller for dynamically adjusting encoding parameters
pub struct AdaptiveQualityController {
    /// Current quality setting (0-100)
    current_quality: u32,
    /// CPU usage in hundredths of a percent
    cpu_usage: u32,
    /// Network bandwidth in kbps
    network_bandwidth: u32,
    /// Frame drop rate in millionths
    frame_drop_rate: u32,
    /// Clock reading (ms) of the last adjustment; none before the first
    last_adjustment: Option<u64>,
    /// History of recent quality values (for smoothing)
    quality_history: Vec<u32>,
    /// History of recent bandwidth measurements
    bandwidth_history: Vec<u32>,
    /// Configuration for quality adjustments
    config: QualityAdapterConfig,
    /// Target latency in milliseconds
    target_latency_ms: u32,
    /// Actual measured latency in milliseconds
    measured_latency_ms: u32,
}

impl AdaptiveQualityController {
    pub closed spec fn quality(&self) -> u32 {
        self.current_quality
    }

    pub closed spec fn cpu(&self) -> u32 {
        self.cpu_usage
    }

    pub closed spec fn bandwidth(&self) -> u32 {
        self.network_bandwidth
    }

    pub closed spec fn drop_rate(&self) -> u32 {
        self.frame_drop_rate
    }

    pub closed spec fn last_adjusted(&self) -> Option<u64> {
        self.last_adjustment
    }

    pub closed spec fn history(&self) -> Seq<u32> {
        self.quality_history@
    }

    pub closed spec fn bandwidths(&self) -> Seq<u32> {
        self.bandwidth_history@
    }

    pub closed spec fn settings(&self) -> QualityAdapterConfig {
        self.config
    }

    pub closed spec fn target_latency(&self) -> u32 {
        self.target_latency_ms
    }

    pub closed spec fn measured_latency(&self) -> u32 {
        self.measured_latency_ms
    }

    /// The controller's quality lies in its configured range (or at its
    /// minimum when the range is empty), with bounds that fit an `i32`.
    pub closed spec fn wf(&self) -> bool {
        &&& self.config.supported()
        &&& self.current_quality <= (if self.config.min_quality > self.config.max_quality {
            self.config.min_quality
        } else {
            self.config.max_quality
        })
    }

    /// Create a new adaptive quality controller starting at
    /// `initial_quality` brought into the configured range.
    pub fn new(initial_quality: u32, config: Option<QualityAdapterConfig>) -> (c: Self)
        requires
            config matches Some(cfg) ==> cfg.supported(),
        ensures
            c.wf(),
            c.settings() == (match config {
                Some(cfg) => cfg,
                None => default_adapter_config(),
            }),
            c.quality() == clamp_upper_first(
                initial_quality as int,
                c.settings().min_quality as int,
                c.settings().max_quality as int,
            ),
            c.history() == Seq::new(c.settings().history_size as nat, |i: int| c.quality()),
            c.bandwidths() == Seq::new(c.settings().history_size as nat, |i: int| 5000u32),
            c.bandwidth() == 5000,
            c.cpu() == 0,
            c.drop_rate() == 0,
            c.last_adjusted() is None,
            c.target_latency() == 200,
            c.measured_latency() == 0,
    {
        let config = match config {
            Some(cfg) => cfg,
            None => QualityAdapterConfig::default(),
        };
        let q1 = if initial_quality > config.max_quality {
            config.max_quality
        } else {
            initial_quality
        };
        let quality = if q1 < config.min_quality {
            config.min_quality
        } else {
            q1
        };
        let quality_history = vec![quality; config.history_size];
        let bandwidth_history = vec![5000u32; config.history_size];
        let c = AdaptiveQualityController {
            current_quality: quality,
            cpu_usage: 0,
            network_bandwidth: 5000,  // Default assumption: 5 Mbps
            frame_drop_rate: 0,
            last_adjustment: None,
            quality_history,
            bandwidth_history,
            config,
            target_latency_ms: 200,  // Default target latency
            measured_latency_ms: 0,
        };
        assert(c.history() =~= Seq::new(config.history_size as nat, |i: int| quality));
        assert(c.bandwidths() =~= Seq::new(config.history_size as nat, |i: int| 5000u32));
        c
    }

    /// Update metrics used for quality adaptation; the bandwidth also enters
    /// its history.
    pub fn update_metrics(&mut self, cpu_usage: u32, network_bandwidth: u32, frame_drop_rate: u32, latency_ms: u32)
        requires
            old(self).wf(),
        ensures
            final(self).wf(),
            final(self).cpu() == cpu_usage,
            final(self).bandwidth() == network_bandwidth,
            final(self).drop_rate() == frame_drop_rate,
            final(self).measured_latency() == latency_ms,
            final(self).bandwidths() == bounded_push(
                old(self).bandwidths(),
                network_bandwidth,
                old(self).settings().history_size as nat,
            ),
            final(self).quality() == old(self).quality(),
            final(self).history() == old(self).history(),
            final(self).settings() == old(self).settings(),
            final(self).target_latency() == old(self).target_latency(),
            final(self).last_adjusted() == old(self).last_adjusted(),
    {
        self.cpu_usage = cpu_usage;
        self.network_bandwidth = network_bandwidth;
        self.frame_drop_rate = frame_drop_rate;
        self.measured_latency_ms = latency_ms;
        push_bounded(&mut self.bandwidth_history, network_bandwidth, self.config.history_size);
    }

    /// Adjust quality based on the current metrics, with the clock read now.
    pub fn adjust_quality(&mut self) -> (q: u32)
        requires
            old(self).wf(),
        ensures
            final(self).wf(),
            exists|now: u64| Self::adjusted_at(*old(self), *final(self), now, q),
    {
        let now = clock_millis();
        self.adjust_quality_at(now)
    }

    /// What `adjust_quality_at(now)` does: nothing when it comes sooner than
    /// the configured interval after the last adjustment; otherwise it sets
    /// the quality to the adjusted value, records it in the history and
    /// records `now`.
    pub open spec fn adjusted_at(before: Self, after: Self, now: u64, q: u32) -> bool {
        if throttled(before.last_adjusted(), now, before.settings().min_adjustment_interval_ms) {
            &&& q == before.quality()
            &&& after == before
        } else {
            &&& q == adjusted_quality(
                before.settings(),
                before.quality(),
                before.cpu(),
                before.drop_rate(),
                before.measured_latency(),
                before.target_latency(),
            )
            &&& after.quality() == q
            &&& after.history() == bounded_push(before.history(), q, before.settings().history_size as nat)
            &&& after.last_adjusted() == Some(now)
            &&& after.cpu() == before.cpu()
            &&& after.bandwidth() == before.bandwidth()
            &&& after.drop_rate() == before.drop_rate()
            &&& after.bandwidths() == before.bandwidths()
            &&& after.settings() == before.settings()
            &&& after.target_latency() == before.target_latency()
            &&& after.measured_latency() == before.measured_latency()
        }
    }

    /// Adjust quality based on the current metrics, at clock reading `now`
    /// (milliseconds).
    pub fn adjust_quality_at(&mut self, now: u64) -> (q: u32)
        requires
            old(self).wf(),
        ensures
            final(self).wf(),
            Self::adjusted_at(*old(self), *final(self), now, q),
    {
        if let Some(last) = self.last_adjustment {
            let elapsed = if now >= last {
                now - last
            } else {
                0
            };
            if elapsed < self.config.min_adjustment_interval_ms {
                return self.current_quality;
            }
        }
        let cfg = self.config;
        let mut adjustment: i64 = 0;
        if self.cpu_usage > cfg.cpu_threshold_high {
            adjustment = adjustment - 5;
        }
        if self.frame_drop_rate > cfg.frame_drop_threshold {
            adjustment = adjustment - 10;
        }
        let measured = self.measured_latency_ms;
        let target = self.target_latency_ms;
        if cfg.prioritize_latency && measured > target {
            let penalty: i64 = if target == 0 {
                0x7fff_ffff
            } else {
                let p = (10 * ((measured - target) as u64)) / (target as u64);
                if p > 0x7fff_ffff {
                    0x7fff_ffff
                } else {
                    p as i64
                }
            };
            adjustment = adjustment - penalty;
        }
        if self.cpu_usage < cfg.cpu_threshold_low && 2 * (self.frame_drop_rate as u64) < (
        cfg.frame_drop_threshold as u64) && measured < target {
            adjustment = adjustment + 2;
        }
        assert(adjustment == raw_adjustment(cfg, self.cpu_usage, self.frame_drop_rate, measured, target));
        assert(-0x8000_0010 <= adjustment <= 2);
        let adj_wide: i128 = adjustment as i128;
        let factor_wide: i128 = cfg.adjustment_factor as i128;
        assert(-0x8000_0010 * 0x1_0000_0000 <= adj_wide * factor_wide <= 2 * 0x1_0000_0000) by (nonlinear_arith)
            requires
                -0x8000_0010 <= adj_wide <= 2,
                0 <= factor_wide < 0x1_0000_0000,
        ;
        let product: i128 = adj_wide * factor_wide;
        let divided: i128 = if product >= 0 {
            product / 1000
        } else {
            0 - ((0 - product) / 1000)
        };
        let scaled: i128 = if divided < -0x8000_0000 {
            -0x8000_0000
        } else if divided > 0x7fff_ffff {
            0x7fff_ffff
        } else {
            divided
        };
        let v: i128 = self.current_quality as i128 + scaled;
        let v1: i128 = if v < cfg.min_quality as i128 {
            cfg.min_quality as i128
        } else {
            v
        };
        let v2: i128 = if v1 > cfg.max_quality as i128 {
            cfg.max_quality as i128
        } else {
            v1
        };
        let new_quality = v2 as u32;
        self.current_quality = new_quality;
        push_bounded(&mut self.quality_history, new_quality, cfg.history_size);
        self.last_adjustment = Some(now);
        new_quality
    }

    /// Get the current quality setting
    pub fn get_quality(&self) -> (q: u32)
        ensures
            q == self.quality(),
    {
        self.current_quality
    }

    /// Get a smoothed quality value: the mean of the recent history (the
    /// current quality when the history is empty).
    pub fn get_smoothed_quality(&self) -> (q: u32)
        ensures
            self.history().len() == 0 ==> q == self.quality(),
            self.history().len() > 0 ==> q == mean(self.history()),
    {
        if self.quality_history.len() == 0 {
            return self.current_quality;
        }
        mean_of(&self.quality_history)
    }

    /// The mean of the recent bandwidth measurements (the current
    /// measurement when there are none).
    pub open spec fn average_bandwidth(&self) -> nat {
        if self.bandwidths().len() == 0 {
            self.bandwidth() as nat
        } else {
            mean(self.bandwidths())
        }
    }

    /// Get average bandwidth from history
    fn get_average_bandwidth(&self) -> (b: u32)
        ensures
            b == self.average_bandwidth(),
    {
        if self.bandwidth_history.len() == 0 {
            return self.network_bandwidth;
        }
        mean_of(&self.bandwidth_history)
    }

    /// Calculate bitrate (kbps) for a given resolution: the base bitrate of
    /// the resolution scaled by quality (percent), capped at 80% of the
    /// average bandwidth.
    pub fn get_bitrate_for_resolution(&self, width: u32, height: u32) -> (b: u32)
        requires
            self.wf(),
            width * height <= u32::MAX,
        ensures
            ({
                let bitrate: int = base_bitrate((width * height) as nat) * self.quality() / 100;
                let cap: int = (self.average_bandwidth() * 4 / 5) as int;
                b == if bitrate < cap {
                    bitrate
                } else {
                    cap
                }
            }),
    {
        let pixel_count = width * height;
        let base: u64 = if pixel_count > 2073600 {
            8000
        } else if pixel_count > 921600 {
            5000
        } else if pixel_count > 480000 {
            2500
        } else {
            1000
        };
        let avg = self.get_average_bandwidth();
        let cap: u64 = (avg as u64) * 4 / 5;
        let bitrate: u64 = base * (self.current_quality as u64) / 100;
        if bitrate < cap {
            bitrate as u32
        } else {
            cap as u32
        }
    }

    /// Set target latency
    pub fn set_target_latency(&mut self, latency_ms: u32)
        requires
            old(self).wf(),
        ensures
            final(self).wf(),
            final(self).target_latency() == latency_ms,
            final(self).quality() == old(self).quality(),
            final(self).history() == old(self).history(),
            final(self).bandwidths() == old(self).bandwidths(),
            final(self).settings() == old(self).settings(),
            final(self).measured_latency() == old(self).measured_latency(),
            final(self).last_adjusted() == old(self).last_adjusted(),
    {
        self.target_latency_ms = latency_ms;
    }

    /// Set the current quality directly, brought into the configured range.
    pub fn set_quality(&mut self, quality: u32)
        requires
            old(self).wf(),
        ensures
            final(self).wf(),
            final(self).quality() == clamp(
                quality as int,
                old(self).settings().min_quality as int,
                old(self).settings().max_quality as int,
            ),
            final(self).cpu() == old(self).cpu(),
            final(self).bandwidth() == old(self).bandwidth(),
            final(self).drop_rate() == old(self).drop_rate(),
            final(self).history() == old(self).history(),
            final(self).bandwidths() == old(self).bandwidths(),
            final(self).settings() == old(self).settings(),
            final(self).target_latency() == old(self).target_latency(),
            final(self).measured_latency() == old(self).measured_latency(),
            final(self).last_adjusted() == old(self).last_adjusted(),
    {
        let q1 = if quality < self.config.min_quality {
            self.config.min_quality
        } else {
            quality
        };
        self.current_quality = if q1 > self.config.max_quality {
            self.config.max_quality
        } else {
            q1
        };
    }

    /// Update configuration; the current quality is brought into the new
    /// range.
    pub fn update_config(&mut self, config: QualityAdapterConfig)
        requires
            old(self).wf(),
            config.supported(),
        ensures
            final(self).wf(),
            final(self).settings() == config,
            final(self).quality() == clamp(
                old(self).quality() as int,
                config.min_quality as int,
                config.max_quality as int,
            ),
            final(self).history() == old(self).history(),
            final(self).bandwidths() == old(self).bandwidths(),
            final(self).target_latency() == old(self).target_latency(),
            final(self).measured_latency() == old(self).measured_latency(),
            final(self).last_adjusted() == old(self).last_adjusted(),
    {
        self.config = config;
        let q1 = if self.current_quality < config.min_quality {
            config.min_quality
        } else {
            self.current_quality
        };
        self.current_quality = if q1 > config.max_quality {
            config.max_quality
        } else {
            q1
        };
    }

    /// Whether the encoder parameters of `codec` are defined for the current
    /// quality and latency target.
    pub fn can_generate_params(&self, codec: VideoCodec) -> (b: bool)
        ensures
            b == params_defined(codec, self.quality(), self.target_latency()),
    {
        match codec {
            VideoCodec::H264 => self.current_quality / 2 <= 51 && self.target_latency_ms <= 0x7fff_ffff,
            _ => (self.current_quality as u64 * 63) / 100 <= 63,
        }
    }

    /// Generate FFmpeg parameters based on current quality settings
    pub fn generate_ffmpeg_params(&self, config: &ScreenCaptureConfig) -> (params: Vec<String>)
        requires
            params_defined(config.codec, self.quality(), self.target_latency()),
        ensures
            string_views(params@) == encoder_params(
                config.codec,
                self.quality(),
                self.measured_latency(),
                self.target_latency(),
                config.bitrate,
                config.keyframe_interval,
            ),
    {
        let mut params: Vec<String> = Vec::new();
        let q = self.current_quality;
        match config.codec {
            VideoCodec::H264 => {
                let crf = 51 - (q / 2);
                push_text(&mut params, "-crf");
                push_number(&mut params, crf as u64);
                let preset = if self.measured_latency_ms > self.target_latency_ms * 2 {
                    "ultrafast"
                } else if q < 30 {
                    "superfast"
                } else if q < 60 {
                    "veryfast"
                } else {
                    "medium"
                };
                push_text(&mut params, "-preset");
                push_text(&mut params, preset);
                push_text(&mut params, "-tune");
                push_text(&mut params, "zerolatency");
            },
            VideoCodec::VP8 => {
                let qp = 63 - ((q as u64) * 63 / 100);
                push_text(&mut params, "-qmin");
                push_number(&mut params, qp);
                push_text(&mut params, "-qmax");
                push_number(&mut params, if qp + 10 > 63 { 63 } else { qp + 10 });
            },
            VideoCodec::VP9 => {
                let crf = 63 - ((q as u64) * 63 / 100);
                push_text(&mut params, "-crf");
                push_number(&mut params, crf);
                push_text(&mut params, "-speed");
                push_number(&mut params, if q < 30 { 8 } else if q < 60 { 6 } else { 4 });
            },
            VideoCodec::AV1 => {
                let crf = 63 - ((q as u64) * 63 / 100);
                push_text(&mut params, "-crf");
                push_number(&mut params, crf);
                push_text(&mut params, "-cpu-used");
                push_number(&mut params, if q < 30 { 8 } else if q < 60 { 6 } else { 4 });
            },
        }
        assert(string_views(params@) =~= codec_params(
            config.codec,
            q,
            self.measured_latency_ms,
            self.target_latency_ms,
        ));
        let ghost codec_part = string_views(params@);
        if let Some(target_bitrate) = config.bitrate {
            push_text(&mut params, "-b:v");
            let digits = u64_to_decimal(target_bitrate as u64);
            let with_unit = concat(digits.as_str(), "k");
            let ghost before = string_views(params@);
            params.push(with_unit);
            assert(string_views(params@) =~= before.push(decimal(target_bitrate as nat) + "k"@));
            assert(string_views(params@) =~= codec_part + seq!["-b:v"@, decimal(target_bitrate as nat) + "k"@]);
        } else {
            assert(string_views(params@) =~= codec_part + Seq::<Seq<char>>::empty());
        }
        let ghost with_rate = string_views(params@);
        push_text(&mut params, "-g");
        push_number(&mut params, config.keyframe_interval as u64);
        assert(string_views(params@) =~= with_rate + seq!["-g"@, decimal(config.keyframe_interval as nat)]);
        params
    }
}

// ---------------------------------------------------------------------------
// Laws of adaptation
// ---------------------------------------------------------------------------

/// An adjustment always leaves the quality within the configured range.
pub proof fn law_adjusted_quality_in_range(
    cfg: QualityAdapterConfig,
    current: u32,
    cpu: u32,
    drop_rate: u32,
    measured: u32,
    target: u32,
)
    requires
        cfg.min_quality <= cfg.max_quality,
    ensures
        cfg.min_quality <= adjusted_quality(cfg, current, cpu, drop_rate, measured, target) <= cfg.max_quality,
{
}

/// An adjustment moves the quality the way the measurements call for: down
/// (or not at all) when they call for less, up (or not at all) when they
/// call for more, and nowhere when they call for nothing.
pub proof fn law_adjustment_follows_measurements(
    cfg: QualityAdapterConfig,
    current: u32,
    cpu: u32,
    drop_rate: u32,
    measured: u32,
    target: u32,
)
    requires
        cfg.min_quality <= current <= cfg.max_quality,
    ensures
        raw_adjustment(cfg, cpu, drop_rate, measured, target) < 0 ==> adjusted_quality(
            cfg,
            current,
            cpu,
            drop_rate,
            measured,
            target,
        ) <= current,
        raw_adjustment(cfg, cpu, drop_rate, measured, target) > 0 ==> adjusted_quality(
            cfg,
            current,
            cpu,
            drop_rate,
            measured,
            target,
        ) >= current,
        raw_adjustment(cfg, cpu, drop_rate, measured, target) == 0 ==> adjusted_quality(
            cfg,
            current,
            cpu,
            drop_rate,
            measured,
            target,
        ) == current,
{
    let raw = raw_adjustment(cfg, cpu, drop_rate, measured, target);
    let f = cfg.adjustment_factor as int;
    if raw < 0 {
        assert(raw * f <= 0) by (nonlinear_arith)
            requires
                raw < 0,
                f >= 0,
        ;
        assert((-(raw * f)) / 1000 >= 0) by (nonlinear_arith)
            requires
                raw * f <= 0,
        ;
    } else if raw > 0 {
        assert(raw * f >= 0) by (nonlinear_arith)
            requires
                raw > 0,
                f >= 0,
        ;
        assert((raw * f) / 1000 >= 0) by (nonlinear_arith)
            requires
                raw * f >= 0,
        ;
    } else {
        assert(raw * f == 0) by (nonlinear_arith)
            requires
                raw == 0,
        ;
    }
}

/// When latency is not prioritized, the measured latency and its target
/// play no part in an adjustment unless the CPU is below its low threshold
/// (where a low latency is one of the conditions for raising quality):
/// two adjustments that differ only in latency agree.
pub proof fn law_latency_ignored_unless_prioritized(
    cfg: QualityAdapterConfig,
    current: u32,
    cpu: u32,
    drop_rate: u32,
    measured1: u32,
    target1: u32,
    measured2: u32,
    target2: u32,
)
    requires
        !cfg.prioritize_latency,
        cpu >= cfg.cpu_threshold_low,
    ensures
        adjusted_quality(cfg, current, cpu, drop_rate, measured1, target1) == adjusted_quality(
            cfg,
            current,
            cpu,
            drop_rate,
            measured2,
            target2,
        ),
{
    assert(raw_adjustment(cfg, cpu, drop_rate, measured1, target1) == raw_adjustment(
        cfg,
        cpu,
        drop_rate,
        measured2,
        target2,
    ));
}

/// When latency is not prioritized, a CPU load between the thresholds and
/// frame drops within theirs leave the quality where it is, whatever the
/// measured latency and its target.
pub proof fn law_steady_load_keeps_quality(
    cfg: QualityAdapterConfig,
    current: u32,
    cpu: u32,
    drop_rate: u32,
    measured: u32,
    target: u32,
)
    requires
        !cfg.prioritize_latency,
        cfg.cpu_threshold_low <= cpu <= cfg.cpu_threshold_high,
        drop_rate <= cfg.frame_drop_threshold,
        cfg.min_quality <= current <= cfg.max_quality,
    ensures
        adjusted_quality(cfg, current, cpu, drop_rate, measured, target) == current,
{
    assert(raw_adjustment(cfg, cpu, drop_rate, measured, target) == 0);
    law_adjustment_follows_measurements(cfg, current, cpu, drop_rate, measured, target);
}

/// A larger picture never gets a smaller base bitrate.
pub proof fn law_base_bitrate_grows_with_resolution(p1: nat, p2: nat)
    requires
        p1 <= p2,
    ensures
        base_bitrate(p1) <= base_bitrate(p2),
{
}

/// A higher quality never gets a lower bitrate, for the same resolution and
/// bandwidth.
pub proof fn law_bitrate_grows_with_quality(pixels: nat, q1: u32, q2: u32, cap: int)
    requires
        q1 <= q2,
    ensures
        ({
            let b1: int = base_bitrate(pixels) * q1 / 100;
            let b2: int = base_bitrate(pixels) * q2 / 100;
            (if b1 < cap {
                b1
            } else {
                cap
            }) <= (if b2 < cap {
                b2
            } else {
                cap
            })
        }),
{
    let base = base_bitrate(pixels) as int;
    assert(base * q1 <= base * q2) by (nonlinear_arith)
        requires
            0 <= base,
            q1 <= q2,
    ;
    assert((base * q1) / 100 <= (base * q2) / 100) by (nonlinear_arith)
        requires
            0 <= base * q1 <= base * q2,
    ;
}

/// A history of at most `size` entries stays so after a push (for a size
/// of at least one), and ends with the value pushed.
pub proof fn law_history_stays_bounded(h: Seq<u32>, x: u32, size: nat)
    requires
        size >= 1,
        h.len() <= size,
    ensures
        bounded_push(h, x, size).len() <= size,
        bounded_push(h, x, size).last() == x,
{
}

} // verus!
