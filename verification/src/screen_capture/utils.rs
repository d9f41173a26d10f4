//! Helpers for screen capture: what the probes of the encoder report about
//! hardware acceleration and codecs, the encoder version, session ids and
//! the Base64 form of frames sent to the interface.
use vstd::prelude::*;
use base64::Engine as _;
use crate::screen_capture::error::{ScreenCaptureError, ScreenCaptureErrorKind};
use crate::screen_capture::types::HardwareAcceleration;
use crate::text::{
    chars_of, concat, contains, contains_chars, decimal, decode_lossy, lines, owned, split_lines,
    string_of, string_views, u64_to_decimal, utf8_lossy, views,
};

verus! {

/// What running an external command gave: whether it exited successfully,
/// and what it wrote.
#[derive(Debug)]
pub struct CommandOutput {
    pub success: bool,
    pub stdout: Vec<u8>,
    pub stderr: Vec<u8>,
}

/// The outcome of starting a command: its output, or the rendering of the
/// error that kept it from running.
pub type CommandResult = Result<CommandOutput, String>;

// ---------------------------------------------------------------------------
// Clock and randomness
// ---------------------------------------------------------------------------

/// Milliseconds on the system clock since the Unix epoch
/// (`SystemTime::elapsed` on `UNIX_EPOCH`, in whole milliseconds; zero for a
/// clock set before the epoch). The clock is read from the machine, so
/// nothing is promised of the value.
#[verifier::external_body]
pub(crate) fn clock_millis() -> u64 {
    match std::time::UNIX_EPOCH.elapsed() {
        Ok(d) => d.as_millis() as u64,
        Err(_) => 0,
    }
}

/// A random `u16` (`rand::random`); nothing is promised of the value.
#[verifier::external_body]
fn random_u16() -> u16 {
    rand::random::<u16>()
}

/// The identifier of a capture session started at `timestamp` (seconds) with
/// random tag `tag`.
pub open spec fn session_id_text(timestamp: nat, tag: nat) -> Seq<char> {
    "capture_"@ + decimal(timestamp) + "_"@ + decimal(tag)
}

/// `capture_<timestamp>_<tag>`.
pub fn session_id_from(timestamp: u64, tag: u16) -> (s: String)
    ensures
        s@ == session_id_text(timestamp as nat, tag as nat),
{
    let t = u64_to_decimal(timestamp);
    let r = u64_to_decimal(tag as u64);
    let a = concat("capture_", t.as_str());
    let b = concat(a.as_str(), "_");
    concat(b.as_str(), r.as_str())
}

/// Generate a unique identifier for a capture session, from the clock's
/// seconds and a random tag.
pub fn generate_session_id() -> (s: String)
    ensures
        exists|t: u64, r: u16| s@ == session_id_text(t as nat, r as nat),
{
    let timestamp = clock_millis() / 1000;
    let tag = random_u16();
    session_id_from(timestamp, tag)
}

// ---------------------------------------------------------------------------
// Base64
// ---------------------------------------------------------------------------

/// The character of the standard Base64 alphabet for the 6-bit value `v`.
pub open spec fn b64_char(v: nat) -> char {
    if v < 26 {
        (65 + v) as char
    } else if v < 52 {
        (97 + (v - 26)) as char
    } else if v < 62 {
        (48 + (v - 52)) as char
    } else if v == 62 {
        '+'
    } else {
        '/'
    }
}

/// Standard Base64 with padding: each group of three bytes becomes four
/// characters; a final group of one or two bytes is padded with `=`.
pub open spec fn base64_of(s: Seq<u8>) -> Seq<char>
    decreases s.len(),
{
    if s.len() == 0 {
        Seq::empty()
    } else if s.len() == 1 {
        seq![b64_char(s[0] as nat / 4), b64_char((s[0] as nat % 4) * 16), '=', '=']
    } else if s.len() == 2 {
        seq![
            b64_char(s[0] as nat / 4),
            b64_char((s[0] as nat % 4) * 16 + s[1] as nat / 16),
            b64_char((s[1] as nat % 16) * 4),
            '=',
        ]
    } else {
        seq![
            b64_char(s[0] as nat / 4),
            b64_char((s[0] as nat % 4) * 16 + s[1] as nat / 16),
            b64_char((s[1] as nat % 16) * 4 + s[2] as nat / 64),
            b64_char(s[2] as nat % 64),
        ] + base64_of(s.skip(3))
    }
}

/// `base64::engine::general_purpose::STANDARD.encode`: standard Base64 with
/// padding.
#[verifier::external_body]
pub(crate) fn base64_encode(data: &[u8]) -> (s: String)
    ensures
        s@ == base64_of(data@),
{
    base64::engine::general_purpose::STANDARD.encode(data)
}

/// Convert frame data to Base64 (the form frames take toward the interface)
pub fn frame_to_base64(data: &[u8]) -> (s: String)
    ensures
        s@ == base64_of(data@),
{
    base64_encode(data)
}

// ---------------------------------------------------------------------------
// Encoder probes
// ---------------------------------------------------------------------------

/// What the system reports about the encoder: whether the VAAPI render
/// device exists, and the outcomes of `ffmpeg -hide_banner -hwaccels` and
/// `ffmpeg -hide_banner -encoders`.
#[derive(Debug)]
pub struct EncoderReport {
    pub vaapi_device_present: bool,
    pub hwaccels: CommandResult,
    pub encoders: CommandResult,
}

pub open spec fn output_text(r: CommandOutput) -> Seq<char> {
    utf8_lossy(r.stdout@)
}

/// The outcome of a probe: `Ok(found)` when the command ran, an
/// initialization error naming what was checked when it did not.
pub open spec fn probe_outcome(run: CommandResult, needle: Seq<char>, what: Seq<char>) -> Result<bool, Seq<char>> {
    match run {
        Ok(out) => Ok(contains(output_text(out), needle)),
        Err(e) => Err("Failed to check FFmpeg "@ + what + ": "@ + e@),
    }
}

/// VAAPI is available when the render device exists and the encoder lists
/// the `vaapi` hardware acceleration.
pub open spec fn vaapi_outcome(report: EncoderReport) -> Result<bool, Seq<char>> {
    if report.vaapi_device_present {
        probe_outcome(report.hwaccels, "vaapi"@, "hwaccels"@)
    } else {
        Ok(false)
    }
}

pub open spec fn nvenc_outcome(report: EncoderReport) -> Result<bool, Seq<char>> {
    probe_outcome(report.encoders, "h264_nvenc"@, "encoders"@)
}

pub open spec fn quicksync_outcome(report: EncoderReport) -> Result<bool, Seq<char>> {
    probe_outcome(report.encoders, "h264_qsv"@, "encoders"@)
}

/// The result of a probe as the library reports it.
pub open spec fn reports_outcome(res: Result<bool, ScreenCaptureError>, outcome: Result<bool, Seq<char>>) -> bool {
    match outcome {
        Ok(b) => res == Ok::<bool, ScreenCaptureError>(b),
        Err(msg) => res matches Err(e) && e.kind() == ScreenCaptureErrorKind::InitializationFailed && e.detail()
            == msg,
    }
}

fn probe(run: &CommandResult, needle: &str, what: &str) -> (res: Result<bool, ScreenCaptureError>)
    ensures
        reports_outcome(res, probe_outcome(*run, needle@, what@)),
{
    match run {
        Ok(out) => {
            let text = decode_lossy(out.stdout.as_slice());
            let chars = chars_of(text.as_str());
            let n = chars_of(needle);
            Ok(contains_chars(&chars, &n))
        },
        Err(e) => {
            let a = concat("Failed to check FFmpeg ", what);
            let b = concat(a.as_str(), ": ");
            Err(ScreenCaptureError::InitializationFailed(concat(b.as_str(), e.as_str())))
        },
    }
}

fn check_vaapi(report: &EncoderReport) -> (res: Result<bool, ScreenCaptureError>)
    ensures
        reports_outcome(res, vaapi_outcome(*report)),
{
    if report.vaapi_device_present {
        probe(&report.hwaccels, "vaapi", "hwaccels")
    } else {
        Ok(false)
    }
}

fn check_nvenc(report: &EncoderReport) -> (res: Result<bool, ScreenCaptureError>)
    ensures
        reports_outcome(res, nvenc_outcome(*report)),
{
    probe(&report.encoders, "h264_nvenc", "encoders")
}

fn check_quicksync(report: &EncoderReport) -> (res: Result<bool, ScreenCaptureError>)
    ensures
        reports_outcome(res, quicksync_outcome(*report)),
{
    probe(&report.encoders, "h264_qsv", "encoders")
}

/// Check if a specific hardware acceleration method is available; software
/// encoding always is.
pub fn check_hardware_acceleration(method: &HardwareAcceleration, report: &EncoderReport) -> (res: Result<
    bool,
    ScreenCaptureError,
>)
    ensures
        reports_outcome(
            res,
            match *method {
                HardwareAcceleration::VAAPI => vaapi_outcome(*report),
                HardwareAcceleration::NVENC => nvenc_outcome(*report),
                HardwareAcceleration::QuickSync => quicksync_outcome(*report),
                HardwareAcceleration::NoAcceleration => Ok(true),
            },
        ),
{
    match method {
        HardwareAcceleration::VAAPI => check_vaapi(report),
        HardwareAcceleration::NVENC => check_nvenc(report),
        HardwareAcceleration::QuickSync => check_quicksync(report),
        HardwareAcceleration::NoAcceleration => Ok(true),
    }
}

/// The names of the available acceleration methods: "None" always, then
/// "VAAPI", "NVENC" and "QuickSync" as the probes find them; the first
/// failing probe's error otherwise.
pub open spec fn available_acceleration(report: EncoderReport) -> Result<Seq<Seq<char>>, Seq<char>> {
    match vaapi_outcome(report) {
        Err(e) => Err(e),
        Ok(va) => match nvenc_outcome(report) {
            Err(e) => Err(e),
            Ok(nv) => match quicksync_outcome(report) {
                Err(e) => Err(e),
                Ok(qs) => Ok(
                    seq!["None"@] + (if va {
                        seq!["VAAPI"@]
                    } else {
                        Seq::empty()
                    }) + (if nv {
                        seq!["NVENC"@]
                    } else {
                        Seq::empty()
                    }) + (if qs {
                        seq!["QuickSync"@]
                    } else {
                        Seq::empty()
                    }),
                ),
            },
        },
    }
}

/// Get available hardware acceleration methods
pub fn get_available_hardware_acceleration(report: &EncoderReport) -> (res: Result<Vec<String>, ScreenCaptureError>)
    ensures
        match available_acceleration(*report) {
            Ok(names) => res matches Ok(v) && string_views(v@) == names,
            Err(msg) => res matches Err(e) && e.kind() == ScreenCaptureErrorKind::InitializationFailed
                && e.detail() == msg,
        },
{
    let mut methods: Vec<String> = Vec::new();
    methods.push(owned("None"));
    let va = match check_vaapi(report) {
        Ok(b) => b,
        Err(e) => return Err(e),
    };
    let nv = match check_nvenc(report) {
        Ok(b) => b,
        Err(e) => return Err(e),
    };
    let qs = match check_quicksync(report) {
        Ok(b) => b,
        Err(e) => return Err(e),
    };
    let ghost s0 = string_views(methods@);
    if va {
        methods.push(owned("VAAPI"));
    }
    let ghost s1 = string_views(methods@);
    assert(s1 =~= s0 + (if va { seq!["VAAPI"@] } else { Seq::<Seq<char>>::empty() }));
    if nv {
        methods.push(owned("NVENC"));
    }
    let ghost s2 = string_views(methods@);
    assert(s2 =~= s1 + (if nv { seq!["NVENC"@] } else { Seq::<Seq<char>>::empty() }));
    if qs {
        methods.push(owned("QuickSync"));
    }
    assert(string_views(methods@) =~= s2 + (if qs { seq!["QuickSync"@] } else { Seq::<Seq<char>>::empty() }));
    assert(s0 =~= seq!["None"@]);
    Ok(methods)
}

/// The codecs an encoder list offers: H.264, VP8, VP9 and AV1 in that order,
/// each when one of its encoder names occurs; H.264 alone when none does.
pub open spec fn codecs_in(text: Seq<char>) -> Seq<Seq<char>> {
    let h264 = contains(text, " h264 "@) || contains(text, "libx264"@) || contains(text, "h264_"@);
    let vp8 = contains(text, " vp8 "@) || contains(text, "libvpx"@);
    let vp9 = contains(text, " vp9 "@) || contains(text, "libvpx-vp9"@);
    let av1 = contains(text, " av1 "@) || contains(text, "libaom-av1"@);
    let found = (if h264 {
        seq!["H264"@]
    } else {
        Seq::empty()
    }) + (if vp8 {
        seq!["VP8"@]
    } else {
        Seq::empty()
    }) + (if vp9 {
        seq!["VP9"@]
    } else {
        Seq::empty()
    }) + (if av1 {
        seq!["AV1"@]
    } else {
        Seq::empty()
    });
    if found.len() == 0 {
        seq!["H264"@]
    } else {
        found
    }
}

fn has(text: &Vec<char>, needle: &str) -> (b: bool)
    ensures
        b == contains(text@, needle@),
{
    let n = chars_of(needle);
    contains_chars(text, &n)
}

/// Get the video codecs the encoder offers, from the outcome of
/// `ffmpeg -hide_banner -encoders`.
pub fn get_available_codecs(encoders: &CommandResult) -> (res: Result<Vec<String>, ScreenCaptureError>)
    ensures
        match *encoders {
            Ok(out) => res matches Ok(v) && string_views(v@) == codecs_in(output_text(out)),
            Err(e) => res matches Err(err) && err.kind() == ScreenCaptureErrorKind::InitializationFailed
                && err.detail() == "Failed to check FFmpeg encoders: "@ + e@,
        },
{
    match encoders {
        Err(e) => Err(ScreenCaptureError::InitializationFailed(concat("Failed to check FFmpeg encoders: ", e.as_str()))),
        Ok(out) => {
            let s = decode_lossy(out.stdout.as_slice());
            let text = chars_of(s.as_str());
            let h264 = has(&text, " h264 ") || has(&text, "libx264") || has(&text, "h264_");
            let vp8 = has(&text, " vp8 ") || has(&text, "libvpx");
            let vp9 = has(&text, " vp9 ") || has(&text, "libvpx-vp9");
            let av1 = has(&text, " av1 ") || has(&text, "libaom-av1");
            let mut codecs: Vec<String> = Vec::new();
            let ghost s0 = string_views(codecs@);
            if h264 {
                codecs.push(owned("H264"));
            }
            let ghost s1 = string_views(codecs@);
            assert(s1 =~= s0 + (if h264 { seq!["H264"@] } else { Seq::<Seq<char>>::empty() }));
            if vp8 {
                codecs.push(owned("VP8"));
            }
            let ghost s2 = string_views(codecs@);
            assert(s2 =~= s1 + (if vp8 { seq!["VP8"@] } else { Seq::<Seq<char>>::empty() }));
            if vp9 {
                codecs.push(owned("VP9"));
            }
            let ghost s3 = string_views(codecs@);
            assert(s3 =~= s2 + (if vp9 { seq!["VP9"@] } else { Seq::<Seq<char>>::empty() }));
            if av1 {
                codecs.push(owned("AV1"));
            }
            assert(string_views(codecs@) =~= s3 + (if av1 { seq!["AV1"@] } else { Seq::<Seq<char>>::empty() }));
            assert(s0 =~= Seq::<Seq<char>>::empty());
            if codecs.len() == 0 {
                codecs.push(owned("H264"));
                assert(string_views(codecs@) =~= seq!["H264"@]);
            }
            Ok(codecs)
        },
    }
}

/// The encoder's version: the first line of what `ffmpeg -version` writes
/// ("Unknown version" when it writes nothing).
pub open spec fn version_text(out: CommandOutput) -> Seq<char> {
    let ls = lines(output_text(out));
    if ls.len() > 0 {
        ls[0]
    } else {
        "Unknown version"@
    }
}

/// Check that the encoder runs and get its version, from the outcome of
/// `ffmpeg -version`.
pub fn check_ffmpeg(run: &CommandResult) -> (res: Result<String, ScreenCaptureError>)
    ensures
        match *run {
            Err(e) => res matches Err(err) && err.kind() == ScreenCaptureErrorKind::InitializationFailed
                && err.detail() == "Failed to execute ffmpeg: "@ + e@ + ". Make sure FFmpeg is installed."@,
            Ok(out) => if !out.success {
                res matches Err(err) && err.kind() == ScreenCaptureErrorKind::InitializationFailed
                    && err.detail() == "FFmpeg returned an error when checking version."@
            } else {
                res matches Ok(v) && v@ == version_text(out)
            },
        },
{
    match run {
        Err(e) => {
            let a = concat("Failed to execute ffmpeg: ", e.as_str());
            Err(ScreenCaptureError::InitializationFailed(concat(a.as_str(), ". Make sure FFmpeg is installed.")))
        },
        Ok(out) => {
            if !out.success {
                return Err(ScreenCaptureError::InitializationFailed(owned("FFmpeg returned an error when checking version.")));
            }
            let s = decode_lossy(out.stdout.as_slice());
            let text = chars_of(s.as_str());
            let ls = split_lines(&text);
            if ls.len() > 0 {
                Ok(string_of(&ls[0]))
            } else {
                Ok(owned("Unknown version"))
            }
        },
    }
}

} // verus!
