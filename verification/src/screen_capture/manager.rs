//! The screen capture manager: which display server is in use, the monitors
//! and the configuration, whether capture runs, and the checks and buffer
//! updates that starting capture and changing its configuration make. The
//! capturer process itself is run by the caller.
use vstd::prelude::*;
use crate::screen_capture::buffer::{DropMode, StreamBuffer, BYTES_PER_MB};
use crate::screen_capture::config::{is_default_config, ScreenCaptureConfig};
use crate::screen_capture::error::{ScreenCaptureError, ScreenCaptureErrorKind};
use crate::screen_capture::types::{monitor_views, DisplayServer, FrameData, MonitorInfo, MonitorView};
use crate::text::{concat, decimal, owned, u64_to_decimal};

verus! {

/// Which display server is in use, from the `WAYLAND_DISPLAY` and `DISPLAY`
/// variables of the environment (`None` when unset): Wayland when the first
/// is set and not empty, else X11 when the second is.
pub fn display_server_from(wayland_display: Option<&str>, display: Option<&str>) -> (res: Result<
    DisplayServer,
    ScreenCaptureError,
>)
    ensures
        wayland_display matches Some(w) && w@.len() > 0 ==> res == Ok::<DisplayServer, ScreenCaptureError>(
            DisplayServer::Wayland,
        ),
        !(wayland_display matches Some(w) && w@.len() > 0) && (display matches Some(d) && d@.len() > 0) ==> res
            == Ok::<DisplayServer, ScreenCaptureError>(DisplayServer::X11),
        !(wayland_display matches Some(w) && w@.len() > 0) && !(display matches Some(d) && d@.len() > 0) ==> (
        res matches Err(e) && e.kind() == ScreenCaptureErrorKind::DisplayServerError && e.detail()
            == "No supported display server detected"@),
{
    if let Some(w) = wayland_display {
        if !w.is_empty() {
            return Ok(DisplayServer::Wayland);
        }
    }
    if let Some(d) = display {
        if !d.is_empty() {
            return Ok(DisplayServer::X11);
        }
    }
    Err(ScreenCaptureError::DisplayServerError(owned("No supported display server detected")))
}

/// The stream buffer for a capture at `fps` frames per second: three
/// seconds of frames, 10 MiB, dropping the oldest frame when full.
pub fn stream_buffer_for(fps: u32) -> (b: StreamBuffer)
    requires
        0 < fps,
        fps * 3 <= u32::MAX,
    ensures
        b.wf(),
        b.frames() == Seq::<FrameData>::empty(),
        b.max_frames() == fps * 3,
        b.byte_limit() == 10 * BYTES_PER_MB,
        b.mode() == DropMode::DropOldest,
        b.frame_rate() == fps,
{
    StreamBuffer::new((fps * 3) as usize, 10, fps, DropMode::DropOldest)
}

/// `Monitor index <index> out of bounds (0-<last>)`.
pub open spec fn out_of_bounds_text(index: usize, count: usize) -> Seq<char> {
    "Monitor index "@ + decimal(index as nat) + " out of bounds (0-"@ + decimal((count - 1) as nat) + ")"@
}

/// The error for a monitor index that is not below the number of monitors.
fn out_of_bounds(index: usize, count: usize) -> (e: ScreenCaptureError)
    requires
        count > 0,
    ensures
        e.kind() == ScreenCaptureErrorKind::InvalidMonitor,
        e.detail() == out_of_bounds_text(index, count),
{
    let i = u64_to_decimal(index as u64);
    let last = u64_to_decimal((count - 1) as u64);
    let a = concat("Monitor index ", i.as_str());
    let b = concat(a.as_str(), " out of bounds (0-");
    let c = concat(b.as_str(), last.as_str());
    ScreenCaptureError::InvalidMonitor(concat(c.as_str(), ")"))
}

fn copy_monitor(m: &MonitorInfo) -> (r: MonitorInfo)
    ensures
        r@ == m@,
{
    MonitorInfo {
        index: m.index,
        name: owned(m.name.as_str()),
        width: m.width,
        height: m.height,
        refresh_rate: match &m.refresh_rate {
            Some(r) => Some(owned(r.as_str())),
            None => None,
        },
        primary: m.primary,
        x_offset: m.x_offset,
        y_offset: m.y_offset,
    }
}

fn copy_monitors(v: &Vec<MonitorInfo>) -> (r: Vec<MonitorInfo>)
    ensures
        monitor_views(r@) == monitor_views(v@),
{
    let mut r: Vec<MonitorInfo> = Vec::new();
    let mut i: usize = 0;
    while i < v.len()
        invariant
            i <= v@.len(),
            monitor_views(r@) == monitor_views(v@).take(i as int),
        decreases v.len() - i,
    {
        let m = copy_monitor(&v[i]);
        let ghost before = r@;
        r.push(m);
        assert(monitor_views(r@) =~= monitor_views(before).push(m@));
        assert(monitor_views(v@).take(i as int + 1) =~= monitor_views(v@).take(i as int).push(v@[i as int]@));
        i = i + 1;
    }
    assert(monitor_views(v@).take(v@.len() as int) =~= monitor_views(v@));
    r
}

/// Screen capture manager
pub struct ScreenCaptureManager {
    /// Current display server type
    display_server: DisplayServer,
    /// Screen capture configuration
    config: ScreenCaptureConfig,
    /// Available monitors
    monitors: Vec<MonitorInfo>,
    /// Whether capture is running
    running: bool,
}

impl ScreenCaptureManager {
    pub closed spec fn server(&self) -> DisplayServer {
        self.display_server
    }

    pub closed spec fn settings(&self) -> ScreenCaptureConfig {
        self.config
    }

    pub closed spec fn monitor_list(&self) -> Seq<MonitorView> {
        monitor_views(self.monitors@)
    }

    pub closed spec fn capturing(&self) -> bool {
        self.running
    }

    #[verifier::type_invariant]
    spec fn supported_server(&self) -> bool {
        self.display_server != DisplayServer::Unknown
    }

    /// Create a manager for `display_server` with the monitors it lists,
    /// the default configuration, and capture stopped.
    pub fn new(display_server: DisplayServer, monitors: Vec<MonitorInfo>) -> (res: Result<Self, ScreenCaptureError>)
        ensures
            display_server == DisplayServer::Unknown ==> (res matches Err(e) && e.kind()
                == ScreenCaptureErrorKind::DisplayServerError && e.detail() == "Unsupported display server"@),
            display_server != DisplayServer::Unknown ==> (res matches Ok(m) && m.server() == display_server
                && m.monitor_list() == monitor_views(monitors@) && is_default_config(m.settings()) && !m.capturing()),
    {
        if display_server == DisplayServer::Unknown {
            return Err(ScreenCaptureError::DisplayServerError(owned("Unsupported display server")));
        }
        Ok(ScreenCaptureManager { display_server, config: ScreenCaptureConfig::default(), monitors, running: false })
    }

    /// Get detected display server
    pub fn get_display_server(&self) -> (d: DisplayServer)
        ensures
            d == self.server(),
    {
        self.display_server
    }

    /// Get available monitors
    pub fn get_monitors(&self) -> (v: Vec<MonitorInfo>)
        ensures
            monitor_views(v@) == self.monitor_list(),
    {
        copy_monitors(&self.monitors)
    }

    /// The capture configuration.
    pub fn config(&self) -> (c: &ScreenCaptureConfig)
        ensures
            *c == self.settings(),
    {
        &self.config
    }

    /// Whether capture is running
    pub fn is_running(&self) -> (b: bool)
        ensures
            b == self.capturing(),
    {
        self.running
    }

    /// The frame rate configured.
    pub fn fps(&self) -> (f: u32)
        ensures
            f == self.settings().fps,
    {
        self.config.fps
    }

    /// Replace the monitor list with a fresh listing.
    pub fn refresh_monitors(&mut self, monitors: Vec<MonitorInfo>) -> (res: Result<(), ScreenCaptureError>)
        ensures
            res is Ok,
            final(self).monitor_list() == monitor_views(monitors@),
            final(self).server() == old(self).server(),
            final(self).settings() == old(self).settings(),
            final(self).capturing() == old(self).capturing(),
    {
        proof {
            use_type_invariant(&*self);
        }
        self.monitors = monitors;
        Ok(())
    }

    /// Update the capture configuration: its monitor must exist; the buffer
    /// takes a changed frame rate. Returns whether capture runs, in which
    /// case the caller stops the capturer and then the manager, so that
    /// capture restarts with the new configuration.
    pub fn update_config(&mut self, config: ScreenCaptureConfig, buffer: &mut StreamBuffer) -> (res: Result<
        bool,
        ScreenCaptureError,
    >)
        requires
            old(buffer).wf(),
            old(self).monitor_list().len() > 0,
            config.fps != old(self).settings().fps ==> config.fps > 0,
        ensures
            final(buffer).wf(),
            config.monitor_index >= old(self).monitor_list().len() ==> (res matches Err(e) && e.kind()
                == ScreenCaptureErrorKind::InvalidMonitor && e.detail() == out_of_bounds_text(
                config.monitor_index,
                old(self).monitor_list().len() as usize,
            ) && *final(self) == *old(self) && *final(buffer) == *old(buffer)),
            config.monitor_index < old(self).monitor_list().len() ==> (res == Ok::<bool, ScreenCaptureError>(
                old(self).capturing(),
            ) && final(self).settings() == config && final(self).capturing() == old(self).capturing() && final(self).server()
                == old(self).server() && final(self).monitor_list() == old(self).monitor_list()
                && final(buffer).frame_rate() == (if config.fps != old(self).settings().fps {
                config.fps
            } else {
                old(buffer).frame_rate()
            }) && final(buffer).frames() == old(buffer).frames()
                && final(buffer).counters() == old(buffer).counters() && final(buffer).max_frames()
                == old(buffer).max_frames() && final(buffer).byte_limit() == old(buffer).byte_limit()
                && final(buffer).mode() == old(buffer).mode()),
    {
        proof {
            use_type_invariant(&*self);
        }
        if config.monitor_index >= self.monitors.len() {
            return Err(out_of_bounds(config.monitor_index, self.monitors.len()));
        }
        if self.config.fps != config.fps {
            buffer.set_fps(config.fps);
        }
        self.config = config;
        Ok(self.running)
    }

    /// Start capture: nothing when it already runs (`None`); otherwise it is
    /// marked running, the configured monitor must exist, the buffer is
    /// emptied, and the monitor to capture is returned.
    pub fn start_capture(&mut self, buffer: &mut StreamBuffer) -> (res: Result<Option<MonitorInfo>, ScreenCaptureError>)
        requires
            old(buffer).wf(),
            old(self).monitor_list().len() > 0,
        ensures
            final(buffer).wf(),
            final(self).capturing(),
            final(self).settings() == old(self).settings(),
            final(self).server() == old(self).server(),
            final(self).monitor_list() == old(self).monitor_list(),
            old(self).capturing() ==> (res matches Ok(None) && *final(buffer) == *old(buffer)),
            !old(self).capturing() && old(self).settings().monitor_index >= old(self).monitor_list().len() ==> (
            res matches Err(e) && e.kind() == ScreenCaptureErrorKind::InvalidMonitor && e.detail()
                == out_of_bounds_text(old(self).settings().monitor_index, old(self).monitor_list().len() as usize)
                && *final(buffer) == *old(buffer)),
            !old(self).capturing() && old(self).settings().monitor_index < old(self).monitor_list().len() ==> (
            res matches Ok(Some(m)) && m@ == old(self).monitor_list()[old(self).settings().monitor_index as int]
                && final(buffer).frames() == Seq::<FrameData>::empty() && final(buffer).frame_rate()
                == old(buffer).frame_rate() && final(buffer).max_frames() == old(buffer).max_frames()
                && final(buffer).byte_limit() == old(buffer).byte_limit() && final(buffer).mode()
                == old(buffer).mode()),
    {
        proof {
            use_type_invariant(&*self);
        }
        if self.running {
            return Ok(None);
        }
        self.running = true;
        let index = self.config.monitor_index;
        if index >= self.monitors.len() {
            return Err(out_of_bounds(index, self.monitors.len()));
        }
        let monitor = copy_monitor(&self.monitors[index]);
        buffer.clear();
        Ok(Some(monitor))
    }

    /// Stop capture.
    pub fn stop_capture(&mut self)
        ensures
            !final(self).capturing(),
            final(self).settings() == old(self).settings(),
            final(self).server() == old(self).server(),
            final(self).monitor_list() == old(self).monitor_list(),
    {
        proof {
            use_type_invariant(&*self);
        }
        self.running = false;
    }
}

} // verus!
