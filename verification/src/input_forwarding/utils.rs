//! Monitor placement and key-mapping helpers shared by the forwarders.
use vstd::prelude::*;
use crate::input_forwarding::error::{InputForwardingError, InputForwardingErrorKind};
use crate::input_forwarding::types::MonitorConfiguration;
use crate::screen_capture::quality::{div_toward_zero, saturate_i32};
use crate::screen_capture::types::{MonitorInfo, MonitorView, monitor_views};
use crate::text::owned;

verus! {

/// `j` is the index of the first primary monitor of `ms`.
pub open spec fn is_first_primary(ms: Seq<MonitorConfiguration>, j: int) -> bool {
    &&& 0 <= j < ms.len()
    &&& ms[j].is_primary
    &&& forall|k: int| 0 <= k < j ==> !(#[trigger] ms[k]).is_primary
}

pub open spec fn has_primary(ms: Seq<MonitorConfiguration>) -> bool {
    exists|j: int| 0 <= j < ms.len() && (#[trigger] ms[j]).is_primary
}

/// The monitor that coordinates refer to: the one named by `idx` when it
/// exists, else the first primary monitor, else the first monitor.
pub open spec fn target_monitor(idx: Option<usize>, ms: Seq<MonitorConfiguration>) -> MonitorConfiguration {
    match idx {
        Some(i) if i < ms.len() => ms[i as int],
        _ => if exists|j: int| is_first_primary(ms, j) {
            ms[choose|j: int| is_first_primary(ms, j)]
        } else {
            ms[0]
        },
    }
}

/// `v` scaled by `scale` thousandths, truncated toward zero and saturated to
/// the range of `i32`.
pub open spec fn scaled(v: i32, scale: u32) -> int {
    saturate_i32(div_toward_zero(v * scale, 1000))
}

/// The absolute screen position of `(x, y)` on the target monitor: its
/// offset plus the scaled coordinates; `(x, y)` itself without monitors.
pub open spec fn absolute_position(x: i32, y: i32, idx: Option<usize>, ms: Seq<MonitorConfiguration>) -> (int, int) {
    if ms.len() == 0 {
        (x as int, y as int)
    } else {
        let t = target_monitor(idx, ms);
        (t.x_offset + scaled(x, t.scale_factor), t.y_offset + scaled(y, t.scale_factor))
    }
}

/// The absolute position of `(x, y)` fits the range of `i32`.
pub open spec fn placement_fits(x: i32, y: i32, idx: Option<usize>, ms: Seq<MonitorConfiguration>) -> bool {
    let p = absolute_position(x, y, idx, ms);
    &&& i32::MIN <= p.0 <= i32::MAX
    &&& i32::MIN <= p.1 <= i32::MAX
}

fn first_primary(monitors: &[MonitorConfiguration]) -> (res: Option<usize>)
    ensures
        match res {
            Some(j) => is_first_primary(monitors@, j as int),
            None => !has_primary(monitors@),
        },
{
    let mut i: usize = 0;
    while i < monitors.len()
        invariant
            i <= monitors@.len(),
            forall|k: int| 0 <= k < i ==> !(#[trigger] monitors@[k]).is_primary,
        decreases monitors.len() - i,
    {
        if monitors[i].is_primary {
            return Some(i);
        }
        i = i + 1;
    }
    None
}

fn target_of(monitor_index: Option<usize>, monitors: &[MonitorConfiguration]) -> (t: MonitorConfiguration)
    requires
        monitors@.len() > 0,
    ensures
        t == target_monitor(monitor_index, monitors@),
{
    if let Some(idx) = monitor_index {
        if idx < monitors.len() {
            return monitors[idx];
        }
    }
    match first_primary(monitors) {
        Some(j) => {
            proof {
                let c = choose|k: int| is_first_primary(monitors@, k);
                assert(is_first_primary(monitors@, c));
                if c < j {
                    assert(!monitors@[c].is_primary);
                }
                if j < c {
                    assert(!monitors@[j as int].is_primary);
                }
            }
            monitors[j]
        },
        None => monitors[0],
    }
}

fn scale_coordinate(v: i32, scale: u32) -> (r: i32)
    ensures
        r == scaled(v, scale),
{
    let vw: i64 = v as i64;
    let sw: i64 = scale as i64;
    assert(-0x8000_0000 * 0xffff_ffff <= vw * sw <= 0x7fff_ffff * 0xffff_ffff) by (nonlinear_arith)
        requires
            -0x8000_0000 <= vw <= 0x7fff_ffff,
            0 <= sw <= 0xffff_ffff,
    ;
    let p: i64 = vw * sw;
    let d: i64 = if p >= 0 {
        p / 1000
    } else {
        0 - ((0 - p) / 1000)
    };
    if d < -0x8000_0000 {
        -0x8000_0000
    } else if d > 0x7fff_ffff {
        0x7fff_ffff
    } else {
        d as i32
    }
}

/// Calculate the absolute position on screen of `(x, y)` given on monitor
/// `monitor_index`.
pub fn calculate_absolute_position(
    x: i32,
    y: i32,
    monitor_index: Option<usize>,
    monitors: &[MonitorConfiguration],
) -> (p: (i32, i32))
    requires
        placement_fits(x, y, monitor_index, monitors@),
    ensures
        (p.0 as int, p.1 as int) == absolute_position(x, y, monitor_index, monitors@),
{
    if monitors.len() == 0 {
        return (x, y);
    }
    let t = target_of(monitor_index, monitors);
    let sx = scale_coordinate(x, t.scale_factor);
    let sy = scale_coordinate(y, t.scale_factor);
    (t.x_offset + sx, t.y_offset + sy)
}

/// The absolute position of `(x, y)` on the target monitor, computed wide
/// enough that it cannot overflow.
pub(crate) fn position_wide(
    x: i32,
    y: i32,
    monitor_index: Option<usize>,
    monitors: &[MonitorConfiguration],
) -> (p: (i64, i64))
    requires
        monitors@.len() > 0,
    ensures
        (p.0 as int, p.1 as int) == absolute_position(x, y, monitor_index, monitors@),
{
    let t = target_of(monitor_index, monitors);
    let sx = scale_coordinate(x, t.scale_factor);
    let sy = scale_coordinate(y, t.scale_factor);
    (t.x_offset as i64 + sx as i64, t.y_offset as i64 + sy as i64)
}

/// The placement of the `i`-th detected monitor: its offsets and size, a
/// scale of one, primary when it is the first.
pub open spec fn layout_of(i: int, m: MonitorView) -> MonitorConfiguration {
    MonitorConfiguration {
        index: i as usize,
        x_offset: m.x_offset,
        y_offset: m.y_offset,
        width: m.width as i32,
        height: m.height as i32,
        scale_factor: 1000,
        is_primary: i == 0,
    }
}

/// The monitor layout for input forwarding from the detected monitors.
pub fn monitor_layout(monitors: &Vec<MonitorInfo>) -> (layout: Vec<MonitorConfiguration>)
    ensures
        layout@.len() == monitors@.len(),
        forall|i: int| 0 <= i < layout@.len() ==> #[trigger] layout@[i] == layout_of(i, monitor_views(monitors@)[i]),
{
    let mut layout: Vec<MonitorConfiguration> = Vec::new();
    let mut i: usize = 0;
    while i < monitors.len()
        invariant
            i <= monitors@.len(),
            layout@.len() == i,
            forall|k: int| 0 <= k < i ==> #[trigger] layout@[k] == layout_of(k, monitor_views(monitors@)[k]),
        decreases monitors.len() - i,
    {
        let m = &monitors[i];
        assert(monitor_views(monitors@)[i as int] == m@);
        layout.push(
            MonitorConfiguration {
                index: i,
                x_offset: m.x_offset,
                y_offset: m.y_offset,
                width: m.width as i32,
                height: m.height as i32,
                scale_factor: 1000,
                is_primary: i == 0,
            },
        );
        i = i + 1;
    }
    layout
}

/// Validate a monitor configuration: it must name at least one monitor, and
/// at least one primary monitor.
pub fn validate_monitor_config(monitors: &[MonitorConfiguration]) -> (res: Result<(), InputForwardingError>)
    ensures
        monitors@.len() == 0 ==> (res matches Err(e) && e.is(
            InputForwardingErrorKind::MonitorConfigError,
            "Empty monitor configuration"@,
        )),
        monitors@.len() > 0 && !has_primary(monitors@) ==> (res matches Err(e) && e.is(
            InputForwardingErrorKind::MonitorConfigError,
            "No primary monitor defined"@,
        )),
        monitors@.len() > 0 && has_primary(monitors@) ==> res is Ok,
{
    if monitors.len() == 0 {
        return Err(InputForwardingError::MonitorConfigError(owned("Empty monitor configuration")));
    }
    match first_primary(monitors) {
        Some(_) => Ok(()),
        None => Err(InputForwardingError::MonitorConfigError(owned("No primary monitor defined"))),
    }
}

/// Create a key mapping for the codes `range_start..range_end`, each code
/// paired with the name `formatter` gives it.
pub fn create_numeric_key_mapping<F>(range_start: u32, range_end: u32, formatter: F) -> (res: Vec<(u32, String)>) where
    F: Fn(u32) -> String,

    requires
        forall|i: u32| range_start <= i < range_end ==> formatter.requires((i,)),
    ensures
        res@.len() == (if range_start < range_end {
            range_end - range_start
        } else {
            0
        }),
        forall|k: int|
            0 <= k < res@.len() ==> (#[trigger] res@[k]).0 == range_start + k && formatter.ensures(
                (res@[k].0,),
                res@[k].1,
            ),
{
    let mut res: Vec<(u32, String)> = Vec::new();
    let mut i: u32 = range_start;
    while i < range_end
        invariant
            range_start <= i,
            i <= range_end || (range_end <= range_start && i == range_start),
            res@.len() == i - range_start,
            forall|j: u32| range_start <= j < range_end ==> formatter.requires((j,)),
            forall|k: int|
                0 <= k < res@.len() ==> (#[trigger] res@[k]).0 == range_start + k && formatter.ensures(
                    (res@[k].0,),
                    res@[k].1,
                ),
        decreases range_end - i,
    {
        let name = formatter(i);
        res.push((i, name));
        i = i + 1;
    }
    res
}

/// On a monitor at the origin with a scale of one, positions are screen
/// positions.
pub proof fn law_unscaled_origin_is_identity(x: i32, y: i32, idx: Option<usize>, ms: Seq<MonitorConfiguration>)
    requires
        ms.len() > 0,
        target_monitor(idx, ms).x_offset == 0,
        target_monitor(idx, ms).y_offset == 0,
        target_monitor(idx, ms).scale_factor == 1000,
    ensures
        absolute_position(x, y, idx, ms) == (x as int, y as int),
{
    assert(div_toward_zero(x * 1000, 1000) == x) by (nonlinear_arith);
    assert(div_toward_zero(y * 1000, 1000) == y) by (nonlinear_arith);
}

} // verus!
