//! Monitor discovery: parsing what `xrandr --listmonitors`, `wlr-randr` and
//! `swaymsg -t get_outputs` report, and choosing among the Wayland sources.
use vstd::prelude::*;
use crate::screen_capture::error::{ScreenCaptureError, ScreenCaptureErrorKind};
use crate::screen_capture::types::{MonitorInfo, MonitorView, monitor_views, opt_text};
use crate::screen_capture::utils::CommandResult;
use crate::text::{
    all_digits, chars_of, concat, contains, contains_chars, decode_lossy, ends_with, ends_with_chars,
    is_float_literal, is_float_text, lines, occurs_at, owned, parse_i32, parse_i32_spec, parse_u32, parse_u32_spec,
    split_chars, split_lines, split_on, split_whitespace, starts_with, starts_with_chars, string_of,
    sub_vec, tokens, trim, trim_chars, utf8_lossy, views,
};

verus! {

pub open spec fn opt_monitor_view(o: Option<MonitorInfo>) -> Option<MonitorView> {
    match o {
        Some(m) => Some(m@),
        None => None,
    }
}

/// A monitor with the given name, index and no known geometry.
pub open spec fn blank_monitor(index: usize, name: Seq<char>) -> MonitorView {
    MonitorView {
        index,
        name,
        width: 0,
        height: 0,
        refresh_rate: None,
        primary: false,
        x_offset: 0,
        y_offset: 0,
    }
}

/// The monitor assumed when none can be detected: 1920x1080 at 60 Hz,
/// primary, at the origin.
pub open spec fn fallback_monitor(name: Seq<char>) -> MonitorView {
    MonitorView {
        index: 0,
        name,
        width: 1920,
        height: 1080,
        refresh_rate: Some("60"@),
        primary: true,
        x_offset: 0,
        y_offset: 0,
    }
}

fn make_fallback_monitor(name: &str) -> (m: MonitorInfo)
    ensures
        m@ == fallback_monitor(name@),
{
    MonitorInfo {
        index: 0,
        name: owned(name),
        width: 1920,
        height: 1080,
        refresh_rate: Some(owned("60")),
        primary: true,
        x_offset: 0,
        y_offset: 0,
    }
}

/// `str::parse::<i32>` falling back to zero.
pub open spec fn parse_or_zero(s: Seq<char>) -> i32 {
    match parse_i32_spec(s) {
        Some(v) => v,
        None => 0,
    }
}

fn parse_i32_or_zero(s: &[char]) -> (v: i32)
    ensures
        v == parse_or_zero(s@),
{
    match parse_i32(s) {
        Some(v) => v,
        None => 0,
    }
}

// ---------------------------------------------------------------------------
// xrandr --listmonitors
// ---------------------------------------------------------------------------

pub open spec fn strip_trailing_colon(s: Seq<char>) -> Seq<char> {
    if s.len() > 0 && s.last() == ':' {
        s.drop_last()
    } else {
        s
    }
}

/// The offsets in the fourth field when it reads like `WxH+X+Y` and a fifth
/// field follows; zero otherwise (and for unreadable numbers).
pub open spec fn listmonitors_position(parts: Seq<Seq<char>>) -> (i32, i32) {
    if parts.len() >= 5 && contains(parts[3], seq!['+']) {
        let pp = split_on(parts[3], '+');
        if pp.len() >= 3 {
            (parse_or_zero(pp[1]), parse_or_zero(pp[2]))
        } else {
            (0, 0)
        }
    } else {
        (0, 0)
    }
}

/// The monitor a line of `xrandr --listmonitors` describes: at least four
/// fields, the second the name (a trailing `:` removed), the third
/// dimensions whose part before any `/` reads `WIDTHxHEIGHT`.
pub open spec fn listmonitors_entry(line: Seq<char>, index: usize) -> Option<MonitorView> {
    let parts = tokens(line);
    if parts.len() >= 4 {
        let dims = split_on(parts[2], '/');
        let res = split_on(dims[0], 'x');
        if res.len() >= 2 && parse_u32_spec(res[0]) is Some && parse_u32_spec(res[1]) is Some {
            let pos = listmonitors_position(parts);
            Some(
                MonitorView {
                    index,
                    name: strip_trailing_colon(parts[1]),
                    width: parse_u32_spec(res[0])->0,
                    height: parse_u32_spec(res[1])->0,
                    refresh_rate: None,
                    primary: contains(line, "primary"@),
                    x_offset: pos.0,
                    y_offset: pos.1,
                },
            )
        } else {
            None
        }
    } else {
        None
    }
}

/// Monitors described by lines `1..n` (the first line is a header); line `k`
/// describes monitor `k - 1`.
pub open spec fn listmonitors_upto(ls: Seq<Seq<char>>, n: nat) -> Seq<MonitorView>
    decreases n,
{
    if n <= 1 {
        Seq::empty()
    } else {
        let prev = listmonitors_upto(ls, (n - 1) as nat);
        match listmonitors_entry(ls[n - 1], (n - 2) as usize) {
            Some(m) => prev.push(m),
            None => prev,
        }
    }
}

/// The monitors `xrandr --listmonitors` output describes, or the fallback
/// monitor named "Default" when it describes none.
pub open spec fn x11_monitors_spec(text: Seq<char>) -> Seq<MonitorView> {
    let ls = lines(text);
    let ms = listmonitors_upto(ls, ls.len());
    if ms.len() == 0 {
        seq![fallback_monitor("Default"@)]
    } else {
        ms
    }
}

fn strip_colon_vec(s: &Vec<char>) -> (r: Vec<char>)
    ensures
        r@ == strip_trailing_colon(s@),
{
    if s.len() > 0 && s[s.len() - 1] == ':' {
        sub_vec(s, 0, s.len() - 1)
    } else {
        sub_vec(s, 0, s.len())
    }
}

fn listmonitors_line(line: &Vec<char>, index: usize) -> (m: Option<MonitorInfo>)
    ensures
        opt_monitor_view(m) == listmonitors_entry(line@, index),
{
    let parts = split_whitespace(line);
    if parts.len() < 4 {
        return None;
    }
    let dims = split_chars(&parts[2], '/');
    let res = split_chars(&dims[0], 'x');
    if res.len() < 2 {
        return None;
    }
    let w = parse_u32(&res[0]);
    let h = parse_u32(&res[1]);
    match (w, h) {
        (Some(width), Some(height)) => {
            let mut x_offset: i32 = 0;
            let mut y_offset: i32 = 0;
            if parts.len() >= 5 && contains_chars(&parts[3], &['+']) {
                proof {
                    assert(['+']@ =~= seq!['+']);
                }
                let pp = split_chars(&parts[3], '+');
                if pp.len() >= 3 {
                    x_offset = parse_i32_or_zero(&pp[1]);
                    y_offset = parse_i32_or_zero(&pp[2]);
                }
            } else {
                proof {
                    assert(['+']@ =~= seq!['+']);
                }
            }
            let name = strip_colon_vec(&parts[1]);
            let primary_word = chars_of("primary");
            let primary = contains_chars(line, &primary_word);
            Some(
                MonitorInfo {
                    index,
                    name: string_of(&name),
                    width,
                    height,
                    refresh_rate: None,
                    primary,
                    x_offset,
                    y_offset,
                },
            )
        },
        _ => None,
    }
}

/// Monitors from the output of `xrandr --listmonitors`; the fallback monitor
/// "Default" when none can be read from it.
pub fn parse_x11_monitors(output: &[u8]) -> (monitors: Vec<MonitorInfo>)
    ensures
        monitor_views(monitors@) == x11_monitors_spec(utf8_lossy(output@)),
{
    let text = decode_lossy(output);
    let chars = chars_of(text.as_str());
    let ls = split_lines(&chars);
    let mut monitors: Vec<MonitorInfo> = Vec::new();
    let mut k: usize = 1;
    while k < ls.len()
        invariant
            views(ls@) == lines(chars@),
            1 <= k,
            k <= ls@.len() || k == 1,
            monitor_views(monitors@) == listmonitors_upto(views(ls@), k as nat),
        decreases ls.len() - k,
    {
        let entry = listmonitors_line(&ls[k], k - 1);
        let ghost before = monitor_views(monitors@);
        match entry {
            Some(m) => {
                monitors.push(m);
                assert(monitor_views(monitors@) =~= before.push(m@));
            },
            None => {},
        }
        k = k + 1;
    }
    proof {
        if ls@.len() == 0 {
            assert(listmonitors_upto(views(ls@), 0) =~= Seq::<MonitorView>::empty());
        }
        assert(views(ls@).len() == ls@.len());
        if ls@.len() > 0 {
            assert(k == ls@.len());
        } else {
            assert(listmonitors_upto(views(ls@), 1) =~= Seq::<MonitorView>::empty());
        }
        assert(monitor_views(monitors@) == listmonitors_upto(views(ls@), views(ls@).len()));
        assert(monitor_views(monitors@).len() == monitors@.len());
        assert(chars@ == utf8_lossy(output@));
    }
    if monitors.len() == 0 {
        let mut v: Vec<MonitorInfo> = Vec::new();
        v.push(make_fallback_monitor("Default"));
        assert(monitor_views(v@) =~= seq![fallback_monitor("Default"@)]);
        v
    } else {
        monitors
    }
}

// ---------------------------------------------------------------------------
// wlr-randr
// ---------------------------------------------------------------------------

/// A "current" line giving the resolution as its second field.
pub open spec fn wlr_apply_current(m: MonitorView, line: Seq<char>) -> MonitorView {
    let parts = tokens(line);
    if parts.len() >= 2 && parts[0] == "current"@ {
        let d = split_on(parts[1], 'x');
        if d.len() >= 2 && parse_u32_spec(d[0]) is Some && parse_u32_spec(d[1]) is Some {
            MonitorView { width: parse_u32_spec(d[0])->0, height: parse_u32_spec(d[1])->0, ..m }
        } else {
            m
        }
    } else {
        m
    }
}

/// The first of `toks` that ends with "Hz".
pub open spec fn first_hz_token(toks: Seq<Seq<char>>) -> Option<Seq<char>>
    decreases toks.len(),
{
    if toks.len() == 0 {
        None
    } else if ends_with(toks[0], "Hz"@) {
        Some(toks[0])
    } else {
        first_hz_token(toks.drop_first())
    }
}

/// `s` without any number of trailing "Hz".
pub open spec fn strip_hz(s: Seq<char>) -> Seq<char>
    decreases s.len(),
{
    if s.len() >= 2 && ends_with(s, "Hz"@) {
        strip_hz(s.take(s.len() - 2))
    } else {
        s
    }
}

/// A line with a field ending in "Hz": the number before the unit becomes
/// the refresh rate when it reads as a decimal number.
pub open spec fn wlr_apply_refresh(m: MonitorView, line: Seq<char>) -> MonitorView {
    match first_hz_token(tokens(line)) {
        Some(tok) => if is_float_literal(strip_hz(tok)) {
            MonitorView { refresh_rate: Some(strip_hz(tok)), ..m }
        } else {
            m
        },
        None => m,
    }
}

/// A "position" line giving `X,Y` as its second field.
pub open spec fn wlr_apply_position(m: MonitorView, line: Seq<char>) -> MonitorView {
    let parts = tokens(line);
    if parts.len() >= 2 && parts[0] == "position"@ {
        let p = split_on(parts[1], ',');
        if p.len() >= 2 {
            MonitorView { x_offset: parse_or_zero(p[0]), y_offset: parse_or_zero(p[1]), ..m }
        } else {
            m
        }
    } else {
        m
    }
}

pub open spec fn apply_opt(cur: Option<MonitorView>, f: spec_fn(MonitorView) -> MonitorView) -> Option<MonitorView> {
    match cur {
        Some(m) => Some(f(m)),
        None => None,
    }
}

pub open spec fn push_opt(ms: Seq<MonitorView>, cur: Option<MonitorView>) -> Seq<MonitorView> {
    match cur {
        Some(m) => ms.push(m),
        None => ms,
    }
}

/// One line of wlr-randr output: a line that does not start with a space
/// names a new monitor; indented lines describe the monitor being read.
pub open spec fn wlr_step(
    st: (Seq<MonitorView>, Option<MonitorView>, nat),
    line: Seq<char>,
) -> (Seq<MonitorView>, Option<MonitorView>, nat) {
    let (ms, cur, idx) = st;
    if !starts_with(line, " "@) {
        (push_opt(ms, cur), Some(blank_monitor(idx as usize, trim(line))), idx + 1)
    } else if contains(line, "current"@) {
        (ms, apply_opt(cur, |m: MonitorView| wlr_apply_current(m, line)), idx)
    } else if contains(line, "Hz"@) {
        (ms, apply_opt(cur, |m: MonitorView| wlr_apply_refresh(m, line)), idx)
    } else if contains(line, "position"@) {
        (ms, apply_opt(cur, |m: MonitorView| wlr_apply_position(m, line)), idx)
    } else if contains(line, "primary"@) {
        (ms, apply_opt(cur, |m: MonitorView| MonitorView { primary: true, ..m }), idx)
    } else {
        (ms, cur, idx)
    }
}

pub open spec fn wlr_fold(ls: Seq<Seq<char>>, n: nat) -> (Seq<MonitorView>, Option<MonitorView>, nat)
    decreases n,
{
    if n == 0 {
        (Seq::empty(), None, 0)
    } else {
        wlr_step(wlr_fold(ls, (n - 1) as nat), ls[n - 1])
    }
}

/// The monitors wlr-randr output describes; none when it describes none.
pub open spec fn wlr_monitors_spec(text: Seq<char>) -> Option<Seq<MonitorView>> {
    let ls = lines(text);
    let (ms, cur, _) = wlr_fold(ls, ls.len());
    let all = push_opt(ms, cur);
    if all.len() == 0 {
        None
    } else {
        Some(all)
    }
}

fn apply_current(m: MonitorInfo, line: &Vec<char>) -> (r: MonitorInfo)
    ensures
        r@ == wlr_apply_current(m@, line@),
{
    let parts = split_whitespace(line);
    if parts.len() >= 2 && eq_word(&parts[0], "current") {
        let d = split_chars(&parts[1], 'x');
        if d.len() >= 2 {
            match (parse_u32(&d[0]), parse_u32(&d[1])) {
                (Some(width), Some(height)) => {
                    return MonitorInfo { width, height, ..m };
                },
                _ => {},
            }
        }
    }
    m
}

fn eq_word(a: &Vec<char>, w: &str) -> (b: bool)
    ensures
        b == (a@ == w@),
{
    let s = string_of(a);
    crate::text::str_eq(s.as_str(), w)
}

fn strip_hz_vec(s: &Vec<char>) -> (r: Vec<char>)
    ensures
        r@ == strip_hz(s@),
{
    let hz = chars_of("Hz");
    let mut end = s.len();
    let mut cur = sub_vec(s, 0, end);
    assert(cur@ =~= s@);
    while cur.len() >= 2 && ends_with_chars(&cur, &hz)
        invariant
            hz@ == "Hz"@,
            end <= s@.len(),
            cur@ == s@.take(end as int),
            strip_hz(s@) == strip_hz(cur@),
        decreases end,
    {
        end = end - 2;
        let next = sub_vec(s, 0, end);
        assert(next@ =~= cur@.take(cur@.len() - 2));
        cur = next;
    }
    cur
}

fn apply_refresh(m: MonitorInfo, line: &Vec<char>) -> (r: MonitorInfo)
    ensures
        r@ == wlr_apply_refresh(m@, line@),
{
    let toks = split_whitespace(line);
    let hz = chars_of("Hz");
    let mut i: usize = 0;
    assert(views(toks@).skip(0) =~= views(toks@));
    while i < toks.len()
        invariant
            hz@ == "Hz"@,
            views(toks@) == tokens(line@),
            i <= toks@.len(),
            first_hz_token(views(toks@)) == first_hz_token(views(toks@).skip(i as int)),
        decreases toks.len() - i,
    {
        if ends_with_chars(&toks[i], &hz) {
            assert(views(toks@).skip(i as int)[0] == toks@[i as int]@);
            assert(first_hz_token(views(toks@).skip(i as int)) == Some(toks@[i as int]@));
            assert(first_hz_token(tokens(line@)) == Some(toks@[i as int]@));
            let r = strip_hz_vec(&toks[i]);
            if is_float_text(&r) {
                return MonitorInfo { refresh_rate: Some(string_of(&r)), ..m };
            } else {
                return m;
            }
        }
        assert(views(toks@).skip(i as int).drop_first() =~= views(toks@).skip(i as int + 1));
        i = i + 1;
    }
    assert(views(toks@).skip(i as int).len() == 0);
    m
}

fn apply_position(m: MonitorInfo, line: &Vec<char>) -> (r: MonitorInfo)
    ensures
        r@ == wlr_apply_position(m@, line@),
{
    let parts = split_whitespace(line);
    if parts.len() >= 2 && eq_word(&parts[0], "position") {
        let p = split_chars(&parts[1], ',');
        if p.len() >= 2 {
            let x = parse_i32_or_zero(&p[0]);
            let y = parse_i32_or_zero(&p[1]);
            return MonitorInfo { x_offset: x, y_offset: y, ..m };
        }
    }
    m
}

fn has_word(line: &Vec<char>, w: &str) -> (b: bool)
    ensures
        b == contains(line@, w@),
{
    let wv = chars_of(w);
    contains_chars(line, &wv)
}

/// Monitors from the output of `wlr-randr`; an error when it describes none.
pub fn parse_wlr_randr_output(output: &[u8]) -> (res: Result<Vec<MonitorInfo>, ScreenCaptureError>)
    ensures
        match wlr_monitors_spec(utf8_lossy(output@)) {
            Some(ms) => res matches Ok(v) && monitor_views(v@) == ms,
            None => res matches Err(e) && e.kind() == ScreenCaptureErrorKind::DisplayServerError
                && e.detail() == "No monitors detected from wlr-randr"@,
        },
{
    let text = decode_lossy(output);
    let chars = chars_of(text.as_str());
    let ls = split_lines(&chars);
    let ghost lsv = views(ls@);
    let mut monitors: Vec<MonitorInfo> = Vec::new();
    let mut current: Option<MonitorInfo> = None;
    let mut index: usize = 0;
    let space = chars_of(" ");
    let mut k: usize = 0;
    while k < ls.len()
        invariant
            lsv == views(ls@),
            space@ == " "@,
            k <= ls@.len(),
            index <= k,
            ({
                let (ms, cur, idx) = wlr_fold(lsv, k as nat);
                &&& monitor_views(monitors@) == ms
                &&& opt_monitor_view(current) == cur
                &&& index == idx
            }),
        decreases ls.len() - k,
    {
        let line = &ls[k];
        assert(lsv[k as int] == line@);
        if !starts_with_chars(line, &space) {
            let ghost before = monitor_views(monitors@);
            match current {
                Some(m) => {
                    monitors.push(m);
                    assert(monitor_views(monitors@) =~= before.push(m@));
                },
                None => {},
            }
            let name = trim_chars(line);
            current = Some(
                MonitorInfo {
                    index,
                    name: string_of(&name),
                    width: 0,
                    height: 0,
                    refresh_rate: None,
                    primary: false,
                    x_offset: 0,
                    y_offset: 0,
                },
            );
            index = index + 1;
        } else if has_word(line, "current") {
            current = match current {
                Some(m) => Some(apply_current(m, line)),
                None => None,
            };
        } else if has_word(line, "Hz") {
            current = match current {
                Some(m) => Some(apply_refresh(m, line)),
                None => None,
            };
        } else if has_word(line, "position") {
            current = match current {
                Some(m) => Some(apply_position(m, line)),
                None => None,
            };
        } else if has_word(line, "primary") {
            current = match current {
                Some(m) => Some(MonitorInfo { primary: true, ..m }),
                None => None,
            };
        }
        k = k + 1;
    }
    let ghost before = monitor_views(monitors@);
    match current {
        Some(m) => {
            monitors.push(m);
            assert(monitor_views(monitors@) =~= before.push(m@));
        },
        None => {},
    }
    if monitors.len() == 0 {
        Err(ScreenCaptureError::DisplayServerError(owned("No monitors detected from wlr-randr")))
    } else {
        Ok(monitors)
    }
}

// ---------------------------------------------------------------------------
// swaymsg -t get_outputs
// ---------------------------------------------------------------------------

/// The `rect` object of an output in swaymsg's JSON: each field as read
/// with `as_u64` / `as_i64` (absent when missing or of another type).
#[derive(Debug, Clone, Copy, PartialEq, Eq, Structural)]
pub struct SwayRect {
    pub width: Option<u64>,
    pub height: Option<u64>,
    pub x: Option<i64>,
    pub y: Option<i64>,
}

/// One element of the array swaymsg reports: `name` as a string, `active`
/// and `primary` as booleans, `rect` as an object, `refresh` as a number
/// (written in decimal); each absent when missing or of another type.
#[derive(Debug)]
pub struct SwayOutput {
    pub name: Option<String>,
    pub active: Option<bool>,
    pub primary: Option<bool>,
    pub rect: Option<SwayRect>,
    pub refresh: Option<String>,
}

pub open spec fn u64_or_zero(o: Option<u64>) -> u64 {
    match o {
        Some(v) => v,
        None => 0,
    }
}

pub open spec fn i64_or_zero(o: Option<i64>) -> i64 {
    match o {
        Some(v) => v,
        None => 0,
    }
}

/// The monitor an output at position `index` describes: a named, active
/// output with a rectangle (sizes and offsets truncated to 32 bits).
pub open spec fn sway_entry(o: SwayOutput, index: usize) -> Option<MonitorView> {
    match (o.name, o.active) {
        (Some(name), Some(active)) => if !active {
            None
        } else {
            match o.rect {
                Some(r) => Some(
                    MonitorView {
                        index,
                        name: name@,
                        width: u64_or_zero(r.width) as u32,
                        height: u64_or_zero(r.height) as u32,
                        refresh_rate: opt_text(o.refresh),
                        primary: o.primary == Some(true),
                        x_offset: i64_or_zero(r.x) as i32,
                        y_offset: i64_or_zero(r.y) as i32,
                    },
                ),
                None => None,
            }
        },
        _ => None,
    }
}

pub open spec fn sway_upto(outs: Seq<SwayOutput>, n: nat) -> Seq<MonitorView>
    decreases n,
{
    if n == 0 {
        Seq::empty()
    } else {
        let prev = sway_upto(outs, (n - 1) as nat);
        match sway_entry(outs[n - 1], (n - 1) as usize) {
            Some(m) => prev.push(m),
            None => prev,
        }
    }
}

fn sway_monitor(o: SwayOutput, index: usize) -> (m: Option<MonitorInfo>)
    ensures
        opt_monitor_view(m) == sway_entry(o, index),
{
    match (o.name, o.active) {
        (Some(name), Some(active)) => {
            if !active {
                return None;
            }
            match o.rect {
                Some(r) => {
                    let w: u64 = match r.width {
                        Some(v) => v,
                        None => 0,
                    };
                    let h: u64 = match r.height {
                        Some(v) => v,
                        None => 0,
                    };
                    let x: i64 = match r.x {
                        Some(v) => v,
                        None => 0,
                    };
                    let y: i64 = match r.y {
                        Some(v) => v,
                        None => 0,
                    };
                    let primary = match o.primary {
                        Some(p) => p,
                        None => false,
                    };
                    Some(
                        MonitorInfo {
                            index,
                            name,
                            width: w as u32,
                            height: h as u32,
                            refresh_rate: o.refresh,
                            primary,
                            x_offset: x as i32,
                            y_offset: y as i32,
                        },
                    )
                },
                None => None,
            }
        },
        _ => None,
    }
}

/// Monitors from the outputs swaymsg reports (`Err` holds the rendering of a
/// JSON syntax error); an error when the text is not JSON or no output is a
/// named, active one with a rectangle.
pub fn parse_swaymsg_outputs(parsed: Result<Vec<SwayOutput>, String>) -> (res: Result<
    Vec<MonitorInfo>,
    ScreenCaptureError,
>)
    ensures
        match parsed {
            Err(msg) => res matches Err(e) && e.kind() == ScreenCaptureErrorKind::DisplayServerError
                && e.detail() == "Failed to parse swaymsg output: "@ + msg@,
            Ok(outs) => {
                let ms = sway_upto(outs@, outs@.len());
                if ms.len() == 0 {
                    res matches Err(e) && e.kind() == ScreenCaptureErrorKind::DisplayServerError
                        && e.detail() == "No active monitors detected from swaymsg"@
                } else {
                    res matches Ok(v) && monitor_views(v@) == ms
                }
            },
        },
{
    match parsed {
        Err(msg) => Err(
            ScreenCaptureError::DisplayServerError(
                concat("Failed to parse swaymsg output: ", msg.as_str()),
            ),
        ),
        Ok(outs) => {
            let ghost all = outs@;
            let mut rest = outs;
            let mut monitors: Vec<MonitorInfo> = Vec::new();
            let mut k: usize = 0;
            let n = rest.len();
            assert(all.skip(0) =~= all);
            while k < n
                invariant
                    n == all.len(),
                    k <= n,
                    rest@ == all.skip(k as int),
                    monitor_views(monitors@) == sway_upto(all, k as nat),
                decreases n - k,
            {
                let o = rest.remove(0);
                assert(o == all[k as int]);
                assert(rest@ =~= all.skip(k as int + 1));
                let ghost before = monitor_views(monitors@);
                match sway_monitor(o, k) {
                    Some(m) => {
                        monitors.push(m);
                        assert(monitor_views(monitors@) =~= before.push(m@));
                    },
                    None => {},
                }
                k = k + 1;
            }
            if monitors.len() == 0 {
                Err(ScreenCaptureError::DisplayServerError(owned("No active monitors detected from swaymsg")))
            } else {
                Ok(monitors)
            }
        },
    }
}

// ---------------------------------------------------------------------------
// Choosing among the Wayland sources
/// X11 monitors from a run of `xrandr --listmonitors`: a run that could not
/// start or that failed is a display server error.
pub fn x11_monitors_from(run: &CommandResult) -> (res: Result<Vec<MonitorInfo>, ScreenCaptureError>)
    ensures
        match run {
            Err(e) => res matches Err(x) && x.kind() == ScreenCaptureErrorKind::DisplayServerError && x.detail()
                == "Failed to execute xrandr: "@ + e@,
            Ok(out) => if out.success {
                res matches Ok(v) && monitor_views(v@) == x11_monitors_spec(utf8_lossy(out.stdout@))
            } else {
                res matches Err(x) && x.kind() == ScreenCaptureErrorKind::DisplayServerError && x.detail()
                    == "xrandr returned an error"@
            },
        },
{
    match run {
        Err(e) => Err(ScreenCaptureError::DisplayServerError(concat("Failed to execute xrandr: ", e.as_str()))),
        Ok(out) => {
            if !out.success {
                return Err(ScreenCaptureError::DisplayServerError(owned("xrandr returned an error")));
            }
            Ok(parse_x11_monitors(out.stdout.as_slice()))
        },
    }
}

/// X11-specific monitor detector
pub struct X11MonitorDetector;

impl X11MonitorDetector {
    /// The monitors a run of `xrandr --listmonitors` reports.
    pub fn detect_monitors(&self, run: &CommandResult) -> (res: Result<Vec<MonitorInfo>, ScreenCaptureError>)
        ensures
            match run {
                Err(e) => res matches Err(x) && x.kind() == ScreenCaptureErrorKind::DisplayServerError
                    && x.detail() == "Failed to execute xrandr: "@ + e@,
                Ok(out) => if out.success {
                    res matches Ok(v) && monitor_views(v@) == x11_monitors_spec(utf8_lossy(out.stdout@))
                } else {
                    res matches Err(x) && x.kind() == ScreenCaptureErrorKind::DisplayServerError && x.detail()
                        == "xrandr returned an error"@
                },
            },
    {
        x11_monitors_from(run)
    }
}

// ---------------------------------------------------------------------------

/// Which Wayland monitor list is used: wlr-randr's when it ran successfully,
/// else swaymsg's when it ran successfully, else a single generic monitor
/// "Wayland-0" when `WAYLAND_DISPLAY` is set to a nonblank value.
pub open spec fn wayland_choice(
    wlr_output: Option<Seq<u8>>,
    sway_ran: bool,
    display_value: Option<Seq<u8>>,
) -> nat {
    if wlr_output is Some {
        0
    } else if sway_ran {
        1
    } else if display_value matches Some(d) && trim(utf8_lossy(d)).len() > 0 {
        2
    } else {
        3
    }
}

pub open spec fn opt_bytes(o: Option<Vec<u8>>) -> Option<Seq<u8>> {
    match o {
        Some(v) => Some(v@),
        None => None,
    }
}

/// Wayland monitors from the sources tried in turn: the output of
/// `wlr-randr` when it succeeded, the outputs of `swaymsg` when it
/// succeeded, and the value of `WAYLAND_DISPLAY` as echoed by a shell.
pub fn wayland_monitors_from(
    wlr_output: Option<Vec<u8>>,
    sway: Option<Result<Vec<SwayOutput>, String>>,
    display_value: Option<Vec<u8>>,
) -> (res: Result<Vec<MonitorInfo>, ScreenCaptureError>)
    ensures
        ({
            let choice = wayland_choice(opt_bytes(wlr_output), sway is Some, opt_bytes(display_value));
            &&& choice == 0 ==> match wlr_monitors_spec(utf8_lossy(wlr_output->0@)) {
                Some(ms) => res matches Ok(v) && monitor_views(v@) == ms,
                None => res matches Err(e) && e.kind() == ScreenCaptureErrorKind::DisplayServerError
                    && e.detail() == "No monitors detected from wlr-randr"@,
            }
            &&& choice == 2 ==> (res matches Ok(v) && monitor_views(v@) == seq![fallback_monitor("Wayland-0"@)])
            &&& choice == 3 ==> (res matches Err(e) && e.kind() == ScreenCaptureErrorKind::DisplayServerError
                && e.detail() == "Failed to detect Wayland monitors"@)
        }),
        wlr_output is None && sway is Some ==> match sway->0 {
            Err(msg) => res matches Err(e) && e.kind() == ScreenCaptureErrorKind::DisplayServerError
                && e.detail() == "Failed to parse swaymsg output: "@ + msg@,
            Ok(outs) => {
                let ms = sway_upto(outs@, outs@.len());
                if ms.len() == 0 {
                    res matches Err(e) && e.kind() == ScreenCaptureErrorKind::DisplayServerError
                        && e.detail() == "No active monitors detected from swaymsg"@
                } else {
                    res matches Ok(v) && monitor_views(v@) == ms
                }
            },
        },
{
    if let Some(out) = wlr_output {
        return parse_wlr_randr_output(&out);
    }
    if let Some(parsed) = sway {
        return parse_swaymsg_outputs(parsed);
    }
    if let Some(d) = display_value {
        let text = decode_lossy(&d);
        let chars = chars_of(text.as_str());
        let t = trim_chars(&chars);
        if t.len() > 0 {
            let mut v: Vec<MonitorInfo> = Vec::new();
            v.push(make_fallback_monitor("Wayland-0"));
            assert(monitor_views(v@) =~= seq![fallback_monitor("Wayland-0"@)]);
            return Ok(v);
        }
    }
    Err(ScreenCaptureError::DisplayServerError(owned("Failed to detect Wayland monitors")))
}

/// Wayland-specific monitor detector
pub struct WaylandMonitorDetector;

impl WaylandMonitorDetector {
    /// The monitors the Wayland sources report, tried in turn (see
    /// [`wayland_monitors_from`]).
    pub fn detect_monitors(
        &self,
        wlr_output: Option<Vec<u8>>,
        sway: Option<Result<Vec<SwayOutput>, String>>,
        display_value: Option<Vec<u8>>,
    ) -> (res: Result<Vec<MonitorInfo>, ScreenCaptureError>)
        ensures
            ({
                let choice = wayland_choice(opt_bytes(wlr_output), sway is Some, opt_bytes(display_value));
                &&& choice == 0 ==> match wlr_monitors_spec(utf8_lossy(wlr_output->0@)) {
                    Some(ms) => res matches Ok(v) && monitor_views(v@) == ms,
                    None => res matches Err(e) && e.kind() == ScreenCaptureErrorKind::DisplayServerError
                        && e.detail() == "No monitors detected from wlr-randr"@,
                }
                &&& choice == 2 ==> (res matches Ok(v) && monitor_views(v@) == seq![fallback_monitor("Wayland-0"@)])
                &&& choice == 3 ==> (res matches Err(e) && e.kind() == ScreenCaptureErrorKind::DisplayServerError
                    && e.detail() == "Failed to detect Wayland monitors"@)
            }),
            wlr_output is None && sway is Some ==> match sway->0 {
                Err(msg) => res matches Err(e) && e.kind() == ScreenCaptureErrorKind::DisplayServerError
                    && e.detail() == "Failed to parse swaymsg output: "@ + msg@,
                Ok(outs) => {
                    let ms = sway_upto(outs@, outs@.len());
                    if ms.len() == 0 {
                        res matches Err(e) && e.kind() == ScreenCaptureErrorKind::DisplayServerError
                            && e.detail() == "No active monitors detected from swaymsg"@
                    } else {
                        res matches Ok(v) && monitor_views(v@) == ms
                    }
                },
            },
    {
        wayland_monitors_from(wlr_output, sway, display_value)
    }
}

/// Monitor detection on X11 always offers at least one monitor to capture.
pub proof fn law_x11_detection_never_empty(text: Seq<char>)
    ensures
        x11_monitors_spec(text).len() >= 1,
{
}


proof fn lemma_split_without_sep(a: Seq<char>, sep: char)
    requires
        !a.contains(sep),
    ensures
        split_on(a, sep) == seq![a],
    decreases a.len(),
{
    if a.len() == 0 {
        assert(a =~= Seq::<char>::empty());
    } else {
        assert(!a.drop_last().contains(sep)) by {
            if a.drop_last().contains(sep) {
                let i = choose|i: int| 0 <= i < a.drop_last().len() && a.drop_last()[i] == sep;
                assert(a[i] == sep);
            }
        }
        lemma_split_without_sep(a.drop_last(), sep);
        assert(a.last() != sep) by {
            assert(a[a.len() - 1] == a.last());
        }
        assert(a.drop_last().push(a.last()) =~= a);
    }
}

proof fn lemma_split_after_sep(p: Seq<char>, q: Seq<char>, sep: char)
    requires
        !q.contains(sep),
    ensures
        split_on(p + seq![sep] + q, sep) == split_on(p, sep).push(q),
    decreases q.len(),
{
    let s = p + seq![sep] + q;
    if q.len() == 0 {
        assert(s =~= p.push(sep));
        assert(s.drop_last() =~= p);
        assert(q =~= Seq::<char>::empty());
    } else {
        assert(!q.drop_last().contains(sep)) by {
            if q.drop_last().contains(sep) {
                let i = choose|i: int| 0 <= i < q.drop_last().len() && q.drop_last()[i] == sep;
                assert(q[i] == sep);
            }
        }
        lemma_split_after_sep(p, q.drop_last(), sep);
        assert(s.drop_last() =~= p + seq![sep] + q.drop_last());
        assert(s.last() == q.last());
        assert(q.last() != sep) by {
            assert(q[q.len() - 1] == q.last());
        }
        let prev = split_on(p, sep).push(q.drop_last());
        assert(prev.update(prev.len() - 1, prev.last().push(q.last())) =~= split_on(p, sep).push(q)) by {
            assert(q.drop_last().push(q.last()) =~= q);
        }
    }
}

/// On a line of `xrandr --listmonitors` with a fifth field, whose fourth
/// field reads `SIZE+X+Y` (no other `+`), the monitor's horizontal offset is
/// X read as a number and its vertical offset is Y read as a number, each
/// from its own part of the field.
pub proof fn law_listmonitors_offsets(line: Seq<char>, index: usize, size: Seq<char>, x: Seq<char>, y: Seq<char>)
    requires
        tokens(line).len() >= 5,
        tokens(line)[3] == size + seq!['+'] + x + seq!['+'] + y,
        !size.contains('+'),
        !x.contains('+'),
        !y.contains('+'),
    ensures
        listmonitors_position(tokens(line)) == (parse_or_zero(x), parse_or_zero(y)),
        listmonitors_entry(line, index) matches Some(m) ==> m.x_offset == parse_or_zero(x) && m.y_offset
            == parse_or_zero(y),
{
    let f = tokens(line)[3];
    lemma_split_without_sep(size, '+');
    lemma_split_after_sep(size, x, '+');
    assert(f =~= (size + seq!['+'] + x) + seq!['+'] + y);
    lemma_split_after_sep(size + seq!['+'] + x, y, '+');
    let pp = split_on(f, '+');
    assert(pp =~= seq![size, x, y]);
    assert(occurs_at(f, seq!['+'], size.len() as int)) by {
        assert(f.subrange(size.len() as int, size.len() as int + 1) =~= seq!['+']);
    }
}

} // verus!
