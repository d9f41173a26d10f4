//! The X11 input forwarder.
//!
//! Each input event becomes the `xdotool` invocations that replay it, in
//! order. The forwarder keeps what lasts between events: whether forwarding
//! is on, the monitor layout, and the modifier keys held down. Running the
//! invocations is left to the caller, which turns each outcome into the
//! forwarder's result with [`command_outcome`] and stops at the first
//! failure.
use vstd::prelude::*;
use crate::input_forwarding::error::{InputForwardingError, InputForwardingErrorKind};
use crate::input_forwarding::types::{
    GestureDirection, InputEvent, InputEventType, MonitorConfiguration, MouseButton, SpecialCommand, TouchGesture,
};
use crate::input_forwarding::utils::{
    absolute_position, calculate_absolute_position, has_primary, placement_fits, validate_monitor_config,
};
use crate::screen_capture::utils::CommandResult;
use crate::text::{
    char_from_ascii, concat, decimal, decimal_signed, decode_lossy, hex_upper, i64_to_decimal, owned, str_eq,
    string_of, string_views, u32_to_hex, u64_to_decimal, utf8_lossy,
};

verus! {

// ---------------------------------------------------------------------------
// Planned commands
// ---------------------------------------------------------------------------

/// One invocation of an external program.
pub struct InputCommand {
    pub program: String,
    pub args: Vec<String>,
    /// What a failure to start the program is reported as
    pub launch_context: String,
    /// What an unsuccessful exit of the program is reported as
    pub failure_context: String,
}

/// What an [`InputCommand`] holds, with its texts as character sequences.
pub struct CommandView {
    pub program: Seq<char>,
    pub args: Seq<Seq<char>>,
    pub launch: Seq<char>,
    pub failure: Seq<char>,
}

impl View for InputCommand {
    type V = CommandView;

    open spec fn view(&self) -> CommandView {
        CommandView {
            program: self.program@,
            args: string_views(self.args@),
            launch: self.launch_context@,
            failure: self.failure_context@,
        }
    }
}

/// A command to run for an event, with the modifier keys held down once the
/// event it replays has been taken into account.
pub struct PlannedCommand {
    pub command: InputCommand,
    pub modifiers: Vec<String>,
}

pub struct StepView {
    pub command: CommandView,
    pub modifiers: Seq<Seq<char>>,
}

impl View for PlannedCommand {
    type V = StepView;

    open spec fn view(&self) -> StepView {
        StepView { command: self.command@, modifiers: string_views(self.modifiers@) }
    }
}

pub open spec fn step_views(s: Seq<PlannedCommand>) -> Seq<StepView> {
    s.map_values(|p: PlannedCommand| p@)
}

/// The commands planned for an event, or the kind and description of the
/// error that rejects it.
pub type PlanResult = Result<Seq<StepView>, (InputForwardingErrorKind, Seq<char>)>;

pub open spec fn command_view(program: Seq<char>, args: Seq<Seq<char>>, launch: Seq<char>, failure: Seq<char>) -> CommandView {
    CommandView { program, args, launch, failure }
}

pub open spec fn xdotool(args: Seq<Seq<char>>, launch: Seq<char>, failure: Seq<char>) -> CommandView {
    command_view("xdotool"@, args, launch, failure)
}

pub open spec fn step(command: CommandView, modifiers: Seq<Seq<char>>) -> StepView {
    StepView { command, modifiers }
}

pub open spec fn unsupported(detail: Seq<char>) -> PlanResult {
    Err((InputForwardingErrorKind::UnsupportedEvent, detail))
}

/// `res` is what `plan` describes: the planned commands, or the error.
pub open spec fn reports_plan(res: Result<Vec<PlannedCommand>, InputForwardingError>, plan: PlanResult) -> bool {
    match plan {
        Ok(steps) => res matches Ok(v) && step_views(v@) == steps,
        Err((k, d)) => res matches Err(e) && e.is(k, d),
    }
}

/// The modifiers held once a plan has run: those of its last command, or
/// `active` when it has none.
pub open spec fn modifiers_after(plan: PlanResult, active: Seq<Seq<char>>) -> Seq<Seq<char>> {
    match plan {
        Ok(steps) => if steps.len() > 0 {
            steps.last().modifiers
        } else {
            active
        },
        Err(_) => active,
    }
}

/// The result of running `c`: a failure to start it or an unsuccessful exit
/// is a `SendEventFailed` error with the matching context and what was
/// reported.
pub open spec fn outcome_of(c: CommandView, run: CommandResult) -> Result<(), (InputForwardingErrorKind, Seq<char>)> {
    match run {
        Err(e) => Err((InputForwardingErrorKind::SendEventFailed, c.launch + ": "@ + e@)),
        Ok(out) => if out.success {
            Ok(())
        } else {
            Err((InputForwardingErrorKind::SendEventFailed, c.failure + ": "@ + utf8_lossy(out.stderr@)))
        },
    }
}

/// Turn the outcome of running a planned command into the forwarder's
/// result.
pub fn command_outcome(command: &InputCommand, run: &CommandResult) -> (res: Result<(), InputForwardingError>)
    ensures
        match outcome_of(command@, *run) {
            Ok(()) => res is Ok,
            Err((k, d)) => res matches Err(e) && e.is(k, d),
        },
{
    match run {
        Err(e) => {
            let head = concat(command.launch_context.as_str(), ": ");
            Err(InputForwardingError::SendEventFailed(concat(head.as_str(), e.as_str())))
        },
        Ok(out) => {
            if out.success {
                Ok(())
            } else {
                let head = concat(command.failure_context.as_str(), ": ");
                let stderr = decode_lossy(out.stderr.as_slice());
                Err(InputForwardingError::SendEventFailed(concat(head.as_str(), stderr.as_str())))
            }
        },
    }
}

// ---------------------------------------------------------------------------
// Key symbols
// ---------------------------------------------------------------------------

/// The X11 key symbols with names of their own, by JavaScript key code.
pub open spec fn named_key(code: u32) -> Option<Seq<char>> {
    if code == 8 {
        Some("BackSpace"@)
    } else if code == 9 {
        Some("Tab"@)
    } else if code == 13 {
        Some("Return"@)
    } else if code == 16 {
        Some("Shift_L"@)
    } else if code == 17 {
        Some("Control_L"@)
    } else if code == 18 {
        Some("Alt_L"@)
    } else if code == 19 {
        Some("Pause"@)
    } else if code == 20 {
        Some("Caps_Lock"@)
    } else if code == 27 {
        Some("Escape"@)
    } else if code == 32 {
        Some("space"@)
    } else if code == 33 {
        Some("Page_Up"@)
    } else if code == 34 {
        Some("Page_Down"@)
    } else if code == 35 {
        Some("End"@)
    } else if code == 36 {
        Some("Home"@)
    } else if code == 37 {
        Some("Left"@)
    } else if code == 38 {
        Some("Up"@)
    } else if code == 39 {
        Some("Right"@)
    } else if code == 40 {
        Some("Down"@)
    } else if code == 45 {
        Some("Insert"@)
    } else if code == 46 {
        Some("Delete"@)
    } else if code == 91 {
        Some("Super_L"@)
    } else if code == 93 {
        Some("Menu"@)
    } else if code == 106 {
        Some("KP_Multiply"@)
    } else if code == 107 {
        Some("KP_Add"@)
    } else if code == 109 {
        Some("KP_Subtract"@)
    } else if code == 110 {
        Some("KP_Decimal"@)
    } else if code == 111 {
        Some("KP_Divide"@)
    } else {
        None
    }
}

/// The X11 key symbol for a JavaScript key code: digits and lower-case
/// letters for the digit and letter keys, `F1`..`F12`, `KP_0`..`KP_9`, the
/// named keys, and `0x` with the upper-case hexadecimal code otherwise.
pub open spec fn keysym(code: u32) -> Seq<char> {
    if 48 <= code < 58 {
        seq![code as char]
    } else if 65 <= code < 91 {
        seq![(code + 32) as char]
    } else if 112 <= code < 124 {
        "F"@ + decimal((code - 111) as nat)
    } else if 96 <= code < 106 {
        "KP_"@ + decimal((code - 96) as nat)
    } else {
        match named_key(code) {
            Some(name) => name,
            None => "0x"@ + hex_upper(code as nat),
        }
    }
}

fn named_key_text(code: u32) -> (r: Option<String>)
    ensures
        match named_key(code) {
            Some(name) => r matches Some(s) && s@ == name,
            None => r is None,
        },
{
    let name = if code == 8 {
        "BackSpace"
    } else if code == 9 {
        "Tab"
    } else if code == 13 {
        "Return"
    } else if code == 16 {
        "Shift_L"
    } else if code == 17 {
        "Control_L"
    } else if code == 18 {
        "Alt_L"
    } else if code == 19 {
        "Pause"
    } else if code == 20 {
        "Caps_Lock"
    } else if code == 27 {
        "Escape"
    } else if code == 32 {
        "space"
    } else if code == 33 {
        "Page_Up"
    } else if code == 34 {
        "Page_Down"
    } else if code == 35 {
        "End"
    } else if code == 36 {
        "Home"
    } else if code == 37 {
        "Left"
    } else if code == 38 {
        "Up"
    } else if code == 39 {
        "Right"
    } else if code == 40 {
        "Down"
    } else if code == 45 {
        "Insert"
    } else if code == 46 {
        "Delete"
    } else if code == 91 {
        "Super_L"
    } else if code == 93 {
        "Menu"
    } else if code == 106 {
        "KP_Multiply"
    } else if code == 107 {
        "KP_Add"
    } else if code == 109 {
        "KP_Subtract"
    } else if code == 110 {
        "KP_Decimal"
    } else if code == 111 {
        "KP_Divide"
    } else {
        return None;
    };
    Some(owned(name))
}

fn single_char(c: char) -> (s: String)
    ensures
        s@ == seq![c],
{
    let mut v: Vec<char> = Vec::new();
    v.push(c);
    assert(v@ =~= seq![c]);
    string_of(v.as_slice())
}

/// The X11 key symbol for a JavaScript key code.
pub fn key_sym(code: u32) -> (s: String)
    ensures
        s@ == keysym(code),
{
    if 48 <= code && code < 58 {
        single_char(char_from_ascii(code))
    } else if 65 <= code && code < 91 {
        single_char(char_from_ascii(code + 32))
    } else if 112 <= code && code < 124 {
        let n = u64_to_decimal((code - 111) as u64);
        concat("F", n.as_str())
    } else if 96 <= code && code < 106 {
        let n = u64_to_decimal((code - 96) as u64);
        concat("KP_", n.as_str())
    } else {
        match named_key_text(code) {
            Some(name) => name,
            None => {
                let h = u32_to_hex(code);
                concat("0x", h.as_str())
            },
        }
    }
}

// ---------------------------------------------------------------------------
// Modifier keys
// ---------------------------------------------------------------------------

/// `s` without the entries equal to `m`.
pub open spec fn remove_all(s: Seq<Seq<char>>, m: Seq<char>) -> Seq<Seq<char>>
    decreases s.len(),
{
    if s.len() == 0 {
        s
    } else {
        let r = remove_all(s.drop_last(), m);
        if s.last() == m {
            r
        } else {
            r.push(s.last())
        }
    }
}

/// A modifier pressed joins the held ones unless already held; released, it
/// leaves them.
pub open spec fn press_modifier(active: Seq<Seq<char>>, m: Seq<char>, pressed: bool) -> Seq<Seq<char>> {
    if pressed {
        if active.contains(m) {
            active
        } else {
            active.push(m)
        }
    } else {
        remove_all(active, m)
    }
}

/// The held modifiers after the modifiers `mods` of an event, taken in
/// order.
pub open spec fn apply_modifiers(active: Seq<Seq<char>>, mods: Seq<Seq<char>>, pressed: bool) -> Seq<Seq<char>>
    decreases mods.len(),
{
    if mods.len() == 0 {
        active
    } else {
        press_modifier(apply_modifiers(active, mods.drop_last(), pressed), mods.last(), pressed)
    }
}

/// The `xdotool` name of a held modifier, if it passes one.
pub open spec fn modifier_arg(m: Seq<char>) -> Option<Seq<char>> {
    if m == "shift"@ {
        Some("shift"@)
    } else if m == "ctrl"@ {
        Some("ctrl"@)
    } else if m == "alt"@ {
        Some("alt"@)
    } else if m == "meta"@ {
        Some("super"@)
    } else {
        None
    }
}

/// The `xdotool` names of the held modifiers, in order.
pub open spec fn modifier_args(active: Seq<Seq<char>>) -> Seq<Seq<char>>
    decreases active.len(),
{
    if active.len() == 0 {
        Seq::empty()
    } else {
        let r = modifier_args(active.drop_last());
        match modifier_arg(active.last()) {
            Some(a) => r.push(a),
            None => r,
        }
    }
}

fn copy_strings(v: &Vec<String>) -> (r: Vec<String>)
    ensures
        string_views(r@) == string_views(v@),
{
    let mut r: Vec<String> = Vec::new();
    let mut i: usize = 0;
    while i < v.len()
        invariant
            i <= v@.len(),
            string_views(r@) == string_views(v@).take(i as int),
        decreases v.len() - i,
    {
        let s = owned(v[i].as_str());
        let ghost before = r@;
        r.push(s);
        assert(string_views(r@) =~= string_views(before).push(s@));
        assert(string_views(v@).take(i as int + 1) =~= string_views(v@).take(i as int).push(v@[i as int]@));
        i = i + 1;
    }
    assert(string_views(v@).take(v@.len() as int) =~= string_views(v@));
    r
}

fn contains_string(v: &Vec<String>, m: &str) -> (b: bool)
    ensures
        b == string_views(v@).contains(m@),
{
    let mut i: usize = 0;
    while i < v.len()
        invariant
            i <= v@.len(),
            forall|k: int| 0 <= k < i ==> (#[trigger] string_views(v@)[k]) != m@,
        decreases v.len() - i,
    {
        if str_eq(v[i].as_str(), m) {
            assert(string_views(v@)[i as int] == m@);
            return true;
        }
        assert(string_views(v@)[i as int] == v@[i as int]@);
        i = i + 1;
    }
    false
}

fn remove_all_strings(v: &Vec<String>, m: &str) -> (r: Vec<String>)
    ensures
        string_views(r@) == remove_all(string_views(v@), m@),
{
    let mut r: Vec<String> = Vec::new();
    let mut i: usize = 0;
    while i < v.len()
        invariant
            i <= v@.len(),
            string_views(r@) == remove_all(string_views(v@).take(i as int), m@),
        decreases v.len() - i,
    {
        let ghost s = string_views(v@).take(i as int + 1);
        assert(s.drop_last() =~= string_views(v@).take(i as int));
        assert(s.last() == v@[i as int]@);
        if !str_eq(v[i].as_str(), m) {
            let x = owned(v[i].as_str());
            let ghost before = r@;
            r.push(x);
            assert(string_views(r@) =~= string_views(before).push(x@));
        }
        i = i + 1;
    }
    assert(string_views(v@).take(v@.len() as int) =~= string_views(v@));
    r
}

fn press_modifier_exec(active: &mut Vec<String>, m: &str, pressed: bool)
    ensures
        string_views(final(active)@) == press_modifier(string_views(old(active)@), m@, pressed),
{
    if pressed {
        if !contains_string(active, m) {
            let x = owned(m);
            active.push(x);
            assert(string_views(active@) =~= string_views(old(active)@).push(m@));
        }
    } else {
        let r = remove_all_strings(active, m);
        *active = r;
    }
}

fn apply_modifiers_exec(active: &mut Vec<String>, mods: &Vec<String>, pressed: bool)
    ensures
        string_views(final(active)@) == apply_modifiers(string_views(old(active)@), string_views(mods@), pressed),
{
    let ghost start = string_views(active@);
    let mut i: usize = 0;
    while i < mods.len()
        invariant
            i <= mods@.len(),
            string_views(active@) == apply_modifiers(start, string_views(mods@).take(i as int), pressed),
        decreases mods.len() - i,
    {
        let ghost s = string_views(mods@).take(i as int + 1);
        assert(s.drop_last() =~= string_views(mods@).take(i as int));
        assert(s.last() == mods@[i as int]@);
        press_modifier_exec(active, mods[i].as_str(), pressed);
        i = i + 1;
    }
    assert(string_views(mods@).take(mods@.len() as int) =~= string_views(mods@));
}

fn modifier_args_exec(active: &Vec<String>) -> (r: Vec<String>)
    ensures
        string_views(r@) == modifier_args(string_views(active@)),
{
    let mut r: Vec<String> = Vec::new();
    let mut i: usize = 0;
    while i < active.len()
        invariant
            i <= active@.len(),
            string_views(r@) == modifier_args(string_views(active@).take(i as int)),
        decreases active.len() - i,
    {
        let ghost s = string_views(active@).take(i as int + 1);
        assert(s.drop_last() =~= string_views(active@).take(i as int));
        assert(s.last() == active@[i as int]@);
        let m = active[i].as_str();
        let arg = if str_eq(m, "shift") {
            Some("shift")
        } else if str_eq(m, "ctrl") {
            Some("ctrl")
        } else if str_eq(m, "alt") {
            Some("alt")
        } else if str_eq(m, "meta") {
            Some("super")
        } else {
            None
        };
        if let Some(a) = arg {
            let x = owned(a);
            let ghost before = r@;
            r.push(x);
            assert(string_views(r@) =~= string_views(before).push(x@));
        }
        i = i + 1;
    }
    assert(string_views(active@).take(active@.len() as int) =~= string_views(active@));
    r
}

// ---------------------------------------------------------------------------
// What each event becomes
// ---------------------------------------------------------------------------

pub open spec fn key_action(pressed: bool) -> Seq<char> {
    if pressed {
        "keydown"@
    } else {
        "keyup"@
    }
}

/// `xdotool keydown|keyup [modifiers..] keysym`.
pub open spec fn key_command(active: Seq<Seq<char>>, code: u32, pressed: bool) -> CommandView {
    xdotool(
        seq![key_action(pressed)] + modifier_args(active) + seq![keysym(code)],
        "Error executing xdotool"@,
        "xdotool "@ + key_action(pressed) + " failed"@,
    )
}

/// A key event: its modifiers update the held ones first, and the command
/// passes the updated ones.
pub open spec fn key_step(active: Seq<Seq<char>>, code: u32, pressed: bool, mods: Option<Seq<Seq<char>>>) -> StepView {
    let after = match mods {
        Some(ms) => apply_modifiers(active, ms, pressed),
        None => active,
    };
    step(key_command(after, code, pressed), after)
}

/// `xdotool mousemove x y`.
pub open spec fn move_step(active: Seq<Seq<char>>, p: (int, int)) -> StepView {
    step(
        xdotool(
            seq!["mousemove"@, decimal_signed(p.0), decimal_signed(p.1)],
            "Failed to execute xdotool"@,
            "xdotool mousemove failed"@,
        ),
        active,
    )
}

/// The `xdotool` number of a button (for the buttons that have one).
pub open spec fn button_number(b: MouseButton) -> Seq<char> {
    match b {
        MouseButton::Left => "1"@,
        MouseButton::Middle => "2"@,
        MouseButton::Right => "3"@,
        MouseButton::Back => "8"@,
        _ => "9"@,
    }
}

pub open spec fn button_action(pressed: bool) -> Seq<char> {
    if pressed {
        "mousedown"@
    } else {
        "mouseup"@
    }
}

/// `xdotool mousedown|mouseup number`.
pub open spec fn button_step(active: Seq<Seq<char>>, b: MouseButton, pressed: bool) -> StepView {
    step(
        xdotool(
            seq![button_action(pressed), button_number(b)],
            "Failed to execute xdotool"@,
            "xdotool "@ + button_action(pressed) + " failed"@,
        ),
        active,
    )
}

/// A button event: scroll buttons are refused, a tap is a left press and
/// release, a double tap a double left click.
pub open spec fn button_plan(active: Seq<Seq<char>>, b: MouseButton, pressed: bool) -> PlanResult {
    match b {
        MouseButton::ScrollUp => unsupported("Scroll events should use MouseScroll type"@),
        MouseButton::ScrollDown => unsupported("Scroll events should use MouseScroll type"@),
        MouseButton::TouchTap => Ok(
            seq![button_step(active, MouseButton::Left, true), button_step(active, MouseButton::Left, false)],
        ),
        MouseButton::TouchDoubleTap => Ok(
            seq![
                step(
                    xdotool(
                        seq!["click"@, "--repeat"@, "2"@, "1"@],
                        "Failed to execute xdotool"@,
                        "xdotool double-click failed"@,
                    ),
                    active,
                ),
            ],
        ),
        _ => Ok(seq![button_step(active, b, pressed)]),
    }
}

/// The number of clicks for a scroll of `d` thousandths of a step: the whole
/// steps (at most `i32::MAX`), and at least one.
pub open spec fn scroll_clicks(d: int) -> nat {
    let a: int = if d < 0 {
        -d
    } else {
        d
    };
    let whole: int = a / 1000;
    let c: int = if whole > i32::MAX {
        i32::MAX as int
    } else {
        whole
    };
    if c < 1 {
        1
    } else {
        c as nat
    }
}

/// `xdotool click --repeat 1 button`.
pub open spec fn scroll_step(active: Seq<Seq<char>>, button: Seq<char>) -> StepView {
    step(
        xdotool(
            seq!["click"@, "--repeat"@, "1"@, button],
            "Failed to execute scroll command"@,
            "Scroll command failed"@,
        ),
        active,
    )
}

/// One click per step, vertical first (button 5 down, 4 up), then horizontal
/// (7 right, 6 left); a zero delta scrolls nothing.
pub open spec fn scroll_plan(active: Seq<Seq<char>>, dx: int, dy: int) -> Seq<StepView> {
    let vertical = if dy != 0 {
        Seq::new(
            scroll_clicks(dy),
            |i: int|
                scroll_step(
                    active,
                    if dy > 0 {
                        "5"@
                    } else {
                        "4"@
                    },
                ),
        )
    } else {
        Seq::empty()
    };
    let horizontal = if dx != 0 {
        Seq::new(
            scroll_clicks(dx),
            |i: int|
                scroll_step(
                    active,
                    if dx > 0 {
                        "7"@
                    } else {
                        "6"@
                    },
                ),
        )
    } else {
        Seq::empty()
    };
    vertical + horizontal
}

/// The key sequence of a special command, if it has one.
pub open spec fn special_keys(c: SpecialCommand) -> Option<Seq<char>> {
    match c {
        SpecialCommand::AppSwitcher => Some("alt+Tab"@),
        SpecialCommand::DesktopToggle => Some("super+d"@),
        SpecialCommand::ScreenSnapshot => Some("Print"@),
        SpecialCommand::LockScreen => Some("super+l"@),
        SpecialCommand::Custom(_) => None,
    }
}

/// `xdotool key keys` for a special command with a key sequence; a custom
/// command runs `xdotool <text>` through `sh -c`.
pub open spec fn special_step(active: Seq<Seq<char>>, c: SpecialCommand) -> StepView {
    step(
        match c {
            SpecialCommand::Custom(text) => command_view(
                "sh"@,
                seq!["-c"@, "xdotool "@ + text@],
                "Error executing custom command"@,
                "Custom command failed"@,
            ),
            _ => xdotool(
                seq!["key"@, special_keys(c).unwrap()],
                "Error executing xdotool"@,
                "xdotool key sequence failed"@,
            ),
        },
        active,
    )
}

/// A pinch zooms: Ctrl held, `KP_Add` (zoom in) or `KP_Subtract` pressed and
/// released, Ctrl released.
pub open spec fn pinch_plan(active: Seq<Seq<char>>, zoom_in: bool) -> Seq<StepView> {
    let ctrl = seq!["ctrl"@];
    let key: u32 = if zoom_in {
        107
    } else {
        109
    };
    let s1 = key_step(active, 17, true, Some(ctrl));
    let s2 = key_step(s1.modifiers, key, true, Some(ctrl));
    let s3 = key_step(s2.modifiers, key, false, Some(ctrl));
    let s4 = key_step(s3.modifiers, 17, false, None);
    seq![s1, s2, s3, s4]
}

/// The scroll of a two-finger gesture of magnitude `m` in direction `d`.
pub open spec fn gesture_delta(d: GestureDirection, m: int) -> (int, int) {
    match d {
        GestureDirection::Left => (m, 0),
        GestureDirection::Right => (-m, 0),
        GestureDirection::Up => (0, m),
        GestureDirection::Down => (0, -m),
    }
}

/// A gesture: a two-finger scroll scrolls (magnitude 1 by default), a pinch
/// zooms, a three-finger swipe does nothing; other gestures are refused, and
/// a scroll without direction or a pinch without magnitude is incomplete.
/// Nothing is replayed while forwarding is off.
pub open spec fn gesture_plan(
    enabled: bool,
    active: Seq<Seq<char>>,
    g: TouchGesture,
    dir: Option<GestureDirection>,
    magnitude: Option<i32>,
) -> PlanResult {
    match g {
        TouchGesture::TwoFingerScroll => match dir {
            Some(d) => {
                let m: int = match magnitude {
                    Some(v) => v as int,
                    None => 1000,
                };
                let delta = gesture_delta(d, m);
                Ok(
                    if enabled {
                        scroll_plan(active, delta.0, delta.1)
                    } else {
                        Seq::empty()
                    },
                )
            },
            None => unsupported("Incomplete gesture data"@),
        },
        TouchGesture::Pinch => match magnitude {
            Some(m) => Ok(
                if enabled {
                    pinch_plan(active, m > 0)
                } else {
                    Seq::empty()
                },
            ),
            None => unsupported("Incomplete gesture data"@),
        },
        TouchGesture::ThreeFingerSwipe => Ok(Seq::empty()),
        TouchGesture::Rotate => unsupported("Unsupported gesture: Rotate"@),
        TouchGesture::FourFingerSwipe => unsupported("Unsupported gesture: FourFingerSwipe"@),
    }
}

pub open spec fn opt_views(m: Option<Vec<String>>) -> Option<Seq<Seq<char>>> {
    match m {
        Some(v) => Some(string_views(v@)),
        None => None,
    }
}

/// What forwarding an event plans while forwarding is `enabled`, with the
/// modifiers `active` held and monitors laid out as `monitors`.
pub open spec fn forward_plan(
    enabled: bool,
    active: Seq<Seq<char>>,
    monitors: Seq<MonitorConfiguration>,
    ev: InputEvent,
) -> PlanResult {
    if !enabled {
        Ok(Seq::empty())
    } else {
        match ev.event_type {
            InputEventType::MouseMove => match (ev.x, ev.y) {
                (Some(x), Some(y)) => Ok(seq![move_step(active, absolute_position(x, y, ev.monitor_index, monitors))]),
                _ => unsupported("Mouse move event missing coordinates"@),
            },
            InputEventType::MouseButton => match (ev.button, ev.is_pressed) {
                (Some(b), Some(p)) => button_plan(active, b, p),
                _ => unsupported("Mouse button event missing button or pressed state"@),
            },
            InputEventType::MouseScroll => match (ev.delta_x, ev.delta_y) {
                (Some(dx), Some(dy)) => Ok(scroll_plan(active, dx as int, dy as int)),
                _ => unsupported("Mouse scroll event missing delta values"@),
            },
            InputEventType::TouchGesture => match ev.gesture {
                Some(g) => gesture_plan(true, active, g, ev.gesture_direction, ev.gesture_magnitude),
                None => unsupported("TouchGesture event missing gesture type"@),
            },
            InputEventType::SpecialCommand => match ev.special_command {
                Some(c) => Ok(seq![special_step(active, c)]),
                None => unsupported("SpecialCommand event missing command type"@),
            },
            _ => match (ev.key_code, ev.is_pressed) {
                (Some(code), Some(p)) => Ok(seq![key_step(active, code, p, opt_views(ev.modifiers))]),
                _ => unsupported("Key event missing keyCode or pressed state"@),
            },
        }
    }
}

// ---------------------------------------------------------------------------
// Building commands
// ---------------------------------------------------------------------------

fn make_command(program: &str, args: Vec<String>, launch: &str, failure: String) -> (c: InputCommand)
    ensures
        c@ == command_view(program@, string_views(args@), launch@, failure@),
{
    InputCommand { program: owned(program), args, launch_context: owned(launch), failure_context: failure }
}

fn texts1(a: &str) -> (v: Vec<String>)
    ensures
        string_views(v@) == seq![a@],
{
    let mut v: Vec<String> = Vec::new();
    v.push(owned(a));
    assert(string_views(v@) =~= seq![a@]);
    v
}

fn texts2(a: &str, b: &str) -> (v: Vec<String>)
    ensures
        string_views(v@) == seq![a@, b@],
{
    let mut v: Vec<String> = Vec::new();
    v.push(owned(a));
    v.push(owned(b));
    assert(string_views(v@) =~= seq![a@, b@]);
    v
}

fn texts3(a: &str, b: &str, c: &str) -> (v: Vec<String>)
    ensures
        string_views(v@) == seq![a@, b@, c@],
{
    let mut v: Vec<String> = Vec::new();
    v.push(owned(a));
    v.push(owned(b));
    v.push(owned(c));
    assert(string_views(v@) =~= seq![a@, b@, c@]);
    v
}

fn texts4(a: &str, b: &str, c: &str, d: &str) -> (v: Vec<String>)
    ensures
        string_views(v@) == seq![a@, b@, c@, d@],
{
    let mut v: Vec<String> = Vec::new();
    v.push(owned(a));
    v.push(owned(b));
    v.push(owned(c));
    v.push(owned(d));
    assert(string_views(v@) =~= seq![a@, b@, c@, d@]);
    v
}

fn scroll_clicks_exec(d: i64) -> (n: u64)
    ensures
        n == scroll_clicks(d as int),
{
    let a: u64 = if d >= 0 {
        d as u64
    } else {
        ((0 - (d + 1)) as u64) + 1
    };
    let whole = a / 1000;
    let c: u64 = if whole > 0x7fff_ffff {
        0x7fff_ffff
    } else {
        whole
    };
    if c < 1 {
        1
    } else {
        c
    }
}

fn scroll_command(button: &str) -> (c: InputCommand)
    ensures
        c@ == scroll_step(Seq::empty(), button@).command,
{
    let args = texts4("click", "--repeat", "1", button);
    make_command("xdotool", args, "Failed to execute scroll command", owned("Scroll command failed"))
}

fn button_command(b: MouseButton, pressed: bool) -> (c: InputCommand)
    ensures
        c@ == button_step(Seq::empty(), b, pressed).command,
{
    let action = if pressed {
        "mousedown"
    } else {
        "mouseup"
    };
    let number = match b {
        MouseButton::Left => "1",
        MouseButton::Middle => "2",
        MouseButton::Right => "3",
        MouseButton::Back => "8",
        _ => "9",
    };
    let args = texts2(action, number);
    let head = concat("xdotool ", action);
    let failure = concat(head.as_str(), " failed");
    make_command("xdotool", args, "Failed to execute xdotool", failure)
}

fn special_command(c: &SpecialCommand) -> (cmd: InputCommand)
    ensures
        cmd@ == special_step(Seq::empty(), *c).command,
{
    match c {
        SpecialCommand::Custom(text) => {
            let line = concat("xdotool ", text.as_str());
            let args = texts2("-c", line.as_str());
            make_command("sh", args, "Error executing custom command", owned("Custom command failed"))
        },
        _ => {
            let keys = match c {
                SpecialCommand::AppSwitcher => "alt+Tab",
                SpecialCommand::DesktopToggle => "super+d",
                SpecialCommand::ScreenSnapshot => "Print",
                _ => "super+l",
            };
            let args = texts2("key", keys);
            make_command("xdotool", args, "Error executing xdotool", owned("xdotool key sequence failed"))
        },
    }
}

fn unsupported_error(detail: &str) -> (res: Result<Vec<PlannedCommand>, InputForwardingError>)
    ensures
        reports_plan(res, unsupported(detail@)),
{
    Err(InputForwardingError::UnsupportedEvent(owned(detail)))
}

fn one_step(p: PlannedCommand) -> (v: Vec<PlannedCommand>)
    ensures
        step_views(v@) == seq![p@],
{
    let mut v: Vec<PlannedCommand> = Vec::new();
    v.push(p);
    assert(step_views(v@) =~= seq![p@]);
    v
}

fn no_steps() -> (v: Vec<PlannedCommand>)
    ensures
        step_views(v@) == Seq::<StepView>::empty(),
{
    let v: Vec<PlannedCommand> = Vec::new();
    assert(step_views(v@) =~= Seq::<StepView>::empty());
    v
}

fn push_step(v: &mut Vec<PlannedCommand>, p: PlannedCommand)
    ensures
        step_views(final(v)@) == step_views(old(v)@).push(p@),
{
    v.push(p);
    assert(step_views(v@) =~= step_views(old(v)@).push(p@));
}

// ---------------------------------------------------------------------------
// The forwarder
// ---------------------------------------------------------------------------

/// The X11 input forwarder
pub struct ImprovedX11InputForwarder {
    monitors: Vec<MonitorConfiguration>,
    enabled: bool,
    active_modifiers: Vec<String>,
}

impl ImprovedX11InputForwarder {
    /// The monitor layout positions are placed in.
    pub closed spec fn monitors(&self) -> Seq<MonitorConfiguration> {
        self.monitors@
    }

    /// Whether events are forwarded.
    pub closed spec fn forwarding(&self) -> bool {
        self.enabled
    }

    /// The modifier keys held down, in the order they were pressed.
    pub closed spec fn modifiers(&self) -> Seq<Seq<char>> {
        string_views(self.active_modifiers@)
    }

    /// Forwarding `event` computes positions that fit an `i32` (a position
    /// beyond that range is an arithmetic overflow).
    pub open spec fn event_fits(&self, event: &InputEvent) -> bool {
        self.forwarding() && event.event_type == InputEventType::MouseMove && event.x is Some && event.y is Some
            ==> placement_fits(event.x->0, event.y->0, event.monitor_index, self.monitors())
    }

    /// Create a forwarder, given whether `xdotool` is installed; it starts
    /// enabled, with no monitor layout and no modifier held.
    pub fn new(xdotool_available: bool) -> (res: Result<Self, InputForwardingError>)
        ensures
            xdotool_available ==> (res matches Ok(f) && f.forwarding() && f.monitors().len() == 0
                && f.modifiers().len() == 0),
            !xdotool_available ==> (res matches Err(e) && e.is(
                InputForwardingErrorKind::InitializationFailed,
                "xdotool is required for X11 input forwarding"@,
            )),
    {
        if !xdotool_available {
            return Err(
                InputForwardingError::InitializationFailed(owned("xdotool is required for X11 input forwarding")),
            );
        }
        let f = ImprovedX11InputForwarder { monitors: Vec::new(), enabled: true, active_modifiers: Vec::new() };
        assert(f.modifiers() =~= Seq::<Seq<char>>::empty());
        Ok(f)
    }

    fn planned(&self, command: InputCommand) -> (p: PlannedCommand)
        ensures
            p@ == step(command@, self.modifiers()),
    {
        PlannedCommand { command, modifiers: copy_strings(&self.active_modifiers) }
    }

    /// Whether forwarding `event` computes positions that fit an `i32`.
    pub fn fits(&self, event: &InputEvent) -> (b: bool)
        ensures
            b == self.event_fits(event),
    {
        if !self.enabled {
            return true;
        }
        match (event.event_type, event.x, event.y) {
            (InputEventType::MouseMove, Some(x), Some(y)) => {
                if self.monitors.len() == 0 {
                    return true;
                }
                let p = crate::input_forwarding::utils::position_wide(x, y, event.monitor_index, self.monitors.as_slice());
                -0x8000_0000 <= p.0 && p.0 <= 0x7fff_ffff && -0x8000_0000 <= p.1 && p.1 <= 0x7fff_ffff
            },
            _ => true,
        }
    }

    /// A key event's step: the event's modifiers update the held ones.
    fn key_event(&mut self, code: u32, pressed: bool, mods: Option<&Vec<String>>) -> (p: PlannedCommand)
        ensures
            p@ == key_step(
                old(self).modifiers(),
                code,
                pressed,
                match mods {
                    Some(v) => Some(string_views(v@)),
                    None => None,
                },
            ),
            final(self).modifiers() == p@.modifiers,
            final(self).monitors() == old(self).monitors(),
            final(self).forwarding() == old(self).forwarding(),
    {
        if let Some(ms) = mods {
            apply_modifiers_exec(&mut self.active_modifiers, ms, pressed);
        }
        let action = if pressed {
            "keydown"
        } else {
            "keyup"
        };
        let mut args = texts1(action);
        let margs = modifier_args_exec(&self.active_modifiers);
        let mut i: usize = 0;
        while i < margs.len()
            invariant
                i <= margs@.len(),
                string_views(args@) == seq![action@] + string_views(margs@).take(i as int),
            decreases margs.len() - i,
        {
            let x = owned(margs[i].as_str());
            let ghost before = args@;
            args.push(x);
            assert(string_views(args@) =~= string_views(before).push(x@));
            assert(string_views(margs@).take(i as int + 1) =~= string_views(margs@).take(i as int).push(
                margs@[i as int]@,
            ));
            i = i + 1;
        }
        assert(string_views(margs@).take(margs@.len() as int) =~= string_views(margs@));
        let sym = key_sym(code);
        let ghost before = args@;
        args.push(sym);
        assert(string_views(args@) =~= string_views(before).push(sym@));
        let head = concat("xdotool ", action);
        let failure = concat(head.as_str(), " failed");
        let command = make_command("xdotool", args, "Error executing xdotool", failure);
        let ghost after = self.modifiers();
        assert(string_views(args@) =~= seq![key_action(pressed)] + modifier_args(after) + seq![keysym(code)]);
        assert(command@ == key_command(after, code, pressed));
        self.planned(command)
    }

    fn button_event(&self, b: MouseButton, pressed: bool) -> (res: Result<Vec<PlannedCommand>, InputForwardingError>)
        ensures
            reports_plan(res, button_plan(self.modifiers(), b, pressed)),
    {
        match b {
            MouseButton::ScrollUp => unsupported_error("Scroll events should use MouseScroll type"),
            MouseButton::ScrollDown => unsupported_error("Scroll events should use MouseScroll type"),
            MouseButton::TouchTap => {
                let p1 = self.planned(button_command(MouseButton::Left, true));
                let p2 = self.planned(button_command(MouseButton::Left, false));
                let mut v = one_step(p1);
                push_step(&mut v, p2);
                assert(step_views(v@) =~= seq![
                    button_step(self.modifiers(), MouseButton::Left, true),
                    button_step(self.modifiers(), MouseButton::Left, false),
                ]);
                Ok(v)
            },
            MouseButton::TouchDoubleTap => {
                let args = texts4("click", "--repeat", "2", "1");
                let c = make_command("xdotool", args, "Failed to execute xdotool", owned("xdotool double-click failed"));
                Ok(one_step(self.planned(c)))
            },
            _ => Ok(one_step(self.planned(button_command(b, pressed)))),
        }
    }

    fn push_clicks(&self, v: &mut Vec<PlannedCommand>, n: u64, button: &str)
        ensures
            step_views(final(v)@) == step_views(old(v)@) + Seq::new(
                n as nat,
                |i: int| scroll_step(self.modifiers(), button@),
            ),
    {
        let ghost start = step_views(v@);
        let ghost f = |i: int| scroll_step(self.modifiers(), button@);
        let mut i: u64 = 0;
        while i < n
            invariant
                i <= n,
                f == (|i: int| scroll_step(self.modifiers(), button@)),
                step_views(v@) == start + Seq::new(i as nat, f),
            decreases n - i,
        {
            let p = self.planned(scroll_command(button));
            push_step(v, p);
            assert(Seq::new((i + 1) as nat, f) =~= Seq::new(i as nat, f).push(f(i as int)));
            i = i + 1;
        }
    }

    fn scroll_event(&self, dx: i64, dy: i64) -> (v: Vec<PlannedCommand>)
        ensures
            step_views(v@) == scroll_plan(self.modifiers(), dx as int, dy as int),
    {
        let mut v: Vec<PlannedCommand> = Vec::new();
        let ghost empty = step_views(v@);
        assert(empty =~= Seq::<StepView>::empty());
        if dy != 0 {
            let button = if dy > 0 {
                "5"
            } else {
                "4"
            };
            self.push_clicks(&mut v, scroll_clicks_exec(dy), button);
        }
        let ghost after_vertical = step_views(v@);
        if dx != 0 {
            let button = if dx > 0 {
                "7"
            } else {
                "6"
            };
            self.push_clicks(&mut v, scroll_clicks_exec(dx), button);
        }
        proof {
            let active = self.modifiers();
            let vertical = if dy != 0 {
                Seq::new(scroll_clicks(dy as int), |i: int| scroll_step(active, if dy > 0 { "5"@ } else { "4"@ }))
            } else {
                Seq::<StepView>::empty()
            };
            assert(after_vertical =~= vertical);
        }
        v
    }

    fn pinch(&mut self, zoom_in: bool) -> (v: Vec<PlannedCommand>)
        ensures
            step_views(v@) == pinch_plan(old(self).modifiers(), zoom_in),
            final(self).modifiers() == modifiers_after(Ok(pinch_plan(old(self).modifiers(), zoom_in)), old(self).modifiers()),
            final(self).monitors() == old(self).monitors(),
            final(self).forwarding() == old(self).forwarding(),
    {
        let ctrl = texts1("ctrl");
        let key: u32 = if zoom_in {
            107
        } else {
            109
        };
        let s1 = self.key_event(17, true, Some(&ctrl));
        let s2 = self.key_event(key, true, Some(&ctrl));
        let s3 = self.key_event(key, false, Some(&ctrl));
        let s4 = self.key_event(17, false, None);
        let mut v = one_step(s1);
        push_step(&mut v, s2);
        push_step(&mut v, s3);
        push_step(&mut v, s4);
        assert(step_views(v@) =~= pinch_plan(old(self).modifiers(), zoom_in));
        v
    }

    /// Handle a touch gesture with optional direction and magnitude
    /// (thousandths).
    pub fn handle_gesture(
        &mut self,
        gesture: TouchGesture,
        direction: Option<GestureDirection>,
        magnitude: Option<i32>,
    ) -> (res: Result<Vec<PlannedCommand>, InputForwardingError>)
        ensures
            reports_plan(
                res,
                gesture_plan(old(self).forwarding(), old(self).modifiers(), gesture, direction, magnitude),
            ),
            final(self).modifiers() == modifiers_after(
                gesture_plan(old(self).forwarding(), old(self).modifiers(), gesture, direction, magnitude),
                old(self).modifiers(),
            ),
            final(self).monitors() == old(self).monitors(),
            final(self).forwarding() == old(self).forwarding(),
    {
        match gesture {
            TouchGesture::TwoFingerScroll => match direction {
                Some(d) => {
                    if !self.enabled {
                        return Ok(no_steps());
                    }
                    let m: i64 = match magnitude {
                        Some(v) => v as i64,
                        None => 1000,
                    };
                    let (dx, dy): (i64, i64) = match d {
                        GestureDirection::Left => (m, 0),
                        GestureDirection::Right => (0 - m, 0),
                        GestureDirection::Up => (0, m),
                        GestureDirection::Down => (0, 0 - m),
                    };
                    Ok(self.scroll_event(dx, dy))
                },
                None => unsupported_error("Incomplete gesture data"),
            },
            TouchGesture::Pinch => match magnitude {
                Some(m) => {
                    if !self.enabled {
                        return Ok(no_steps());
                    }
                    Ok(self.pinch(m > 0))
                },
                None => unsupported_error("Incomplete gesture data"),
            },
            TouchGesture::ThreeFingerSwipe => Ok(no_steps()),
            TouchGesture::Rotate => unsupported_error("Unsupported gesture: Rotate"),
            TouchGesture::FourFingerSwipe => unsupported_error("Unsupported gesture: FourFingerSwipe"),
        }
    }

    /// Handle a special system command such as Alt+Tab or Win+D.
    pub fn handle_special_command(&self, command: &SpecialCommand) -> (v: Vec<PlannedCommand>)
        ensures
            step_views(v@) == seq![special_step(self.modifiers(), *command)],
    {
        let c = special_command(command);
        one_step(self.planned(c))
    }

    /// Forward an input event: the commands that replay it, in order, or the
    /// error that rejects it; nothing while forwarding is off.
    pub fn forward_event(&mut self, event: &InputEvent) -> (res: Result<Vec<PlannedCommand>, InputForwardingError>)
        requires
            old(self).event_fits(event),
        ensures
            reports_plan(res, forward_plan(old(self).forwarding(), old(self).modifiers(), old(self).monitors(), *event)),
            final(self).modifiers() == modifiers_after(
                forward_plan(old(self).forwarding(), old(self).modifiers(), old(self).monitors(), *event),
                old(self).modifiers(),
            ),
            final(self).monitors() == old(self).monitors(),
            final(self).forwarding() == old(self).forwarding(),
    {
        if !self.enabled {
            return Ok(no_steps());
        }
        match event.event_type {
            InputEventType::MouseMove => match (event.x, event.y) {
                (Some(x), Some(y)) => {
                    let p = calculate_absolute_position(x, y, event.monitor_index, self.monitors.as_slice());
                    let sx = i64_to_decimal(p.0 as i64);
                    let sy = i64_to_decimal(p.1 as i64);
                    let args = texts3("mousemove", sx.as_str(), sy.as_str());
                    let c = make_command("xdotool", args, "Failed to execute xdotool", owned("xdotool mousemove failed"));
                    Ok(one_step(self.planned(c)))
                },
                _ => unsupported_error("Mouse move event missing coordinates"),
            },
            InputEventType::MouseButton => match (event.button, event.is_pressed) {
                (Some(b), Some(p)) => self.button_event(b, p),
                _ => unsupported_error("Mouse button event missing button or pressed state"),
            },
            InputEventType::MouseScroll => match (event.delta_x, event.delta_y) {
                (Some(dx), Some(dy)) => Ok(self.scroll_event(dx, dy)),
                _ => unsupported_error("Mouse scroll event missing delta values"),
            },
            InputEventType::TouchGesture => match event.gesture {
                Some(g) => self.handle_gesture(g, event.gesture_direction, event.gesture_magnitude),
                None => unsupported_error("TouchGesture event missing gesture type"),
            },
            InputEventType::SpecialCommand => match &event.special_command {
                Some(c) => Ok(self.handle_special_command(c)),
                None => unsupported_error("SpecialCommand event missing command type"),
            },
            _ => match (event.key_code, event.is_pressed) {
                (Some(code), Some(p)) => {
                    let s = match &event.modifiers {
                        Some(ms) => self.key_event(code, p, Some(ms)),
                        None => self.key_event(code, p, None),
                    };
                    Ok(one_step(s))
                },
                _ => unsupported_error("Key event missing keyCode or pressed state"),
            },
        }
    }

    /// After the planned command `failed` could not be run, the held
    /// modifiers are those in effect when it was planned.
    pub fn settle_modifiers(&mut self, failed: &PlannedCommand)
        ensures
            final(self).modifiers() == failed@.modifiers,
            final(self).monitors() == old(self).monitors(),
            final(self).forwarding() == old(self).forwarding(),
    {
        self.active_modifiers = copy_strings(&failed.modifiers);
    }

    /// Enable or disable input forwarding
    pub fn set_enabled(&mut self, enabled: bool)
        ensures
            final(self).forwarding() == enabled,
            final(self).monitors() == old(self).monitors(),
            final(self).modifiers() == old(self).modifiers(),
    {
        self.enabled = enabled;
    }

    /// Check if input forwarding is currently enabled
    pub fn is_enabled(&self) -> (b: bool)
        ensures
            b == self.forwarding(),
    {
        self.enabled
    }

    /// Configure multi-monitor settings; a layout without monitors or
    /// without a primary monitor is refused and the old one kept.
    pub fn configure_monitors(&mut self, monitors: Vec<MonitorConfiguration>) -> (res: Result<(), InputForwardingError>)
        ensures
            monitors@.len() == 0 ==> (res matches Err(e) && e.is(
                InputForwardingErrorKind::MonitorConfigError,
                "Empty monitor configuration"@,
            )),
            monitors@.len() > 0 && !has_primary(monitors@) ==> (res matches Err(e) && e.is(
                InputForwardingErrorKind::MonitorConfigError,
                "No primary monitor defined"@,
            )),
            res is Ok <==> monitors@.len() > 0 && has_primary(monitors@),
            final(self).monitors() == (if res is Ok {
                monitors@
            } else {
                old(self).monitors()
            }),
            final(self).forwarding() == old(self).forwarding(),
            final(self).modifiers() == old(self).modifiers(),
    {
        match validate_monitor_config(monitors.as_slice()) {
            Ok(()) => {
                self.monitors = monitors;
                Ok(())
            },
            Err(e) => Err(e),
        }
    }
}

// ---------------------------------------------------------------------------
// Laws of forwarding
// ---------------------------------------------------------------------------

proof fn lemma_remove_all_subset(s: Seq<Seq<char>>, m: Seq<char>, x: Seq<char>)
    ensures
        remove_all(s, m).contains(x) ==> s.contains(x) && x != m,
    decreases s.len(),
{
    if s.len() > 0 {
        lemma_remove_all_subset(s.drop_last(), m, x);
        let r = remove_all(s.drop_last(), m);
        if remove_all(s, m).contains(x) {
            if r.contains(x) {
                let i = choose|i: int| 0 <= i < s.drop_last().len() && s.drop_last()[i] == x;
                assert(s[i] == x);
            } else {
                assert(s.last() != m);
                let j = choose|j: int| 0 <= j < remove_all(s, m).len() && remove_all(s, m)[j] == x;
                assert(remove_all(s, m) == r.push(s.last()));
                if j < r.len() {
                    assert(r[j] == x);
                }
                assert(s[s.len() - 1] == x);
            }
        }
    }
}

/// A released modifier is no longer held.
pub proof fn law_release_lets_go(active: Seq<Seq<char>>, m: Seq<char>)
    ensures
        !press_modifier(active, m, false).contains(m),
{
    if press_modifier(active, m, false).contains(m) {
        lemma_remove_all_subset(active, m, m);
    }
}

/// A pressed modifier is held.
pub proof fn law_press_holds(active: Seq<Seq<char>>, m: Seq<char>)
    ensures
        press_modifier(active, m, true).contains(m),
{
    if !active.contains(m) {
        assert(active.push(m)[active.len() as int] == m);
    }
}

proof fn lemma_remove_all_no_duplicates(s: Seq<Seq<char>>, m: Seq<char>)
    requires
        s.no_duplicates(),
    ensures
        remove_all(s, m).no_duplicates(),
    decreases s.len(),
{
    if s.len() > 0 {
        let d = s.drop_last();
        assert(d.no_duplicates());
        lemma_remove_all_no_duplicates(d, m);
        if s.last() != m {
            let r = remove_all(d, m);
            if r.contains(s.last()) {
                lemma_remove_all_subset(d, m, s.last());
                let i = choose|i: int| 0 <= i < d.len() && d[i] == s.last();
                assert(s[i] == s[s.len() - 1]);
            }
            assert(r.push(s.last()).no_duplicates()) by {
                assert forall|i: int, j: int|
                    0 <= i < r.push(s.last()).len() && 0 <= j < r.push(s.last()).len() && i != j implies r.push(
                    s.last(),
                )[i] != r.push(s.last())[j] by {
                    if i < r.len() && j < r.len() {
                    } else if i < r.len() {
                        assert(r.contains(r[i]));
                    } else if j < r.len() {
                        assert(r.contains(r[j]));
                    }
                }
            }
        }
    }
}

/// Pressing and releasing modifiers never makes one held twice.
pub proof fn law_modifiers_held_once(active: Seq<Seq<char>>, m: Seq<char>, pressed: bool)
    requires
        active.no_duplicates(),
    ensures
        press_modifier(active, m, pressed).no_duplicates(),
{
    if pressed {
        if !active.contains(m) {
            assert(active.push(m).no_duplicates()) by {
                assert forall|i: int, j: int|
                    0 <= i < active.push(m).len() && 0 <= j < active.push(m).len() && i != j implies active.push(
                    m,
                )[i] != active.push(m)[j] by {
                    if i < active.len() && j < active.len() {
                    } else if i < active.len() {
                        assert(active.contains(active[i]));
                    } else if j < active.len() {
                        assert(active.contains(active[j]));
                    }
                }
            }
        }
    } else {
        lemma_remove_all_no_duplicates(active, m);
    }
}

/// A pinch leaves Ctrl released, whatever was held before.
pub proof fn law_pinch_releases_ctrl(active: Seq<Seq<char>>, zoom_in: bool)
    ensures
        !pinch_plan(active, zoom_in).last().modifiers.contains("ctrl"@),
        pinch_plan(active, zoom_in).len() == 4,
{
    let ctrl = seq!["ctrl"@];
    let key: u32 = if zoom_in {
        107
    } else {
        109
    };
    let s1 = key_step(active, 17, true, Some(ctrl));
    let s2 = key_step(s1.modifiers, key, true, Some(ctrl));
    let after3 = apply_modifiers(s2.modifiers, ctrl, false);
    assert(ctrl.drop_last() =~= Seq::<Seq<char>>::empty());
    assert(apply_modifiers(s2.modifiers, ctrl.drop_last(), false) == s2.modifiers);
    assert(ctrl.last() == "ctrl"@);
    assert(after3 == press_modifier(s2.modifiers, "ctrl"@, false));
    law_release_lets_go(s2.modifiers, "ctrl"@);
}

/// While forwarding is off, no event is replayed and none is refused.
pub proof fn law_disabled_forwards_nothing(
    active: Seq<Seq<char>>,
    monitors: Seq<MonitorConfiguration>,
    ev: InputEvent,
)
    ensures
        forward_plan(false, active, monitors, ev) == Ok::<Seq<StepView>, (InputForwardingErrorKind, Seq<char>)>(
            Seq::empty(),
        ),
{
}

/// A scroll clicks once per whole step of each nonzero delta, and at least
/// once; a zero delta clicks nothing.
pub proof fn law_scroll_clicks_per_step(active: Seq<Seq<char>>, dx: int, dy: int)
    ensures
        scroll_plan(active, dx, dy).len() == (if dy != 0 {
            scroll_clicks(dy)
        } else {
            0
        }) + (if dx != 0 {
            scroll_clicks(dx)
        } else {
            0
        }),
        scroll_clicks(dx) >= 1,
        scroll_clicks(dy) >= 1,
{
}


/// The arguments of the first command a plan runs (none for a refused event
/// or an empty plan).
pub open spec fn first_args(plan: PlanResult) -> Seq<Seq<char>> {
    match plan {
        Ok(steps) => if steps.len() > 0 {
            steps[0].command.args
        } else {
            Seq::empty()
        },
        Err(_) => Seq::empty(),
    }
}

/// A press or release of a pointer button is replayed as a single `xdotool
/// mousedown` or `mouseup` of that button's own X number (Left 1, Middle 2,
/// Right 3, Back 8, Forward 9), with the held modifiers unchanged.
pub proof fn law_buttons_keep_their_numbers(
    active: Seq<Seq<char>>,
    monitors: Seq<MonitorConfiguration>,
    ev: InputEvent,
    b: MouseButton,
    pressed: bool,
)
    requires
        ev.event_type == InputEventType::MouseButton,
        ev.button == Some(b),
        ev.is_pressed == Some(pressed),
        b is Left || b is Middle || b is Right || b is Back || b is Forward,
    ensures
        forward_plan(true, active, monitors, ev) matches Ok(steps) && steps.len() == 1 && steps[0].command.program
            == "xdotool"@ && steps[0].modifiers == active && steps[0].command.args.len() == 2,
        first_args(forward_plan(true, active, monitors, ev))[0] == (if pressed {
            "mousedown"@
        } else {
            "mouseup"@
        }),
        b is Left ==> first_args(forward_plan(true, active, monitors, ev))[1] == "1"@,
        b is Middle ==> first_args(forward_plan(true, active, monitors, ev))[1] == "2"@,
        b is Right ==> first_args(forward_plan(true, active, monitors, ev))[1] == "3"@,
        b is Back ==> first_args(forward_plan(true, active, monitors, ev))[1] == "8"@,
        b is Forward ==> first_args(forward_plan(true, active, monitors, ev))[1] == "9"@,
{
}

/// Two different pointer buttons are never replayed as the same X button.
pub proof fn law_distinct_buttons_distinct_numbers(
    active: Seq<Seq<char>>,
    monitors: Seq<MonitorConfiguration>,
    e1: InputEvent,
    e2: InputEvent,
    b1: MouseButton,
    b2: MouseButton,
)
    requires
        e1.event_type == InputEventType::MouseButton,
        e2.event_type == InputEventType::MouseButton,
        e1.button == Some(b1),
        e2.button == Some(b2),
        e1.is_pressed is Some,
        e2.is_pressed is Some,
        b1 is Left || b1 is Middle || b1 is Right || b1 is Back || b1 is Forward,
        b2 is Left || b2 is Middle || b2 is Right || b2 is Back || b2 is Forward,
        b1 != b2,
    ensures
        first_args(forward_plan(true, active, monitors, e1))[1] != first_args(forward_plan(true, active, monitors, e2))[1],
{
    law_buttons_keep_their_numbers(active, monitors, e1, b1, e1.is_pressed->0);
    law_buttons_keep_their_numbers(active, monitors, e2, b2, e2.is_pressed->0);
    reveal_strlit("1");
    reveal_strlit("2");
    reveal_strlit("3");
    reveal_strlit("8");
    reveal_strlit("9");
    let a1 = first_args(forward_plan(true, active, monitors, e1))[1];
    let a2 = first_args(forward_plan(true, active, monitors, e2))[1];
    assert(a1[0] != a2[0]);
}

} // verus!
