//! Core data types for input forwarding.
//!
//! Amounts that a viewer reports as fractions are fixed-point integers here:
//! scroll deltas and gesture magnitudes in thousandths of a unit, monitor
//! scale factors in thousandths.
use vstd::prelude::*;

pub use crate::screen_capture::types::DisplayServer;

verus! {

/// Input event types
#[derive(Debug, Clone, Copy, PartialEq, Eq, Structural)]
pub enum InputEventType {
    MouseMove,
    MouseButton,
    MouseScroll,
    KeyPress,
    KeyRelease,
    /// A touch gesture
    TouchGesture,
    /// A special command (e.g. Win+Tab)
    SpecialCommand,
}

/// Mouse buttons
#[derive(Debug, Clone, Copy, PartialEq, Eq, Structural)]
pub enum MouseButton {
    Left,
    Middle,
    Right,
    Back,
    Forward,
    ScrollUp,
    ScrollDown,
    /// A tap on a precision trackpad
    TouchTap,
    /// A double tap on a precision trackpad
    TouchDoubleTap,
}

/// Touch gestures
#[derive(Debug, Clone, Copy, PartialEq, Eq, Structural)]
pub enum TouchGesture {
    Pinch,
    Rotate,
    ThreeFingerSwipe,
    FourFingerSwipe,
    TwoFingerScroll,
}

/// Direction of a gesture
#[derive(Debug, Clone, Copy, PartialEq, Eq, Structural)]
pub enum GestureDirection {
    Left,
    Right,
    Up,
    Down,
}

/// Special commands
#[derive(Debug, Clone, PartialEq, Eq, Hash)]
pub enum SpecialCommand {
    /// Alt+Tab / Win+Tab
    AppSwitcher,
    /// Win+D / show desktop
    DesktopToggle,
    /// PrintScreen / Win+Shift+S
    ScreenSnapshot,
    /// Win+L / Ctrl+Alt+L
    LockScreen,
    /// A command given as text
    Custom(String),
}

/// An input event sent by a viewer
#[derive(Debug)]
pub struct InputEvent {
    pub event_type: InputEventType,
    pub x: Option<i32>,
    pub y: Option<i32>,
    pub button: Option<MouseButton>,
    pub key_code: Option<u32>,
    pub modifiers: Option<Vec<String>>,
    pub is_pressed: Option<bool>,
    /// Horizontal scroll, in thousandths of a step (positive to the right)
    pub delta_x: Option<i64>,
    /// Vertical scroll, in thousandths of a step (positive downwards)
    pub delta_y: Option<i64>,
    /// Monitor the coordinates refer to
    pub monitor_index: Option<usize>,
    pub gesture: Option<TouchGesture>,
    pub gesture_direction: Option<GestureDirection>,
    /// Gesture magnitude, in thousandths
    pub gesture_magnitude: Option<i32>,
    pub special_command: Option<SpecialCommand>,
}

/// Placement of one monitor in a multi-monitor setup
#[derive(Debug, Clone, Copy, PartialEq, Eq, Structural)]
pub struct MonitorConfiguration {
    pub index: usize,
    pub x_offset: i32,
    pub y_offset: i32,
    pub width: i32,
    pub height: i32,
    /// Scale from event coordinates to screen pixels, in thousandths
    pub scale_factor: u32,
    pub is_primary: bool,
}

} // verus!
