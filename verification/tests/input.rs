use smoldesk::input_forwarding::error::{InputForwardingError, InputForwardingErrorExt, InputForwardingErrorKind};
use smoldesk::input_forwarding::factory::StubInputForwarder;
use smoldesk::input_forwarding::types::{
    GestureDirection, InputEvent, InputEventType, MonitorConfiguration, MouseButton, SpecialCommand, TouchGesture,
};
use smoldesk::input_forwarding::utils::{
    calculate_absolute_position, create_numeric_key_mapping, validate_monitor_config,
};
use smoldesk::input_forwarding::x11::{command_outcome, key_sym, ImprovedX11InputForwarder, PlannedCommand};
use smoldesk::screen_capture::utils::CommandOutput;

fn event(event_type: InputEventType) -> InputEvent {
    InputEvent {
        event_type,
        x: None,
        y: None,
        button: None,
        key_code: None,
        modifiers: None,
        is_pressed: None,
        delta_x: None,
        delta_y: None,
        monitor_index: None,
        gesture: None,
        gesture_direction: None,
        gesture_magnitude: None,
        special_command: None,
    }
}

fn key(event_type: InputEventType, code: u32, pressed: bool, mods: &[&str]) -> InputEvent {
    let mut e = event(event_type);
    e.key_code = Some(code);
    e.is_pressed = Some(pressed);
    if !mods.is_empty() {
        e.modifiers = Some(mods.iter().map(|m| m.to_string()).collect());
    }
    e
}

fn lines(plan: &[PlannedCommand]) -> Vec<String> {
    plan.iter()
        .map(|p| format!("{} {}", p.command.program, p.command.args.join(" ")))
        .collect()
}

fn forwarder() -> ImprovedX11InputForwarder {
    ImprovedX11InputForwarder::new(true).unwrap()
}

fn monitor(index: usize, x: i32, y: i32, scale: u32, primary: bool) -> MonitorConfiguration {
    MonitorConfiguration { index, x_offset: x, y_offset: y, width: 1920, height: 1080, scale_factor: scale, is_primary: primary }
}

fn unsupported(res: Result<Vec<PlannedCommand>, InputForwardingError>) -> String {
    match res {
        Err(InputForwardingError::UnsupportedEvent(m)) => m,
        other => panic!("expected an unsupported event, got {:?}", other.map(|p| lines(&p))),
    }
}

#[test]
fn forwarder_needs_xdotool() {
    match ImprovedX11InputForwarder::new(false) {
        Err(e) => {
            assert_eq!(e.error_kind(), InputForwardingErrorKind::InitializationFailed);
            assert_eq!(e.message(), "Initialization failed: xdotool is required for X11 input forwarding");
        },
        Ok(_) => panic!("created without xdotool"),
    }
}

#[test]
fn mouse_move_without_monitors_uses_the_coordinates() {
    let mut f = forwarder();
    let mut e = event(InputEventType::MouseMove);
    e.x = Some(10);
    e.y = Some(20);
    assert!(f.fits(&e));
    let plan = f.forward_event(&e).unwrap();
    assert_eq!(lines(&plan), vec!["xdotool mousemove 10 20"]);
    assert_eq!(plan[0].command.launch_context, "Failed to execute xdotool");
    assert_eq!(plan[0].command.failure_context, "xdotool mousemove failed");
}

#[test]
fn mouse_move_is_placed_on_the_monitor() {
    let mut f = forwarder();
    f.configure_monitors(vec![monitor(0, 0, 0, 1000, false), monitor(1, 1920, 0, 1500, true)]).unwrap();
    let mut e = event(InputEventType::MouseMove);
    e.x = Some(100);
    e.y = Some(-10);
    let plan = f.forward_event(&e).unwrap();
    assert_eq!(lines(&plan), vec!["xdotool mousemove 2070 -15"]);
    e.monitor_index = Some(0);
    let plan = f.forward_event(&e).unwrap();
    assert_eq!(lines(&plan), vec!["xdotool mousemove 100 -10"]);
}

#[test]
fn mouse_move_needs_coordinates() {
    let mut f = forwarder();
    let mut e = event(InputEventType::MouseMove);
    e.x = Some(1);
    assert_eq!(unsupported(f.forward_event(&e)), "Mouse move event missing coordinates");
}

#[test]
fn positions_beyond_i32_do_not_fit() {
    let mut f = forwarder();
    f.configure_monitors(vec![monitor(0, i32::MAX, 0, 1000, true)]).unwrap();
    let mut e = event(InputEventType::MouseMove);
    e.x = Some(5);
    e.y = Some(5);
    assert!(!f.fits(&e));
}

#[test]
fn key_events_carry_held_modifiers() {
    let mut f = forwarder();
    let plan = f.forward_event(&key(InputEventType::KeyPress, 65, true, &["ctrl", "shift"])).unwrap();
    assert_eq!(lines(&plan), vec!["xdotool keydown ctrl shift a"]);
    assert_eq!(plan[0].modifiers, vec!["ctrl", "shift"]);
    assert_eq!(plan[0].command.failure_context, "xdotool keydown failed");
    let plan = f.forward_event(&key(InputEventType::KeyRelease, 65, false, &["ctrl"])).unwrap();
    assert_eq!(lines(&plan), vec!["xdotool keyup shift a"]);
    let plan = f.forward_event(&key(InputEventType::KeyPress, 91, true, &["meta", "meta"])).unwrap();
    assert_eq!(lines(&plan), vec!["xdotool keydown shift super Super_L"]);
    assert_eq!(plan[0].modifiers, vec!["shift", "meta"]);
}

#[test]
fn unknown_modifiers_are_held_but_not_passed() {
    let mut f = forwarder();
    let plan = f.forward_event(&key(InputEventType::KeyPress, 66, true, &["hyper"])).unwrap();
    assert_eq!(lines(&plan), vec!["xdotool keydown b"]);
    assert_eq!(plan[0].modifiers, vec!["hyper"]);
}

#[test]
fn key_events_need_code_and_state() {
    let mut f = forwarder();
    let mut e = event(InputEventType::KeyPress);
    e.key_code = Some(65);
    assert_eq!(unsupported(f.forward_event(&e)), "Key event missing keyCode or pressed state");
}

#[test]
fn key_symbols() {
    assert_eq!(key_sym(48), "0");
    assert_eq!(key_sym(90), "z");
    assert_eq!(key_sym(116), "F5");
    assert_eq!(key_sym(123), "F12");
    assert_eq!(key_sym(99), "KP_3");
    assert_eq!(key_sym(13), "Return");
    assert_eq!(key_sym(107), "KP_Add");
    assert_eq!(key_sym(300), "0x12C");
    assert_eq!(key_sym(255), "0xFF");
}

#[test]
fn mouse_buttons() {
    let mut f = forwarder();
    let mut e = event(InputEventType::MouseButton);
    e.button = Some(MouseButton::Left);
    e.is_pressed = Some(true);
    assert_eq!(lines(&f.forward_event(&e).unwrap()), vec!["xdotool mousedown 1"]);
    e.button = Some(MouseButton::Right);
    e.is_pressed = Some(false);
    let plan = f.forward_event(&e).unwrap();
    assert_eq!(lines(&plan), vec!["xdotool mouseup 3"]);
    assert_eq!(plan[0].command.failure_context, "xdotool mouseup failed");
    e.button = Some(MouseButton::Forward);
    assert_eq!(lines(&f.forward_event(&e).unwrap()), vec!["xdotool mouseup 9"]);
    e.button = Some(MouseButton::TouchTap);
    assert_eq!(lines(&f.forward_event(&e).unwrap()), vec!["xdotool mousedown 1", "xdotool mouseup 1"]);
    e.button = Some(MouseButton::TouchDoubleTap);
    let plan = f.forward_event(&e).unwrap();
    assert_eq!(lines(&plan), vec!["xdotool click --repeat 2 1"]);
    assert_eq!(plan[0].command.failure_context, "xdotool double-click failed");
    e.button = Some(MouseButton::ScrollUp);
    assert_eq!(unsupported(f.forward_event(&e)), "Scroll events should use MouseScroll type");
}

#[test]
fn scrolling_clicks_once_per_step() {
    let mut f = forwarder();
    let mut e = event(InputEventType::MouseScroll);
    e.delta_x = Some(-300);
    e.delta_y = Some(2500);
    let plan = f.forward_event(&e).unwrap();
    assert_eq!(
        lines(&plan),
        vec!["xdotool click --repeat 1 5", "xdotool click --repeat 1 5", "xdotool click --repeat 1 6"]
    );
    assert_eq!(plan[0].command.launch_context, "Failed to execute scroll command");
    assert_eq!(plan[0].command.failure_context, "Scroll command failed");
    e.delta_x = Some(1000);
    e.delta_y = Some(0);
    assert_eq!(lines(&f.forward_event(&e).unwrap()), vec!["xdotool click --repeat 1 7"]);
    e.delta_x = Some(0);
    e.delta_y = Some(-1000);
    assert_eq!(lines(&f.forward_event(&e).unwrap()), vec!["xdotool click --repeat 1 4"]);
    e.delta_y = None;
    assert_eq!(unsupported(f.forward_event(&e)), "Mouse scroll event missing delta values");
}

#[test]
fn pinch_zooms_with_ctrl() {
    let mut f = forwarder();
    let plan = f.handle_gesture(TouchGesture::Pinch, None, Some(500)).unwrap();
    assert_eq!(
        lines(&plan),
        vec![
            "xdotool keydown ctrl Control_L",
            "xdotool keydown ctrl KP_Add",
            "xdotool keyup KP_Add",
            "xdotool keyup Control_L",
        ]
    );
    assert!(plan[3].modifiers.is_empty());
    let plan = f.handle_gesture(TouchGesture::Pinch, None, Some(-500)).unwrap();
    assert_eq!(lines(&plan)[1], "xdotool keydown ctrl KP_Subtract");
}

#[test]
fn failed_step_settles_the_modifiers_it_had() {
    let mut f = forwarder();
    let plan = f.handle_gesture(TouchGesture::Pinch, None, Some(500)).unwrap();
    // The first command failed: Ctrl counts as held, as when it was planned.
    f.settle_modifiers(&plan[0]);
    let plan = f.forward_event(&key(InputEventType::KeyPress, 66, true, &[])).unwrap();
    assert_eq!(lines(&plan), vec!["xdotool keydown ctrl b"]);
}

#[test]
fn gestures() {
    let mut f = forwarder();
    let plan = f.handle_gesture(TouchGesture::TwoFingerScroll, Some(GestureDirection::Up), None).unwrap();
    assert_eq!(lines(&plan), vec!["xdotool click --repeat 1 5"]);
    let plan = f.handle_gesture(TouchGesture::TwoFingerScroll, Some(GestureDirection::Left), Some(2000)).unwrap();
    assert_eq!(lines(&plan), vec!["xdotool click --repeat 1 7", "xdotool click --repeat 1 7"]);
    assert!(f.handle_gesture(TouchGesture::ThreeFingerSwipe, None, None).unwrap().is_empty());
    assert_eq!(
        unsupported(f.handle_gesture(TouchGesture::TwoFingerScroll, None, None)),
        "Incomplete gesture data"
    );
    assert_eq!(unsupported(f.handle_gesture(TouchGesture::Pinch, None, None)), "Incomplete gesture data");
    assert_eq!(unsupported(f.handle_gesture(TouchGesture::Rotate, None, None)), "Unsupported gesture: Rotate");
    assert_eq!(
        unsupported(f.handle_gesture(TouchGesture::FourFingerSwipe, None, Some(1))),
        "Unsupported gesture: FourFingerSwipe"
    );
    let mut e = event(InputEventType::TouchGesture);
    assert_eq!(unsupported(f.forward_event(&e)), "TouchGesture event missing gesture type");
    e.gesture = Some(TouchGesture::TwoFingerScroll);
    e.gesture_direction = Some(GestureDirection::Down);
    assert_eq!(lines(&f.forward_event(&e).unwrap()), vec!["xdotool click --repeat 1 4"]);
}

#[test]
fn special_commands() {
    let mut f = forwarder();
    let plan = f.handle_special_command(&SpecialCommand::AppSwitcher);
    assert_eq!(lines(&plan), vec!["xdotool key alt+Tab"]);
    assert_eq!(plan[0].command.failure_context, "xdotool key sequence failed");
    assert_eq!(lines(&f.handle_special_command(&SpecialCommand::DesktopToggle)), vec!["xdotool key super+d"]);
    assert_eq!(lines(&f.handle_special_command(&SpecialCommand::ScreenSnapshot)), vec!["xdotool key Print"]);
    assert_eq!(lines(&f.handle_special_command(&SpecialCommand::LockScreen)), vec!["xdotool key super+l"]);
    let plan = f.handle_special_command(&SpecialCommand::Custom("key ctrl+c".to_string()));
    assert_eq!(plan[0].command.program, "sh");
    assert_eq!(plan[0].command.args, vec!["-c", "xdotool key ctrl+c"]);
    assert_eq!(plan[0].command.launch_context, "Error executing custom command");
    let mut e = event(InputEventType::SpecialCommand);
    assert_eq!(unsupported(f.forward_event(&e)), "SpecialCommand event missing command type");
    e.special_command = Some(SpecialCommand::LockScreen);
    assert_eq!(lines(&f.forward_event(&e).unwrap()), vec!["xdotool key super+l"]);
}

#[test]
fn disabled_forwarder_replays_nothing() {
    let mut f = forwarder();
    f.set_enabled(false);
    assert!(!f.is_enabled());
    let e = event(InputEventType::MouseMove);
    assert!(f.forward_event(&e).unwrap().is_empty());
    assert!(f.handle_gesture(TouchGesture::Pinch, None, Some(1)).unwrap().is_empty());
    f.set_enabled(true);
    assert!(f.is_enabled());
}

#[test]
fn outcomes_of_commands() {
    let mut f = forwarder();
    let mut e = event(InputEventType::MouseMove);
    e.x = Some(1);
    e.y = Some(2);
    let plan = f.forward_event(&e).unwrap();
    let cmd = &plan[0].command;
    let ok = Ok(CommandOutput { success: true, stdout: vec![], stderr: vec![] });
    assert!(command_outcome(cmd, &ok).is_ok());
    let failed = Ok(CommandOutput { success: false, stdout: vec![], stderr: b"bad display".to_vec() });
    match command_outcome(cmd, &failed) {
        Err(InputForwardingError::SendEventFailed(m)) => assert_eq!(m, "xdotool mousemove failed: bad display"),
        other => panic!("{:?}", other),
    }
    match command_outcome(cmd, &Err("not found".to_string())) {
        Err(e) => assert_eq!(e.message(), "Failed to send event: Failed to execute xdotool: not found"),
        other => panic!("{:?}", other),
    }
}

#[test]
fn monitor_layouts_are_validated() {
    match validate_monitor_config(&[]) {
        Err(InputForwardingError::MonitorConfigError(m)) => assert_eq!(m, "Empty monitor configuration"),
        other => panic!("{:?}", other),
    }
    match validate_monitor_config(&[monitor(0, 0, 0, 1000, false)]) {
        Err(e) => assert_eq!(e.message(), "Monitor configuration error: No primary monitor defined"),
        other => panic!("{:?}", other),
    }
    assert!(validate_monitor_config(&[monitor(0, 0, 0, 1000, true)]).is_ok());
    let mut f = forwarder();
    assert!(f.configure_monitors(vec![]).is_err());
    let mut e = event(InputEventType::MouseMove);
    e.x = Some(3);
    e.y = Some(4);
    assert_eq!(lines(&f.forward_event(&e).unwrap()), vec!["xdotool mousemove 3 4"]);
}

#[test]
fn absolute_positions() {
    let ms = [monitor(0, 0, 0, 1000, false), monitor(1, 1920, 100, 2000, false)];
    assert_eq!(calculate_absolute_position(5, 6, None, &[]), (5, 6));
    assert_eq!(calculate_absolute_position(5, 6, Some(1), &ms), (1930, 112));
    // No primary monitor: the first one.
    assert_eq!(calculate_absolute_position(5, 6, Some(7), &ms), (5, 6));
    let ms = [monitor(0, 0, 0, 1000, false), monitor(1, -1280, 0, 500, true)];
    assert_eq!(calculate_absolute_position(-7, 7, None, &ms), (-1283, 3));
    // An unscaled monitor at the origin leaves positions as they are.
    let ms = [monitor(0, 0, 0, 1000, true)];
    assert_eq!(calculate_absolute_position(-42, 17, Some(0), &ms), (-42, 17));
}

#[test]
fn numeric_key_mapping() {
    let mapping = create_numeric_key_mapping(96, 99, |i| format!("KP_{}", i - 96));
    assert_eq!(mapping, vec![(96, "KP_0".to_string()), (97, "KP_1".to_string()), (98, "KP_2".to_string())]);
    assert!(create_numeric_key_mapping(5, 5, |i| i.to_string()).is_empty());
    assert!(create_numeric_key_mapping(7, 3, |i| i.to_string()).is_empty());
}

#[test]
fn errors_with_context() {
    let r: Result<u8, String> = Err("boom".to_string());
    match r.with_context(|| "while typing".to_string()) {
        Err(e) => assert_eq!(e.message(), "Failed to send event: while typing: boom"),
        Ok(_) => panic!(),
    }
    let r: Result<u8, String> = Ok(3);
    assert_eq!(r.with_context(|| "unused".to_string()).unwrap(), 3);
    let e = InputForwardingError::PermissionDenied("uinput".to_string());
    assert_eq!(e.message(), "Permission denied: uinput");
}

#[test]
fn stub_forwarder_accepts_everything() {
    let mut stub = StubInputForwarder::new();
    assert!(stub.forward_event(&event(InputEventType::KeyPress)).is_ok());
    stub.set_enabled(true);
    assert!(stub.configure_monitors(vec![]).is_ok());
}
