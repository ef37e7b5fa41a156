use linux_clipboard::simulator::{
    get_cursor_position, device_steps, encode_event, focus_restore_outcome, init_simulator,
    is_x11, keyboard_ids, keyboard_name_bytes, keystroke_outcome, parse_mouse_location,
    parse_window_id, paste_key_strokes, paste_method, syn_report, DeviceStep, FocusMemory,
    InputEvent, PasteMethod, EV_KEY, KEY_LEFTCTRL, KEY_V, UI_DEV_DESTROY,
    paste_event_sequence, uinput_script, uinput_step, UinputAction, UINPUT_PAUSE_MS,
};

/// Runs the virtual-keyboard script against the given outcomes (by action
/// index), returning the result and the events written.
fn run_script(fail_at: Option<(usize, &str)>) -> (Result<(), String>, Vec<(u16, u16, i32)>, usize) {
    let mut written = Vec::new();
    let mut taken = 0;
    for (i, action) in uinput_script().into_iter().enumerate() {
        taken += 1;
        let outcome = match fail_at {
            Some((k, msg)) if k == i => Err(msg.to_string()),
            _ => Ok(()),
        };
        if let (UinputAction::Write(e), Ok(())) = (action, &outcome) {
            written.push((e.kind, e.code, e.value));
        }
        if let Some(result) = uinput_step(action, outcome) {
            return (result, written, taken);
        }
    }
    (Ok(()), written, taken)
}

#[test]
fn virtual_keyboard_types_ctrl_v_with_reports() {
    let events: Vec<(u16, u16, i32)> =
        paste_event_sequence().iter().map(|e| (e.kind, e.code, e.value)).collect();
    let expected = vec![(1, 29, 1), (0, 0, 0), (1, 47, 1), (0, 0, 0), (1, 47, 0), (0, 0, 0), (1, 29, 0), (0, 0, 0)];
    assert_eq!(events, expected);
    let (result, written, taken) = run_script(None);
    assert_eq!(result, Ok(()));
    assert_eq!(written, expected);
    assert_eq!(taken, 23);
    let script = uinput_script();
    assert_eq!(script[5], UinputAction::Pause(UINPUT_PAUSE_MS));
    assert_eq!(script[22], UinputAction::Destroy);
    assert_eq!(script.iter().filter(|a| **a == UinputAction::Flush).count(), 4);
}

#[test]
fn virtual_keyboard_stops_at_the_first_failure() {
    let messages = [
        "Failed to set EV_KEY",
        "Failed to set KEY_LEFTCTRL",
        "Failed to set KEY_V",
        "Failed to setup uinput device",
        "Failed to create uinput device",
    ];
    for (k, m) in messages.iter().enumerate() {
        let (result, written, taken) = run_script(Some((k, "ignored")));
        assert_eq!(result, Err(m.to_string()));
        assert!(written.is_empty());
        assert_eq!(taken, k + 1);
    }
    let (result, written, taken) = run_script(Some((10, "Broken pipe")));
    assert_eq!(result, Err("Broken pipe".to_string()));
    assert_eq!(written, vec![(1, 29, 1), (0, 0, 0)]);
    assert_eq!(taken, 11);
    assert_eq!(uinput_step(UinputAction::Pause(50), Err("x".to_string())), None);
    assert_eq!(uinput_step(UinputAction::Destroy, Err("x".to_string())), Some(Ok(())));
}

#[test]
fn simulator_needs_no_setup() {
    assert_eq!(init_simulator(), Ok(()));
}

#[test]
fn session_type_decides_x11() {
    assert!(is_x11("x11"));
    assert!(is_x11(""));
    assert!(is_x11("tty"));
    assert!(!is_x11("wayland"));
    assert!(!is_x11("Wayland"));
    assert!(!is_x11("WAYLAND"));
    assert!(is_x11(" wayland"));
}

#[test]
fn mouse_location_is_read_from_xdotool() {
    assert_eq!(parse_mouse_location("x:812 y:403 screen:0 window:65011715\n"), Some((812, 403)));
    assert_eq!(parse_mouse_location("x:abc y:5"), None);
    assert_eq!(parse_mouse_location(""), None);
    assert_eq!(parse_mouse_location("x:7"), None);
    assert_eq!(parse_mouse_location("y:7"), None);
    assert_eq!(parse_mouse_location("x:1 x:2 y:0"), Some((2, 0)));
    assert_eq!(parse_mouse_location("x:5 x:bad y:1"), None);
    assert_eq!(parse_mouse_location("x:bad x:5 y:1"), Some((5, 1)));
    assert_eq!(parse_mouse_location("y:-12\tx:+3"), Some((3, -12)));
    assert_eq!(parse_mouse_location("xx:5 y: 7"), None);
}

#[test]
fn cursor_known_only_under_x11() {
    assert_eq!(get_cursor_position(true, Some("x:10 y:20")), Some((10, 20)));
    assert_eq!(get_cursor_position(false, Some("x:10 y:20")), None);
    assert_eq!(get_cursor_position(true, None), None);
    assert_eq!(get_cursor_position(true, Some("")), None);
    assert_eq!(get_cursor_position(true, Some("x:10")), None);
}

#[test]
fn window_id_is_trimmed_and_parsed() {
    assert_eq!(parse_window_id("  12345\n"), Some(12345));
    assert_eq!(parse_window_id("abc"), None);
    assert_eq!(parse_window_id(""), None);
    assert_eq!(parse_window_id("-1"), None);
}

#[test]
fn focus_returns_to_the_remembered_window() {
    let mut memory = FocusMemory::new();
    assert_eq!(memory.restore_target(true), None);
    memory.remember("65011715\n");
    assert_eq!(memory.saved_id(), 65011715);
    assert_eq!(memory.restore_target(true).as_deref(), Some("65011715"));
    assert_eq!(memory.restore_target(false), None);
    memory.remember("Error: no active window");
    assert_eq!(memory.saved_id(), 65011715);
    memory.remember("0");
    assert_eq!(memory.restore_target(true), None);
}

#[test]
fn command_outcomes() {
    assert_eq!(focus_restore_outcome(true), Ok(()));
    assert_eq!(focus_restore_outcome(false), Err("Failed to focus window via xdotool".to_string()));
    assert_eq!(keystroke_outcome(true), Ok(()));
    assert_eq!(keystroke_outcome(false), Err("xdotool command failed".to_string()));
}

#[test]
fn paste_method_follows_session() {
    assert_eq!(paste_method(true), PasteMethod::Xdotool);
    assert_eq!(paste_method(false), PasteMethod::VirtualKeyboard);
}

#[test]
fn ctrl_v_is_pressed_and_released() {
    let strokes = paste_key_strokes();
    assert_eq!(
        strokes,
        vec![
            InputEvent { kind: EV_KEY, code: KEY_LEFTCTRL, value: 1 },
            InputEvent { kind: EV_KEY, code: KEY_V, value: 1 },
            InputEvent { kind: EV_KEY, code: KEY_V, value: 0 },
            InputEvent { kind: EV_KEY, code: KEY_LEFTCTRL, value: 0 },
        ]
    );
    assert_eq!(syn_report(), InputEvent { kind: 0, code: 0, value: 0 });
}

#[test]
fn events_are_encoded_like_input_event() {
    let ev = InputEvent { kind: EV_KEY, code: KEY_LEFTCTRL, value: 1 };
    let le = encode_event(ev, true);
    let mut expected = vec![0u8; 16];
    expected.extend_from_slice(&1u16.to_le_bytes());
    expected.extend_from_slice(&29u16.to_le_bytes());
    expected.extend_from_slice(&1i32.to_le_bytes());
    assert_eq!(le, expected);
    let be = encode_event(InputEvent { kind: 0x0102, code: 0x0304, value: -2 }, false);
    let mut expected = vec![0u8; 16];
    expected.extend_from_slice(&0x0102u16.to_be_bytes());
    expected.extend_from_slice(&0x0304u16.to_be_bytes());
    expected.extend_from_slice(&(-2i32).to_be_bytes());
    assert_eq!(be, expected);
    let little = u16::from_ne_bytes([1, 0]) == 1;
    let native = encode_event(ev, little);
    let mut expected = vec![0u8; 16];
    expected.extend_from_slice(&1u16.to_ne_bytes());
    expected.extend_from_slice(&29u16.to_ne_bytes());
    expected.extend_from_slice(&1i32.to_ne_bytes());
    assert_eq!(native, expected);
}

#[test]
fn virtual_keyboard_identity() {
    let name = keyboard_name_bytes();
    assert_eq!(name.len(), 80);
    assert_eq!(&name[..18], b"emoji-paste-helper");
    assert!(name[18..].iter().all(|b| *b == 0));
    assert_eq!(keyboard_ids(), [0x03, 0x1234, 0x5678, 0x0001]);
}

#[test]
fn device_set_up_steps() {
    let steps = device_steps();
    assert_eq!(
        steps,
        vec![
            DeviceStep::EnableKeyEvents,
            DeviceStep::EnableLeftCtrl,
            DeviceStep::EnableV,
            DeviceStep::Describe,
            DeviceStep::Create,
        ]
    );
    assert_eq!(DeviceStep::EnableKeyEvents.request(), 0x40045564);
    assert_eq!(DeviceStep::EnableV.request(), 0x40045565);
    assert_eq!(DeviceStep::Describe.request(), 0x405c5503);
    assert_eq!(DeviceStep::Create.request(), 0x5501);
    assert_eq!(UI_DEV_DESTROY, 0x5502);
    assert_eq!(DeviceStep::EnableKeyEvents.int_argument(), Some(1));
    assert_eq!(DeviceStep::EnableLeftCtrl.int_argument(), Some(29));
    assert_eq!(DeviceStep::EnableV.int_argument(), Some(47));
    assert_eq!(DeviceStep::Create.int_argument(), None);
    assert_eq!(DeviceStep::EnableKeyEvents.failure_message(), "Failed to set EV_KEY");
    assert_eq!(DeviceStep::EnableLeftCtrl.failure_message(), "Failed to set KEY_LEFTCTRL");
    assert_eq!(DeviceStep::EnableV.failure_message(), "Failed to set KEY_V");
    assert_eq!(DeviceStep::Describe.failure_message(), "Failed to setup uinput device");
    assert_eq!(DeviceStep::Create.failure_message(), "Failed to create uinput device");
}
