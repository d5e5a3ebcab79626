use scorefall_studio::input::{InputState, KeyName, KeyState, KEY_COUNT};

fn down(s: &mut InputState, key: &str, code: &str) {
    s.update(key.to_string(), code.to_string(), false, true);
}

fn up(s: &mut InputState, key: &str, code: &str) {
    s.update(key.to_string(), code.to_string(), false, false);
}

#[test]
fn key_state_held_matches_high_bit() {
    assert!(!KeyState::Idle.held());
    assert!(!KeyState::Lift.held());
    assert!(KeyState::Held.held());
    assert!(KeyState::Just.held());
}

#[test]
fn key_state_press_only_just() {
    assert!(!KeyState::Idle.press());
    assert!(!KeyState::Lift.press());
    assert!(!KeyState::Held.press());
    assert!(KeyState::Just.press());
}

#[test]
fn new_state_is_idle() {
    let s = InputState::new();
    assert_eq!(s.keys.len(), KEY_COUNT);
    for k in &s.keys {
        assert_eq!(*k, KeyState::Idle);
    }
    assert!(!s.has_input);
    assert_eq!(s.text, '\0');
}

#[test]
fn down_event_sets_just_and_has_input() {
    let mut s = InputState::new();
    down(&mut s, "ArrowLeft", "ArrowLeft");
    assert!(s.has_input);
    assert!(s.press(KeyName::Left));
    assert!(s.held(KeyName::Left));
    assert!(!s.press(KeyName::Right));
}

#[test]
fn up_event_sets_lift() {
    let mut s = InputState::new();
    down(&mut s, "ArrowRight", "ArrowRight");
    s.reset();
    up(&mut s, "ArrowRight", "ArrowRight");
    assert!(s.has_input);
    assert!(!s.press(KeyName::Right));
    assert!(!s.held(KeyName::Right));
    assert_eq!(s.keys[KeyName::Right.index()], KeyState::Lift);
}

#[test]
fn reset_demotes_edges() {
    let mut s = InputState::new();
    down(&mut s, "ArrowUp", "ArrowUp");
    down(&mut s, "ArrowDown", "ArrowDown");
    up(&mut s, "ArrowDown", "ArrowDown");
    s.reset();
    assert_eq!(s.keys[KeyName::Up.index()], KeyState::Held);
    assert_eq!(s.keys[KeyName::Down.index()], KeyState::Idle);
    assert!(!s.has_input);
}

#[test]
fn reset_twice_changes_nothing() {
    let mut s = InputState::new();
    down(&mut s, "j", "KeyJ");
    down(&mut s, "q", "KeyQ");
    up(&mut s, "q", "KeyQ");
    s.reset();
    let keys_once = s.keys.clone();
    let text_once = s.text;
    s.reset();
    assert_eq!(s.keys, keys_once);
    assert!(!s.has_input);
    assert_eq!(s.text, text_once);
}

#[test]
fn auto_repeat_reasserts_just() {
    let mut s = InputState::new();
    down(&mut s, "ArrowLeft", "ArrowLeft");
    s.reset();
    assert_eq!(s.keys[KeyName::Left.index()], KeyState::Held);
    down(&mut s, "ArrowLeft", "ArrowLeft");
    assert_eq!(s.keys[KeyName::Left.index()], KeyState::Just);
    assert!(s.press(KeyName::Left));
}

#[test]
fn down_then_up_same_window_is_lift() {
    let mut s = InputState::new();
    down(&mut s, "ArrowLeft", "ArrowLeft");
    up(&mut s, "ArrowLeft", "ArrowLeft");
    assert_eq!(s.keys[KeyName::Left.index()], KeyState::Lift);
    assert!(!s.press(KeyName::Left));
}

#[test]
fn full_slot_table_maps() {
    let table = [
        ("ArrowLeft", KeyName::Left),
        ("ArrowRight", KeyName::Right),
        ("ArrowUp", KeyName::Up),
        ("ArrowDown", KeyName::Down),
        ("ShiftLeft", KeyName::LeftShift),
        ("ShiftRight", KeyName::RightShift),
        ("KeyJ", KeyName::J),
        ("KeyK", KeyName::K),
        ("KeyQ", KeyName::Q),
        ("KeyW", KeyName::W),
        ("KeyT", KeyName::T),
        ("KeyY", KeyName::Y),
        ("KeyU", KeyName::U),
        ("KeyS", KeyName::S),
        ("Numpad0", KeyName::Numpad0),
        ("Numpad1", KeyName::Numpad1),
        ("Numpad2", KeyName::Numpad2),
        ("Numpad3", KeyName::Numpad3),
        ("Numpad4", KeyName::Numpad4),
        ("Numpad5", KeyName::Numpad5),
        ("Numpad6", KeyName::Numpad6),
        ("Numpad7", KeyName::Numpad7),
        ("Numpad8", KeyName::Numpad8),
        ("Numpad9", KeyName::Numpad9),
        ("Period", KeyName::Period),
        ("NumpadDecimal", KeyName::NumpadDot),
    ];
    for (code, slot) in table {
        let mut s = InputState::new();
        down(&mut s, "irrelevant", code);
        assert!(s.press(slot), "code {} should map to {:?}", code, slot);
        // no other slot moved
        for (other_code, other) in table {
            if other_code != code {
                assert_eq!(s.keys[other.index()], KeyState::Idle);
            }
        }
    }
}

#[test]
fn ignored_codes_only_set_has_input() {
    for code in [
        "AltLeft",
        "AltRight",
        "ControlLeft",
        "ControlRight",
        "Space",
        "Tab",
        "Backspace",
        "Escape",
        "Enter",
        "NumpadEnter",
    ] {
        let mut s = InputState::new();
        down(&mut s, " ", code);
        assert!(s.has_input);
        assert_eq!(s.text, '\0', "code {} must not capture text", code);
        for k in &s.keys {
            assert_eq!(*k, KeyState::Idle);
        }
    }
}

#[test]
fn unmapped_single_char_key_captures_text() {
    let mut s = InputState::new();
    down(&mut s, "x", "KeyX");
    assert!(s.has_input);
    assert_eq!(s.text, 'x');
    for k in &s.keys {
        assert_eq!(*k, KeyState::Idle);
    }
}

#[test]
fn composing_key_captures_nothing() {
    let mut s = InputState::new();
    s.update("x".to_string(), "KeyX".to_string(), true, true);
    assert!(s.has_input);
    assert_eq!(s.text, '\0');
}

#[test]
fn multi_char_identifier_captures_nothing() {
    let mut s = InputState::new();
    down(&mut s, "F5", "F5");
    assert!(s.has_input);
    assert_eq!(s.text, '\0');
}

#[test]
fn mapped_code_does_not_capture_text() {
    let mut s = InputState::new();
    down(&mut s, "j", "KeyJ");
    assert_eq!(s.text, '\0');
    assert!(s.press(KeyName::J));
}

#[test]
fn held_spans_down_to_up() {
    let mut s = InputState::new();
    down(&mut s, "Shift", "ShiftLeft");
    assert!(s.held(KeyName::LeftShift));
    s.reset();
    assert!(s.held(KeyName::LeftShift));
    s.reset();
    assert!(s.held(KeyName::LeftShift));
    up(&mut s, "Shift", "ShiftLeft");
    assert!(!s.held(KeyName::LeftShift));
    s.reset();
    assert!(!s.held(KeyName::LeftShift));
}
