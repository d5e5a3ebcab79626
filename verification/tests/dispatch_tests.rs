use scorefall_studio::command::{commands_for, Command, Dur};
use scorefall_studio::input::InputState;

fn down(s: &mut InputState, key: &str, code: &str) {
    s.update(key.to_string(), code.to_string(), false, true);
}

fn up(s: &mut InputState, key: &str, code: &str) {
    s.update(key.to_string(), code.to_string(), false, false);
}

#[test]
fn no_input_no_commands() {
    let s = InputState::new();
    assert_eq!(commands_for(&s), vec![]);
}

#[test]
fn left_press_fires_left_once() {
    let mut s = InputState::new();
    down(&mut s, "ArrowLeft", "ArrowLeft");
    assert_eq!(commands_for(&s), vec![Command::Left]);
}

#[test]
fn held_key_does_not_refire() {
    let mut s = InputState::new();
    down(&mut s, "ArrowLeft", "ArrowLeft");
    assert_eq!(commands_for(&s), vec![Command::Left]);
    s.reset();
    // key still held, but has_input is also gone: nothing fires
    assert_eq!(commands_for(&s), vec![]);
    // even with fresh unrelated input, Held is not a press
    down(&mut s, " ", "Space");
    assert_eq!(commands_for(&s), vec![]);
}

#[test]
fn down_then_up_same_window_fires_nothing() {
    let mut s = InputState::new();
    down(&mut s, "ArrowLeft", "ArrowLeft");
    up(&mut s, "ArrowLeft", "ArrowLeft");
    assert_eq!(commands_for(&s), vec![]);
}

#[test]
fn transpose_steps_without_shift() {
    let mut s = InputState::new();
    down(&mut s, "j", "KeyJ");
    assert_eq!(commands_for(&s), vec![Command::DownStep]);
    let mut s = InputState::new();
    down(&mut s, "k", "KeyK");
    assert_eq!(commands_for(&s), vec![Command::UpStep]);
}

#[test]
fn shift_level_selects_half_steps() {
    let mut s = InputState::new();
    down(&mut s, "Shift", "ShiftLeft");
    s.reset();
    // shift is merely held on a later frame; J pressed now
    down(&mut s, "J", "KeyJ");
    assert_eq!(commands_for(&s), vec![Command::DownHalfStep]);

    let mut s = InputState::new();
    down(&mut s, "Shift", "ShiftRight");
    down(&mut s, "K", "KeyK");
    assert_eq!(commands_for(&s), vec![Command::UpHalfStep]);
}

#[test]
fn modifier_released_before_press_selects_full_step() {
    let mut s = InputState::new();
    down(&mut s, "Shift", "ShiftLeft");
    s.reset();
    up(&mut s, "Shift", "ShiftLeft");
    s.reset();
    down(&mut s, "j", "KeyJ");
    assert_eq!(commands_for(&s), vec![Command::DownStep]);
}

#[test]
fn duration_shortcuts_letter_row() {
    let cases = [
        ("KeyQ", Command::SetDur(Dur::Den4)),
        ("KeyW", Command::SetDur(Dur::Num1)),
        ("KeyT", Command::SetDur(Dur::Den8)),
        ("KeyY", Command::SetDur(Dur::Den32)),
        ("KeyU", Command::SetDur(Dur::Den2)),
        ("KeyS", Command::SetDur(Dur::Den16)),
        ("Period", Command::ToggleDotted),
    ];
    for (code, cmd) in cases {
        let mut s = InputState::new();
        down(&mut s, "irrelevant", code);
        assert_eq!(commands_for(&s), vec![cmd], "code {}", code);
    }
}

#[test]
fn duration_shortcuts_numpad_mirror() {
    let cases = [
        ("Numpad5", Command::SetDur(Dur::Den4)),
        ("Numpad7", Command::SetDur(Dur::Num1)),
        ("Numpad4", Command::SetDur(Dur::Den8)),
        ("Numpad2", Command::SetDur(Dur::Den32)),
        ("Numpad0", Command::InsertTuplet),
        ("Numpad6", Command::SetDur(Dur::Den2)),
        ("Numpad3", Command::SetDur(Dur::Den16)),
        ("Numpad8", Command::SetDur(Dur::Num2)),
        ("Numpad1", Command::SetDur(Dur::Den64)),
        ("Numpad9", Command::SetDur(Dur::Num4)),
        ("NumpadDecimal", Command::ToggleDotted),
    ];
    for (code, cmd) in cases {
        let mut s = InputState::new();
        down(&mut s, "irrelevant", code);
        assert_eq!(commands_for(&s), vec![cmd], "code {}", code);
    }
}

#[test]
fn duration_chain_fires_at_most_one() {
    let mut s = InputState::new();
    down(&mut s, "q", "KeyQ");
    down(&mut s, "w", "KeyW");
    down(&mut s, ".", "Period");
    // Q wins the chain; W and Period are swallowed this frame
    assert_eq!(commands_for(&s), vec![Command::SetDur(Dur::Den4)]);
}

#[test]
fn independent_slots_fire_together_in_priority_order() {
    let mut s = InputState::new();
    down(&mut s, "q", "KeyQ");
    down(&mut s, "ArrowRight", "ArrowRight");
    down(&mut s, "ArrowLeft", "ArrowLeft");
    down(&mut s, "k", "KeyK");
    assert_eq!(
        commands_for(&s),
        vec![Command::Left, Command::Right, Command::UpStep, Command::SetDur(Dur::Den4)]
    );
}

#[test]
fn arrow_up_down_slots_issue_no_command() {
    let mut s = InputState::new();
    down(&mut s, "ArrowUp", "ArrowUp");
    down(&mut s, "ArrowDown", "ArrowDown");
    assert_eq!(commands_for(&s), vec![]);
}
