//! Cursor/edit dispatcher.
//!
//! Once per frame, the dispatcher reads the edge-detector's output and
//! decides which edit commands to issue to the (external) score
//! controller. Navigation and transpose slots are independent and may
//! each fire in the same frame; the duration shortcuts form one
//! priority chain, so at most one of them fires per frame. Everything
//! is edge-triggered on `press`, except the shift modifiers, which are
//! read as levels with `held`.

use vstd::prelude::*;

use crate::input::{InputState, KeyName, KeyState};

verus! {

/// A note-duration code, as the score controller's `set_duration`
/// expects it: `DenN` is the 1/N note, `NumN` the N-whole note.
#[derive(PartialEq, Eq, Structural, Copy, Clone, Debug)]
pub enum Dur {
    /// Quadruple-whole note.
    Num4,
    /// Double-whole note.
    Num2,
    /// Whole note.
    Num1,
    /// Half note.
    Den2,
    /// Quarter note.
    Den4,
    /// Eighth note.
    Den8,
    /// Sixteenth note.
    Den16,
    /// Thirty-second note.
    Den32,
    /// Sixty-fourth note.
    Den64,
}

/// One mutation for the external score controller, named after the
/// controller operation it stands for.
#[derive(PartialEq, Eq, Structural, Copy, Clone, Debug)]
pub enum Command {
    /// Navigate the cursor backward.
    Left,
    /// Navigate the cursor forward.
    Right,
    /// Transpose the current note up one step.
    UpStep,
    /// Transpose the current note down one step.
    DownStep,
    /// Transpose the current note up one half step.
    UpHalfStep,
    /// Transpose the current note down one half step.
    DownHalfStep,
    /// Set the current note's duration.
    SetDur(Dur),
    /// Toggle the "dotted" flag on the current note.
    ToggleDotted,
    /// Insert a tuplet marker.
    InsertTuplet,
}

/// The named slot reports a press edge this frame.
pub open spec fn slot_pressed(keys: Seq<KeyState>, k: KeyName) -> bool {
    keys[k.idx()].spec_press()
}

/// The named slot is currently down.
pub open spec fn slot_held(keys: Seq<KeyState>, k: KeyName) -> bool {
    keys[k.idx()].spec_held()
}

/// Either of the two aliased slots reports a press edge.
pub open spec fn either_pressed(keys: Seq<KeyState>, a: KeyName, b: KeyName) -> bool {
    slot_pressed(keys, a) || slot_pressed(keys, b)
}

/// Either shift modifier is down. Read as a level, not an edge, so
/// holding shift across frames keeps selecting the half-step variant.
pub open spec fn shift_held(keys: Seq<KeyState>) -> bool {
    slot_held(keys, KeyName::LeftShift) || slot_held(keys, KeyName::RightShift)
}

/// The duration-chain decision: the first pressed shortcut in the
/// fixed priority order wins, each with its letter-row and numeric-pad
/// alias; at most one fires per frame.
pub open spec fn duration_command(keys: Seq<KeyState>) -> Option<Command> {
    if either_pressed(keys, KeyName::Q, KeyName::Numpad5) {
        Some(Command::SetDur(Dur::Den4))
    } else if either_pressed(keys, KeyName::W, KeyName::Numpad7) {
        Some(Command::SetDur(Dur::Num1))
    } else if either_pressed(keys, KeyName::T, KeyName::Numpad4) {
        Some(Command::SetDur(Dur::Den8))
    } else if either_pressed(keys, KeyName::Y, KeyName::Numpad2) {
        Some(Command::SetDur(Dur::Den32))
    } else if slot_pressed(keys, KeyName::Numpad0) {
        Some(Command::InsertTuplet)
    } else if either_pressed(keys, KeyName::U, KeyName::Numpad6) {
        Some(Command::SetDur(Dur::Den2))
    } else if either_pressed(keys, KeyName::S, KeyName::Numpad3) {
        Some(Command::SetDur(Dur::Den16))
    } else if slot_pressed(keys, KeyName::Numpad8) {
        Some(Command::SetDur(Dur::Num2))
    } else if slot_pressed(keys, KeyName::Numpad1) {
        Some(Command::SetDur(Dur::Den64))
    } else if slot_pressed(keys, KeyName::Numpad9) {
        Some(Command::SetDur(Dur::Num4))
    } else if either_pressed(keys, KeyName::Period, KeyName::NumpadDot) {
        Some(Command::ToggleDotted)
    } else {
        None
    }
}

/// A one-command sequence when the condition holds, else nothing.
pub open spec fn cmd_if(b: bool, c: Command) -> Seq<Command> {
    if b {
        seq![c]
    } else {
        Seq::empty()
    }
}

/// The transpose decisions: J and K fire independently; the shift
/// level picks the half-step variants for both.
pub open spec fn transpose_commands(keys: Seq<KeyState>) -> Seq<Command> {
    if shift_held(keys) {
        cmd_if(slot_pressed(keys, KeyName::J), Command::DownHalfStep) + cmd_if(
            slot_pressed(keys, KeyName::K),
            Command::UpHalfStep,
        )
    } else {
        cmd_if(slot_pressed(keys, KeyName::J), Command::DownStep) + cmd_if(
            slot_pressed(keys, KeyName::K),
            Command::UpStep,
        )
    }
}

/// Everything the dispatcher issues this frame, in its fixed priority
/// order: navigation, transposition, then at most one duration-chain
/// command. Nothing fires on a frame without input.
pub open spec fn commands_spec(keys: Seq<KeyState>, has_input: bool) -> Seq<Command> {
    if !has_input {
        Seq::empty()
    } else {
        cmd_if(slot_pressed(keys, KeyName::Left), Command::Left) + cmd_if(
            slot_pressed(keys, KeyName::Right),
            Command::Right,
        ) + transpose_commands(keys) + (match duration_command(keys) {
            Some(c) => seq![c],
            None => Seq::empty(),
        })
    }
}

/// Decide this frame's edit commands from the edge-detector's state.
///
/// The caller applies each command to the external score controller in
/// order, re-renders if the result is non-empty, and then resets the
/// edge-detector.
pub fn commands_for(input: &InputState) -> (r: Vec<Command>)
    requires
        input.wf(),
    ensures
        r@ == commands_spec(input.keys@, input.has_input),
{
    let mut r: Vec<Command> = Vec::new();
    if !input.has_input {
        assert(r@ =~= commands_spec(input.keys@, input.has_input));
        return r;
    }
    if input.press(KeyName::Left) {
        r.push(Command::Left);
    }
    if input.press(KeyName::Right) {
        r.push(Command::Right);
    }
    assert(r@ =~= cmd_if(slot_pressed(input.keys@, KeyName::Left), Command::Left) + cmd_if(
        slot_pressed(input.keys@, KeyName::Right),
        Command::Right,
    ));
    if input.held(KeyName::LeftShift) || input.held(KeyName::RightShift) {
        if input.press(KeyName::J) {
            r.push(Command::DownHalfStep);
        }
        if input.press(KeyName::K) {
            r.push(Command::UpHalfStep);
        }
    } else {
        if input.press(KeyName::J) {
            r.push(Command::DownStep);
        }
        if input.press(KeyName::K) {
            r.push(Command::UpStep);
        }
    }
    assert(r@ =~= cmd_if(slot_pressed(input.keys@, KeyName::Left), Command::Left) + cmd_if(
        slot_pressed(input.keys@, KeyName::Right),
        Command::Right,
    ) + transpose_commands(input.keys@));
    // Note lengths.
    if input.press(KeyName::Q) || input.press(KeyName::Numpad5) {
        r.push(Command::SetDur(Dur::Den4));
    } else if input.press(KeyName::W) || input.press(KeyName::Numpad7) {
        r.push(Command::SetDur(Dur::Num1));
    } else if input.press(KeyName::T) || input.press(KeyName::Numpad4) {
        r.push(Command::SetDur(Dur::Den8));
    } else if input.press(KeyName::Y) || input.press(KeyName::Numpad2) {
        r.push(Command::SetDur(Dur::Den32));
    } else if input.press(KeyName::Numpad0) {
        r.push(Command::InsertTuplet);
    } else if input.press(KeyName::U) || input.press(KeyName::Numpad6) {
        r.push(Command::SetDur(Dur::Den2));
    } else if input.press(KeyName::S) || input.press(KeyName::Numpad3) {
        r.push(Command::SetDur(Dur::Den16));
    } else if input.press(KeyName::Numpad8) {
        r.push(Command::SetDur(Dur::Num2));
    } else if input.press(KeyName::Numpad1) {
        r.push(Command::SetDur(Dur::Den64));
    } else if input.press(KeyName::Numpad9) {
        r.push(Command::SetDur(Dur::Num4));
    } else if input.press(KeyName::Period) || input.press(KeyName::NumpadDot) {
        r.push(Command::ToggleDotted);
    }
    assert(r@ =~= commands_spec(input.keys@, input.has_input));
    r
}

} // verus!
