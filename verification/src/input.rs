//! Key-state edge-detector.
//!
//! Raw key-down / key-up events are folded into a per-slot state
//! machine with four states. A slot's state answers two queries:
//! `held` (the key is currently down, level-triggered) and `press`
//! (the key went down during the current un-reset frame,
//! edge-triggered). Once per frame, after the dispatcher has consumed
//! the edges, `reset` demotes the transient states.

use vstd::prelude::*;

verus! {

/// Number of logical key slots tracked by [`InputState`].
pub const KEY_COUNT: usize = 26;

/// State of a key.
///
/// Conceptually a two-bit code: the high bit means "currently down",
/// the low bit means "changed this frame". `Idle` = 00, `Lift` = 01,
/// `Held` = 10, `Just` = 11.
#[derive(PartialEq, Eq, Structural, Copy, Clone, Debug)]
pub enum KeyState {
    /// Not pressed.
    Idle,
    /// Just got pressed.
    Just,
    /// Held down.
    Held,
    /// Just got released.
    Lift,
}

impl KeyState {
    /// The two-bit encoding of this state.
    pub open spec fn bits(self) -> u8 {
        match self {
            KeyState::Idle => 0,
            KeyState::Lift => 1,
            KeyState::Held => 2,
            KeyState::Just => 3,
        }
    }

    /// The key is currently down: the high bit of the encoding.
    pub open spec fn spec_held(self) -> bool {
        self == KeyState::Just || self == KeyState::Held
    }

    /// The key went down this frame and no reset has run since.
    pub open spec fn spec_press(self) -> bool {
        self == KeyState::Just
    }

    /// Returns true if the key is held down.
    pub fn held(self) -> (r: bool)
        ensures
            r == self.spec_held(),
    {
        matches!(self, KeyState::Just | KeyState::Held)
    }

    /// Returns true if the key was just pressed.
    pub fn press(self) -> (r: bool)
        ensures
            r == self.spec_press(),
    {
        self == KeyState::Just
    }

    /// `held` and `press` read exactly the bits of the two-bit code:
    /// `held` is the high bit, `press` is the full `Just` code.
    pub proof fn lemma_bits_encode(self)
        ensures
            self.spec_held() == (self.bits() >> 1 == 1),
            self.spec_press() == (self.bits() == 3),
    {
        assert((0 as u8) >> 1 == 0) by (bit_vector);
        assert((1 as u8) >> 1 == 0) by (bit_vector);
        assert((2 as u8) >> 1 == 1) by (bit_vector);
        assert((3 as u8) >> 1 == 1) by (bit_vector);
    }
}

/// A logical key slot on the keyboard: arrows, the two shift
/// modifiers, the letter-row note-duration shortcuts, their numeric-pad
/// mirror, and the punctuation used for "dotted". `Max` is the slot
/// count sentinel and does not name a slot.
#[derive(PartialEq, Eq, Structural, Copy, Clone, Debug)]
pub enum KeyName {
    Left,
    Right,
    Up,
    Down,
    LeftShift,
    RightShift,
    J,
    K,
    Q,
    W,
    T,
    Y,
    U,
    S,
    Numpad0,
    Numpad1,
    Numpad2,
    Numpad3,
    Numpad4,
    Numpad5,
    Numpad6,
    Numpad7,
    Numpad8,
    Numpad9,
    Period,
    NumpadDot,
    Max,
}

impl KeyName {
    /// Position of this slot in the key-state table; `Max` maps to the
    /// table's length.
    pub open spec fn idx(self) -> int {
        match self {
            KeyName::Left => 0,
            KeyName::Right => 1,
            KeyName::Up => 2,
            KeyName::Down => 3,
            KeyName::LeftShift => 4,
            KeyName::RightShift => 5,
            KeyName::J => 6,
            KeyName::K => 7,
            KeyName::Q => 8,
            KeyName::W => 9,
            KeyName::T => 10,
            KeyName::Y => 11,
            KeyName::U => 12,
            KeyName::S => 13,
            KeyName::Numpad0 => 14,
            KeyName::Numpad1 => 15,
            KeyName::Numpad2 => 16,
            KeyName::Numpad3 => 17,
            KeyName::Numpad4 => 18,
            KeyName::Numpad5 => 19,
            KeyName::Numpad6 => 20,
            KeyName::Numpad7 => 21,
            KeyName::Numpad8 => 22,
            KeyName::Numpad9 => 23,
            KeyName::Period => 24,
            KeyName::NumpadDot => 25,
            KeyName::Max => 26,
        }
    }

    /// Table position of this slot, as a machine index.
    pub fn index(self) -> (r: usize)
        ensures
            r as int == self.idx(),
    {
        match self {
            KeyName::Left => 0,
            KeyName::Right => 1,
            KeyName::Up => 2,
            KeyName::Down => 3,
            KeyName::LeftShift => 4,
            KeyName::RightShift => 5,
            KeyName::J => 6,
            KeyName::K => 7,
            KeyName::Q => 8,
            KeyName::W => 9,
            KeyName::T => 10,
            KeyName::Y => 11,
            KeyName::U => 12,
            KeyName::S => 13,
            KeyName::Numpad0 => 14,
            KeyName::Numpad1 => 15,
            KeyName::Numpad2 => 16,
            KeyName::Numpad3 => 17,
            KeyName::Numpad4 => 18,
            KeyName::Numpad5 => 19,
            KeyName::Numpad6 => 20,
            KeyName::Numpad7 => 21,
            KeyName::Numpad8 => 22,
            KeyName::Numpad9 => 23,
            KeyName::Period => 24,
            KeyName::NumpadDot => 25,
            KeyName::Max => 26,
        }
    }

    /// Whether this is a real slot (everything but the `Max` sentinel).
    pub open spec fn is_slot(self) -> bool {
        0 <= self.idx() < KEY_COUNT
    }
}

/// The slot a physical key code maps to, from the fixed table:
/// arrows, the shift modifiers, the letter duration shortcuts, the
/// numeric-pad mirror, and the "dotted" punctuation. Unmapped codes
/// yield `None`.
pub open spec fn slot_of(code: Seq<char>) -> Option<KeyName> {
    if code == "ArrowLeft"@ {
        Some(KeyName::Left)
    } else if code == "ArrowRight"@ {
        Some(KeyName::Right)
    } else if code == "ArrowUp"@ {
        Some(KeyName::Up)
    } else if code == "ArrowDown"@ {
        Some(KeyName::Down)
    } else if code == "ShiftLeft"@ {
        Some(KeyName::LeftShift)
    } else if code == "ShiftRight"@ {
        Some(KeyName::RightShift)
    } else if code == "KeyJ"@ {
        Some(KeyName::J)
    } else if code == "KeyK"@ {
        Some(KeyName::K)
    } else if code == "KeyQ"@ {
        Some(KeyName::Q)
    } else if code == "KeyW"@ {
        Some(KeyName::W)
    } else if code == "KeyT"@ {
        Some(KeyName::T)
    } else if code == "KeyY"@ {
        Some(KeyName::Y)
    } else if code == "KeyU"@ {
        Some(KeyName::U)
    } else if code == "KeyS"@ {
        Some(KeyName::S)
    } else if code == "Numpad0"@ {
        Some(KeyName::Numpad0)
    } else if code == "Numpad1"@ {
        Some(KeyName::Numpad1)
    } else if code == "Numpad2"@ {
        Some(KeyName::Numpad2)
    } else if code == "Numpad3"@ {
        Some(KeyName::Numpad3)
    } else if code == "Numpad4"@ {
        Some(KeyName::Numpad4)
    } else if code == "Numpad5"@ {
        Some(KeyName::Numpad5)
    } else if code == "Numpad6"@ {
        Some(KeyName::Numpad6)
    } else if code == "Numpad7"@ {
        Some(KeyName::Numpad7)
    } else if code == "Numpad8"@ {
        Some(KeyName::Numpad8)
    } else if code == "Numpad9"@ {
        Some(KeyName::Numpad9)
    } else if code == "Period"@ {
        Some(KeyName::Period)
    } else if code == "NumpadDecimal"@ {
        Some(KeyName::NumpadDot)
    } else {
        None
    }
}

/// Codes that are consumed without mapping to a slot and without
/// falling through to text capture.
pub open spec fn ignored_code(code: Seq<char>) -> bool {
    ||| code == "AltLeft"@
    ||| code == "AltRight"@
    ||| code == "ControlLeft"@
    ||| code == "ControlRight"@
    ||| code == "Space"@
    ||| code == "Tab"@
    ||| code == "Backspace"@
    ||| code == "Escape"@
    ||| code == "Enter"@
    ||| code == "NumpadEnter"@
}

/// Every mapped code names a real slot, never the `Max` sentinel.
pub proof fn lemma_slot_of_is_slot(code: Seq<char>)
    ensures
        slot_of(code) matches Some(k) ==> k.is_slot(),
{
}

/// The slot state written by an event: a down event re-asserts `Just`
/// unconditionally (so OS auto-repeat re-triggers the edge), an up
/// event writes `Lift`.
pub open spec fn event_state(down: bool) -> KeyState {
    if down {
        KeyState::Just
    } else {
        KeyState::Lift
    }
}

/// What `update` does to the key table: the mapped slot (if any) is
/// overwritten with the event state, every other slot is untouched.
pub open spec fn update_keys_spec(keys: Seq<KeyState>, code: Seq<char>, down: bool) -> Seq<
    KeyState,
> {
    match slot_of(code) {
        Some(k) => keys.update(k.idx(), event_state(down)),
        None => keys,
    }
}

/// What `update` does to the captured text character: an unmapped,
/// un-ignored, single-character key pressed while not mid-composition
/// replaces it; everything else leaves it alone.
pub open spec fn update_text_spec(
    text: char,
    key: Seq<char>,
    code: Seq<char>,
    ic: bool,
) -> char {
    if slot_of(code) is None && !ignored_code(code) && key.len() == 1 && !ic {
        key[0]
    } else {
        text
    }
}

/// What `reset` does to one slot: edges are demoted to their level
/// states (`Just` to `Held`, `Lift` to `Idle`), levels are kept.
pub open spec fn reset_key(s: KeyState) -> KeyState {
    match s {
        KeyState::Just => KeyState::Held,
        KeyState::Lift => KeyState::Idle,
        _ => s,
    }
}

/// What `reset` does to the whole key table.
pub open spec fn reset_keys_spec(keys: Seq<KeyState>) -> Seq<KeyState> {
    keys.map_values(|s: KeyState| reset_key(s))
}

/// Input state: the per-slot key table, whether any event arrived
/// since the last reset, and the last captured text character.
pub struct InputState {
    /// Per-slot key states, indexed by [`KeyName::idx`].
    pub keys: Vec<KeyState>,
    /// If any Just or Lift has happened.
    pub has_input: bool,
    /// A unicode character.
    pub text: char,
}

impl InputState {
    /// The key table always holds one state per slot.
    pub open spec fn wf(self) -> bool {
        self.keys@.len() == KEY_COUNT
    }

    /// Create a new keys / buttons state.
    pub fn new() -> (r: InputState)
        ensures
            r.wf(),
            forall|i: int| 0 <= i < KEY_COUNT ==> r.keys@[i] == KeyState::Idle,
            !r.has_input,
            r.text == '\0',
    {
        InputState { keys: vec![KeyState::Idle; KEY_COUNT], has_input: false, text: '\0' }
    }

    /// Looks the physical key code up in the fixed slot table.
    fn slot_for(code: &String) -> (r: Option<KeyName>)
        ensures
            r == slot_of(code@),
    {
        if *code == "ArrowLeft".to_owned() {
            Some(KeyName::Left)
        } else if *code == "ArrowRight".to_owned() {
            Some(KeyName::Right)
        } else if *code == "ArrowUp".to_owned() {
            Some(KeyName::Up)
        } else if *code == "ArrowDown".to_owned() {
            Some(KeyName::Down)
        } else if *code == "ShiftLeft".to_owned() {
            Some(KeyName::LeftShift)
        } else if *code == "ShiftRight".to_owned() {
            Some(KeyName::RightShift)
        } else if *code == "KeyJ".to_owned() {
            Some(KeyName::J)
        } else if *code == "KeyK".to_owned() {
            Some(KeyName::K)
        } else if *code == "KeyQ".to_owned() {
            Some(KeyName::Q)
        } else if *code == "KeyW".to_owned() {
            Some(KeyName::W)
        } else if *code == "KeyT".to_owned() {
            Some(KeyName::T)
        } else if *code == "KeyY".to_owned() {
            Some(KeyName::Y)
        } else if *code == "KeyU".to_owned() {
            Some(KeyName::U)
        } else if *code == "KeyS".to_owned() {
            Some(KeyName::S)
        } else if *code == "Numpad0".to_owned() {
            Some(KeyName::Numpad0)
        } else if *code == "Numpad1".to_owned() {
            Some(KeyName::Numpad1)
        } else if *code == "Numpad2".to_owned() {
            Some(KeyName::Numpad2)
        } else if *code == "Numpad3".to_owned() {
            Some(KeyName::Numpad3)
        } else if *code == "Numpad4".to_owned() {
            Some(KeyName::Numpad4)
        } else if *code == "Numpad5".to_owned() {
            Some(KeyName::Numpad5)
        } else if *code == "Numpad6".to_owned() {
            Some(KeyName::Numpad6)
        } else if *code == "Numpad7".to_owned() {
            Some(KeyName::Numpad7)
        } else if *code == "Numpad8".to_owned() {
            Some(KeyName::Numpad8)
        } else if *code == "Numpad9".to_owned() {
            Some(KeyName::Numpad9)
        } else if *code == "Period".to_owned() {
            Some(KeyName::Period)
        } else if *code == "NumpadDecimal".to_owned() {
            Some(KeyName::NumpadDot)
        } else {
            None
        }
    }

    /// Tests the code against the consumed-but-unmapped set.
    fn code_ignored(code: &String) -> (r: bool)
        ensures
            r == ignored_code(code@),
    {
        *code == "AltLeft".to_owned() || *code == "AltRight".to_owned() || *code
            == "ControlLeft".to_owned() || *code == "ControlRight".to_owned() || *code
            == "Space".to_owned() || *code == "Tab".to_owned() || *code == "Backspace".to_owned()
            || *code == "Escape".to_owned() || *code == "Enter".to_owned() || *code
            == "NumpadEnter".to_owned()
    }

    /// Feed one raw keyboard event into the edge-detector.
    ///
    /// `key` is the human-readable key identifier, `code` the physical
    /// key code, `ic` the composition flag, and `held` says whether
    /// this is a down event. The mapped slot (if any) is overwritten
    /// with `Just` or `Lift`; an unmapped single-character key while
    /// not composing is captured as text; `has_input` is set either
    /// way.
    pub fn update(&mut self, key: String, code: String, ic: bool, held: bool)
        requires
            old(self).wf(),
        ensures
            final(self).wf(),
            final(self).has_input,
            final(self).keys@ == update_keys_spec(old(self).keys@, code@, held),
            final(self).text == update_text_spec(old(self).text, key@, code@, ic),
    {
        let state = if held {
            KeyState::Just
        } else {
            KeyState::Lift
        };
        self.has_input = true;

        match Self::slot_for(&code) {
            Some(k) => {
                proof {
                    lemma_slot_of_is_slot(code@);
                }
                let i = k.index();
                self.keys[i] = state;
            },
            None => {
                // A unicode character has been typed.
                if !Self::code_ignored(&code) {
                    if key.as_str().unicode_len() == 1 && !ic {
                        self.text = key.as_str().get_char(0);
                    }
                }
            },
        }
    }

    /// Turn Just & Lift into Held & Idle and clear `has_input`.
    ///
    /// Runs once per completed frame, strictly after the dispatcher has
    /// consumed the frame's edge states.
    pub fn reset(&mut self)
        requires
            old(self).wf(),
        ensures
            final(self).wf(),
            final(self).keys@ == reset_keys_spec(old(self).keys@),
            !final(self).has_input,
            final(self).text == old(self).text,
    {
        let ghost orig = self.keys@;
        let mut i: usize = 0;
        while i < KEY_COUNT
            invariant
                self.keys@.len() == KEY_COUNT,
                orig.len() == KEY_COUNT,
                i <= KEY_COUNT,
                forall|j: int| 0 <= j < i ==> self.keys@[j] == reset_key(orig[j]),
                forall|j: int| i <= j < KEY_COUNT ==> self.keys@[j] == orig[j],
                self.has_input == old(self).has_input,
                self.text == old(self).text,
            decreases KEY_COUNT - i,
        {
            let k = self.keys[i];
            self.keys[i] = match k {
                KeyState::Just => KeyState::Held,
                KeyState::Lift => KeyState::Idle,
                a => a,
            };
            i = i + 1;
        }
        self.has_input = false;
        proof {
            assert(self.keys@ =~= reset_keys_spec(orig));
        }
    }

    /// Pure read: was `key` just pressed this frame (edge-triggered)?
    pub fn press(&self, key: KeyName) -> (r: bool)
        requires
            self.wf(),
            key.is_slot(),
        ensures
            r == self.keys@[key.idx()].spec_press(),
    {
        self.keys[key.index()].press()
    }

    /// Pure read: is `key` currently down (level-triggered)?
    pub fn held(&self, key: KeyName) -> (r: bool)
        requires
            self.wf(),
            key.is_slot(),
        ensures
            r == self.keys@[key.idx()].spec_held(),
    {
        self.keys[key.index()].held()
    }
}

/// One event touching a single key slot, as the edge-detector sees it:
/// a down or up report from the host, or the end-of-frame `reset`.
#[derive(PartialEq, Eq, Structural, Copy, Clone, Debug)]
pub enum KeyEvent {
    /// The host reported the key going (or repeating) down.
    Down,
    /// The host reported the key going up.
    Up,
    /// The per-frame `reset` ran.
    Reset,
}

/// How one event advances one slot: events overwrite the state
/// unconditionally (last write wins), `reset` demotes the edges.
pub open spec fn key_step(s: KeyState, e: KeyEvent) -> KeyState {
    match e {
        KeyEvent::Down => KeyState::Just,
        KeyEvent::Up => KeyState::Lift,
        KeyEvent::Reset => reset_key(s),
    }
}

/// A slot's state after a whole sequence of events, oldest first.
pub open spec fn key_run(s: KeyState, es: Seq<KeyEvent>) -> KeyState
    decreases es.len(),
{
    if es.len() == 0 {
        s
    } else {
        key_step(key_run(s, es.drop_last()), es.last())
    }
}

/// Whether the last down/up event in the sequence is a down, i.e.
/// whether the key is down at the end; `dflt` answers for a sequence
/// with no down/up event at all.
pub open spec fn last_edge_is_down(es: Seq<KeyEvent>, dflt: bool) -> bool
    decreases es.len(),
{
    if es.len() == 0 {
        dflt
    } else if es.last() == KeyEvent::Down {
        true
    } else if es.last() == KeyEvent::Up {
        false
    } else {
        last_edge_is_down(es.drop_last(), dflt)
    }
}

/// `update` acts on the slot its code maps to as a single `Down` or
/// `Up` step of the per-slot machine, and touches no other slot.
pub proof fn lemma_update_acts_on_slot(
    keys: Seq<KeyState>,
    code: Seq<char>,
    down: bool,
    k: KeyName,
)
    requires
        keys.len() == KEY_COUNT,
        slot_of(code) == Some(k),
    ensures
        update_keys_spec(keys, code, down)[k.idx()] == key_step(
            keys[k.idx()],
            if down {
                KeyEvent::Down
            } else {
                KeyEvent::Up
            },
        ),
        forall|j: int|
            0 <= j < KEY_COUNT && j != k.idx() ==> update_keys_spec(keys, code, down)[j]
                == keys[j],
{
    lemma_slot_of_is_slot(code);
}

/// `reset` acts on every slot as one `Reset` step of the per-slot
/// machine.
pub proof fn lemma_reset_acts_on_each_slot(keys: Seq<KeyState>)
    requires
        keys.len() == KEY_COUNT,
    ensures
        reset_keys_spec(keys).len() == KEY_COUNT,
        forall|i: int|
            0 <= i < KEY_COUNT ==> reset_keys_spec(keys)[i] == key_step(
                keys[i],
                KeyEvent::Reset,
            ),
{
}

/// Press is one reset-interval wide: over every event sequence for a
/// slot, `press` holds at the end exactly when the last event is a
/// down. So it holds for the one un-reset interval right after a down
/// event, never before a down, and never across the following reset
/// (which appends a `Reset` event); a repeated query on a later frame
/// sees the frame boundary's `Reset` and reports false.
pub proof fn lemma_press_exactly_after_down(s: KeyState, es: Seq<KeyEvent>)
    ensures
        key_run(s, es).spec_press() == if es.len() == 0 {
            s.spec_press()
        } else {
            es.last() == KeyEvent::Down
        },
    decreases es.len(),
{
    if es.len() > 0 {
        lemma_press_exactly_after_down(s, es.drop_last());
    }
}

/// Held is level-triggered: over every event sequence for a slot,
/// `held` holds at the end exactly when the last down/up event is a
/// down — true from the down event's own frame through the matching
/// up event's frame (resets in between change nothing), false
/// otherwise.
pub proof fn lemma_held_between_down_and_up(s: KeyState, es: Seq<KeyEvent>)
    ensures
        key_run(s, es).spec_held() == last_edge_is_down(es, s.spec_held()),
    decreases es.len(),
{
    if es.len() > 0 {
        lemma_held_between_down_and_up(s, es.drop_last());
    }
}

/// A second `reset` with no event in between changes nothing: the key
/// table is already a fixed point, `has_input` is already clear and
/// `reset` never touches the text character.
pub proof fn lemma_reset_idempotent(keys: Seq<KeyState>)
    ensures
        reset_keys_spec(reset_keys_spec(keys)) == reset_keys_spec(keys),
{
    assert(reset_keys_spec(reset_keys_spec(keys)) =~= reset_keys_spec(keys));
}

} // verus!
