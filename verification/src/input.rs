//! Event translator: consumes one native input event at a time and
//! mutates the normalized pending-input state the GUI layer reads once
//! per frame.
//!
//! The state keeps the latest known value per field (last write wins
//! for buttons, pointer position, key bits, modifiers and focus), while
//! wheel deltas accumulate and character input queues up until the host
//! layer drains them at the next frame.

use vstd::prelude::*;

verus! {

/// Number of logical mouse-button slots.
pub const BUTTON_SLOT_COUNT: usize = 5;

/// Size of the per-key pressed table; native key codes at or above this
/// bound leave the table unchanged.
pub const KEY_CODE_COUNT: usize = 512;

/// Native modifier bitmask layout: shift bit.
pub const MODIFIER_SHIFT_BIT: u32 = 0x0001;

/// Native modifier bitmask layout: control bit.
pub const MODIFIER_CONTROL_BIT: u32 = 0x0002;

/// Native modifier bitmask layout: alt bit.
pub const MODIFIER_ALT_BIT: u32 = 0x0004;

/// Native modifier bitmask layout: super (logo) bit.
pub const MODIFIER_SUPER_BIT: u32 = 0x0008;

/// The four modifier flags of the normalized input state.
#[derive(Clone, Copy, Debug, PartialEq, Eq, Structural)]
pub struct Modifiers {
    pub ctrl: bool,
    pub alt: bool,
    pub shift: bool,
    pub super_key: bool,
}

impl Modifiers {
    /// All four flags clear.
    pub fn none() -> (m: Modifiers)
        ensures
            m == (Modifiers { ctrl: false, alt: false, shift: false, super_key: false }),
    {
        Modifiers { ctrl: false, alt: false, shift: false, super_key: false }
    }

    /// Decodes a native modifier bitmask into the four flags.
    pub fn from_bits(bits: u32) -> (m: Modifiers)
        ensures
            m.shift == ((bits & MODIFIER_SHIFT_BIT) != 0),
            m.ctrl == ((bits & MODIFIER_CONTROL_BIT) != 0),
            m.alt == ((bits & MODIFIER_ALT_BIT) != 0),
            m.super_key == ((bits & MODIFIER_SUPER_BIT) != 0),
    {
        Modifiers {
            ctrl: (bits & MODIFIER_CONTROL_BIT) != 0,
            alt: (bits & MODIFIER_ALT_BIT) != 0,
            shift: (bits & MODIFIER_SHIFT_BIT) != 0,
            super_key: (bits & MODIFIER_SUPER_BIT) != 0,
        }
    }
}

/// Pointer position in logical window coordinates, or the "outside"
/// sentinel the GUI layer reads as an absent pointer.
#[derive(Clone, Copy, Debug, PartialEq, Eq, Structural)]
pub enum PointerPosition {
    At { x: i64, y: i64 },
    Outside,
}

/// One native input event, normalized to plain values by the host
/// layer. Mouse buttons carry the native 1-based index (1..=5 map to
/// slots 0..=4, anything else is ignored); a key repeat is delivered as
/// `pressed == true`, indistinguishable from a fresh press.
#[derive(Clone, Copy, Debug, PartialEq, Eq, Structural)]
pub enum InputEvent {
    MouseButton { button: u32, pressed: bool, modifiers: Modifiers },
    CursorPosition { x: i64, y: i64 },
    CursorEnter { entered: bool },
    Scroll { dx: i64, dy: i64 },
    CharacterInput { codepoint: char },
    KeyEvent { key: u32, pressed: bool, modifiers: Modifiers },
    FocusChanged { focused: bool },
}

/// The GUI layer's frame-local capture decisions, read by the host
/// layer just before each event is translated.
#[derive(Clone, Copy, Debug, PartialEq, Eq, Structural)]
pub struct CaptureFlags {
    pub mouse: bool,
    pub keyboard: bool,
}

/// Mathematical model of [`NormalizedInputState`].
#[verifier::ext_equal]
pub struct InputModel {
    pub buttons: Seq<bool>,
    pub pointer: PointerPosition,
    pub wheel_x: int,
    pub wheel_y: int,
    pub chars: Seq<char>,
    pub keys: Seq<bool>,
    pub modifiers: Modifiers,
    pub focus_lost: bool,
}

/// The logical button slot a native mouse-button index maps to, if any.
pub open spec fn button_slot(button: u32) -> Option<int> {
    if 1 <= button <= BUTTON_SLOT_COUNT {
        Some(button - 1)
    } else {
        None
    }
}

/// `i64` range clamp used when wheel deltas accumulate.
pub open spec fn clamped_add(a: int, b: int) -> int {
    if a + b > i64::MAX {
        i64::MAX as int
    } else if a + b < i64::MIN {
        i64::MIN as int
    } else {
        a + b
    }
}

/// A well-formed input model has full button and key tables.
pub open spec fn input_wf(m: InputModel) -> bool {
    &&& m.buttons.len() == BUTTON_SLOT_COUNT
    &&& m.keys.len() == KEY_CODE_COUNT
}

/// The input state of a freshly constructed adapter: nothing pressed,
/// pointer at the origin, no pending wheel or character input.
pub open spec fn initial_input_model() -> InputModel {
    InputModel {
        buttons: Seq::new(BUTTON_SLOT_COUNT as nat, |i: int| false),
        pointer: PointerPosition::At { x: 0, y: 0 },
        wheel_x: 0,
        wheel_y: 0,
        chars: Seq::empty(),
        keys: Seq::new(KEY_CODE_COUNT as nat, |i: int| false),
        modifiers: Modifiers { ctrl: false, alt: false, shift: false, super_key: false },
        focus_lost: false,
    }
}

/// Exactly how one event mutates the normalized input state.
pub open spec fn translate_step(m: InputModel, e: InputEvent) -> InputModel {
    match e {
        InputEvent::MouseButton { button, pressed, modifiers: _ } => {
            match button_slot(button) {
                Some(slot) => InputModel { buttons: m.buttons.update(slot, pressed), ..m },
                None => m,
            }
        },
        InputEvent::CursorPosition { x, y } => {
            InputModel { pointer: PointerPosition::At { x, y }, ..m }
        },
        InputEvent::CursorEnter { entered } => {
            if entered {
                m
            } else {
                InputModel { pointer: PointerPosition::Outside, ..m }
            }
        },
        InputEvent::Scroll { dx, dy } => {
            InputModel {
                wheel_x: clamped_add(m.wheel_x, dx as int),
                wheel_y: clamped_add(m.wheel_y, dy as int),
                ..m
            }
        },
        InputEvent::CharacterInput { codepoint } => {
            InputModel { chars: m.chars.push(codepoint), ..m }
        },
        InputEvent::KeyEvent { key, pressed, modifiers } => {
            let with_mods = InputModel { modifiers, ..m };
            if key < KEY_CODE_COUNT {
                InputModel { keys: with_mods.keys.update(key as int, pressed), ..with_mods }
            } else {
                with_mods
            }
        },
        InputEvent::FocusChanged { focused } => {
            InputModel { focus_lost: !focused, ..m }
        },
    }
}

/// Whether the caller should treat the event as captured by the GUI
/// layer: its current capture decision for the event's category, and
/// never for leave/focus events or an unmapped button.
pub open spec fn captured_spec(e: InputEvent, capture: CaptureFlags) -> bool {
    match e {
        InputEvent::MouseButton { button, .. } => button_slot(button) is Some && capture.mouse,
        InputEvent::CursorPosition { .. } => capture.mouse,
        InputEvent::CursorEnter { .. } => false,
        InputEvent::Scroll { .. } => capture.mouse,
        InputEvent::CharacterInput { .. } => capture.keyboard,
        InputEvent::KeyEvent { .. } => capture.keyboard,
        InputEvent::FocusChanged { .. } => false,
    }
}

/// Folds [`translate_step`] over a whole event sequence.
pub open spec fn apply_events(m: InputModel, events: Seq<InputEvent>) -> InputModel
    decreases events.len(),
{
    if events.len() == 0 {
        m
    } else {
        translate_step(apply_events(m, events.drop_last()), events.last())
    }
}

/// The normalized pending-input state the GUI layer consumes once per
/// frame.
pub struct NormalizedInputState {
    /// Pressed state per logical button slot; length [`BUTTON_SLOT_COUNT`].
    buttons: Vec<bool>,
    /// Latest pointer position, or the "outside" sentinel.
    pointer: PointerPosition,
    /// Wheel delta accumulated since the last frame, horizontal axis.
    wheel_x: i64,
    /// Wheel delta accumulated since the last frame, vertical axis.
    wheel_y: i64,
    /// Character input queued since the last frame, oldest first.
    chars: Vec<char>,
    /// Pressed state per native key code; length [`KEY_CODE_COUNT`].
    keys: Vec<bool>,
    /// Latest modifier flags.
    modifiers: Modifiers,
    /// Whether the window lost focus.
    focus_lost: bool,
}

impl View for NormalizedInputState {
    type V = InputModel;

    closed spec fn view(&self) -> InputModel {
        InputModel {
            buttons: self.buttons@,
            pointer: self.pointer,
            wheel_x: self.wheel_x as int,
            wheel_y: self.wheel_y as int,
            chars: self.chars@,
            keys: self.keys@,
            modifiers: self.modifiers,
            focus_lost: self.focus_lost,
        }
    }
}

/// Adds two wheel deltas, clamping at the `i64` range bounds.
fn clamped_add_i64(a: i64, b: i64) -> (r: i64)
    ensures
        r as int == clamped_add(a as int, b as int),
{
    if b >= 0 {
        if a > i64::MAX - b {
            i64::MAX
        } else {
            a + b
        }
    } else {
        if a < i64::MIN - b {
            i64::MIN
        } else {
            a + b
        }
    }
}

impl NormalizedInputState {
    /// Full tables, as every adapter state has.
    pub open spec fn wf(&self) -> bool {
        input_wf(self@)
    }

    /// The state of a freshly constructed adapter.
    pub fn new() -> (state: NormalizedInputState)
        ensures
            state@ =~= initial_input_model(),
            state.wf(),
    {
        let mut buttons: Vec<bool> = Vec::new();
        let mut i: usize = 0;
        while i < BUTTON_SLOT_COUNT
            invariant
                i <= BUTTON_SLOT_COUNT,
                buttons@ =~= Seq::new(i as nat, |j: int| false),
            decreases BUTTON_SLOT_COUNT - i,
        {
            buttons.push(false);
            i += 1;
        }
        let mut keys: Vec<bool> = Vec::new();
        let mut k: usize = 0;
        while k < KEY_CODE_COUNT
            invariant
                k <= KEY_CODE_COUNT,
                keys@ =~= Seq::new(k as nat, |j: int| false),
            decreases KEY_CODE_COUNT - k,
        {
            keys.push(false);
            k += 1;
        }
        NormalizedInputState {
            buttons,
            pointer: PointerPosition::At { x: 0, y: 0 },
            wheel_x: 0,
            wheel_y: 0,
            chars: Vec::new(),
            keys,
            modifiers: Modifiers::none(),
            focus_lost: false,
        }
    }

    /// Applies exactly one event to the state, per [`translate_step`],
    /// and reports whether the GUI layer captures the event.
    pub fn translate(&mut self, event: &InputEvent, capture: CaptureFlags) -> (captured: bool)
        requires
            old(self).wf(),
        ensures
            final(self)@ =~= translate_step(old(self)@, *event),
            final(self).wf(),
            captured == captured_spec(*event, capture),
    {
        match *event {
            InputEvent::MouseButton { button, pressed, modifiers: _ } => {
                if 1 <= button && button <= BUTTON_SLOT_COUNT as u32 {
                    let slot = (button - 1) as usize;
                    self.buttons[slot] = pressed;
                    capture.mouse
                } else {
                    false
                }
            },
            InputEvent::CursorPosition { x, y } => {
                self.pointer = PointerPosition::At { x, y };
                capture.mouse
            },
            InputEvent::CursorEnter { entered } => {
                if !entered {
                    self.pointer = PointerPosition::Outside;
                }
                false
            },
            InputEvent::Scroll { dx, dy } => {
                self.wheel_x = clamped_add_i64(self.wheel_x, dx);
                self.wheel_y = clamped_add_i64(self.wheel_y, dy);
                capture.mouse
            },
            InputEvent::CharacterInput { codepoint } => {
                self.chars.push(codepoint);
                capture.keyboard
            },
            InputEvent::KeyEvent { key, pressed, modifiers } => {
                self.modifiers = modifiers;
                if key < KEY_CODE_COUNT as u32 {
                    self.keys[key as usize] = pressed;
                }
                capture.keyboard
            },
            InputEvent::FocusChanged { focused } => {
                self.focus_lost = !focused;
                false
            },
        }
    }

    /// Hands the wheel delta accumulated since the last frame to the
    /// caller and resets the accumulator.
    pub fn take_wheel_delta(&mut self) -> (delta: (i64, i64))
        ensures
            delta.0 == old(self)@.wheel_x,
            delta.1 == old(self)@.wheel_y,
            final(self)@ =~= (InputModel { wheel_x: 0, wheel_y: 0, ..old(self)@ }),
    {
        let delta = (self.wheel_x, self.wheel_y);
        self.wheel_x = 0;
        self.wheel_y = 0;
        delta
    }

    /// Hands the characters queued since the last frame to the caller,
    /// oldest first, and empties the queue.
    pub fn take_queued_characters(&mut self) -> (queued: Vec<char>)
        ensures
            queued@ == old(self)@.chars,
            final(self)@ =~= (InputModel { chars: Seq::empty(), ..old(self)@ }),
    {
        let mut queued: Vec<char> = Vec::new();
        core::mem::swap(&mut queued, &mut self.chars);
        queued
    }

    /// Pressed state of one logical button slot.
    pub fn button_pressed(&self, slot: usize) -> (pressed: bool)
        requires
            self.wf(),
            slot < BUTTON_SLOT_COUNT,
        ensures
            pressed == self@.buttons[slot as int],
    {
        self.buttons[slot]
    }

    /// Latest pointer position, or the "outside" sentinel.
    pub fn pointer(&self) -> (p: PointerPosition)
        ensures
            p == self@.pointer,
    {
        self.pointer
    }

    /// Pressed state of one native key code.
    pub fn key_pressed(&self, key: usize) -> (pressed: bool)
        requires
            self.wf(),
            key < KEY_CODE_COUNT,
        ensures
            pressed == self@.keys[key as int],
    {
        self.keys[key]
    }

    /// Latest modifier flags.
    pub fn modifiers(&self) -> (m: Modifiers)
        ensures
            m == self@.modifiers,
    {
        self.modifiers
    }

    /// Whether the window lost focus.
    pub fn focus_lost(&self) -> (lost: bool)
        ensures
            lost == self@.focus_lost,
    {
        self.focus_lost
    }
}

/// Law: for any nonempty run of mouse-button events that all target the
/// same logical slot, the slot's final pressed state is the pressed
/// state of the last event — last write wins.
pub proof fn lemma_button_last_write_wins(
    m: InputModel,
    events: Seq<InputEvent>,
    slot: int,
    pressed_last: bool,
)
    requires
        input_wf(m),
        events.len() > 0,
        forall|i: int|
            0 <= i < events.len() ==> ((#[trigger] events[i]) matches InputEvent::MouseButton {
                button,
                ..
            } && button_slot(button) == Some(slot)),
        events.last() matches InputEvent::MouseButton { pressed, .. } && pressed == pressed_last,
    ensures
        apply_events(m, events).buttons[slot] == pressed_last,
{
    // The last event writes the slot, whatever the earlier events did;
    // only the table's fullness is needed, and folding preserves it.
    lemma_apply_events_wf(m, events.drop_last());
    assert(events[events.len() - 1] == events.last());
}

/// Every translation step keeps the button and key tables full.
pub proof fn lemma_translate_step_wf(m: InputModel, e: InputEvent)
    requires
        input_wf(m),
    ensures
        input_wf(translate_step(m, e)),
{
}

/// Folding any event sequence keeps the model well formed.
pub proof fn lemma_apply_events_wf(m: InputModel, events: Seq<InputEvent>)
    requires
        input_wf(m),
    ensures
        input_wf(apply_events(m, events)),
    decreases events.len(),
{
    if events.len() > 0 {
        lemma_apply_events_wf(m, events.drop_last());
        lemma_translate_step_wf(apply_events(m, events.drop_last()), events.last());
    }
}

} // verus!
