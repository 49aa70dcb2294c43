//! Key events, key actions and modifier state shared by every layer.

use vstd::prelude::*;

use crate::scanmap::PhysicalPos;

verus! {

/// Microseconds since an arbitrary fixed point.
pub type Timestamp = u64;

/// Virtual key code as the platform reports it.
#[derive(Debug, Clone, Copy, PartialEq, Eq, Structural, Hash)]
pub struct VkCode(pub u16);

/// Hardware scan code.
#[derive(Debug, Clone, Copy, PartialEq, Eq, Structural, Hash)]
pub struct ScanCode(pub u32);

#[derive(Debug, Clone, Copy, PartialEq, Eq, Structural)]
pub enum KeyEventType {
    KeyDown,
    KeyUp,
}

/// Role of a key, decided once by the platform layer.
#[derive(Debug, Clone, Copy, PartialEq, Eq, Structural)]
pub enum KeyClassification {
    Char,
    LeftThumb,
    RightThumb,
    Passthrough,
}

#[derive(Debug, Clone, Copy, PartialEq, Eq, Structural)]
pub enum ModifierKey {
    Ctrl,
    Shift,
    Alt,
    Meta,
}

/// What a key asks of the IME open state.
#[derive(Debug, Clone, Copy, PartialEq, Eq, Structural)]
pub enum ShadowImeAction {
    TurnOn,
    TurnOff,
    Toggle,
}

impl ShadowImeAction {
    /// Open state requested when the IME is currently `ime_on`.
    pub open spec fn target_spec(self, ime_on: bool) -> bool {
        match self {
            ShadowImeAction::TurnOn => true,
            ShadowImeAction::TurnOff => false,
            ShadowImeAction::Toggle => !ime_on,
        }
    }

    /// Open state requested when the IME is currently `ime_on`.
    #[must_use]
    pub fn target(self, ime_on: bool) -> (open: bool)
        ensures
            open == self.target_spec(ime_on),
    {
        match self {
            ShadowImeAction::TurnOn => true,
            ShadowImeAction::TurnOff => false,
            ShadowImeAction::Toggle => !ime_on,
        }
    }
}

/// How a key relates to the IME, classified by the platform layer.
#[derive(Debug, Clone, Copy, PartialEq, Eq, Structural)]
pub struct ImeRelevance {
    /// The key controls the IME itself (half/full width, katakana, ...).
    pub is_ime_control: bool,
    /// The key is watched by `keys.ime_detect` and moves the believed IME state this way.
    pub sync_direction: Option<ShadowImeAction>,
}

impl Default for ImeRelevance {
    fn default() -> (r: Self)
        ensures
            r == (ImeRelevance { is_ime_control: false, sync_direction: None }),
    {
        ImeRelevance { is_ime_control: false, sync_direction: None }
    }
}

/// Modifier keys that are physically held.
#[derive(Debug, Clone, Copy, PartialEq, Eq, Structural)]
pub struct ModifierState {
    pub ctrl: bool,
    pub alt: bool,
    pub shift: bool,
    pub win: bool,
}

impl Default for ModifierState {
    fn default() -> (m: Self)
        ensures
            m == (ModifierState { ctrl: false, alt: false, shift: false, win: false }),
    {
        ModifierState { ctrl: false, alt: false, shift: false, win: false }
    }
}

impl ModifierState {
    pub open spec fn os_modifier_held(self) -> bool {
        self.ctrl || self.alt || self.win
    }

    /// A modifier that the OS reserves for shortcuts is held. Shift is not one of them.
    #[must_use]
    pub fn is_os_modifier_held(&self) -> (held: bool)
        ensures
            held == self.os_modifier_held(),
    {
        self.ctrl || self.alt || self.win
    }

    /// State after `event`: the bit of the event's modifier follows its direction,
    /// and nothing else moves.
    pub open spec fn updated(self, event: RawKeyEvent) -> ModifierState {
        let down = event.event_type is KeyDown;
        match event.modifier_key {
            Some(ModifierKey::Ctrl) => ModifierState { ctrl: down, ..self },
            Some(ModifierKey::Alt) => ModifierState { alt: down, ..self },
            Some(ModifierKey::Shift) => ModifierState { shift: down, ..self },
            Some(ModifierKey::Meta) => ModifierState { win: down, ..self },
            None => self,
        }
    }

    pub fn update(&mut self, event: &RawKeyEvent)
        ensures
            *final(self) == old(self).updated(*event),
    {
        let down = matches!(event.event_type, KeyEventType::KeyDown);
        match event.modifier_key {
            Some(ModifierKey::Ctrl) => {
                self.ctrl = down;
            },
            Some(ModifierKey::Alt) => {
                self.alt = down;
            },
            Some(ModifierKey::Shift) => {
                self.shift = down;
            },
            Some(ModifierKey::Meta) => {
                self.win = down;
            },
            None => {},
        }
    }
}

/// A key event as the platform layer delivers it.
#[derive(Debug, Clone, Copy, PartialEq, Eq, Structural)]
pub struct RawKeyEvent {
    pub vk_code: VkCode,
    pub scan_code: ScanCode,
    pub event_type: KeyEventType,
    pub extra_info: usize,
    pub timestamp: Timestamp,
    pub key_classification: KeyClassification,
    pub physical_pos: Option<PhysicalPos>,
    pub ime_relevance: ImeRelevance,
    pub modifier_key: Option<ModifierKey>,
    pub modifier_snapshot: ModifierState,
    /// The event was synthesised by another process.
    pub injected: bool,
}

/// Keys that are sent by name rather than by code.
#[derive(Debug, Clone, Copy, PartialEq, Eq, Structural)]
pub enum SpecialKey {
    Backspace,
    Escape,
    Enter,
    Space,
    Delete,
    Insert,
    Up,
    Down,
    Left,
    Right,
    Home,
    End,
    PageUp,
    PageDown,
}

/// One output action of the engine.
#[derive(Debug, PartialEq, Eq)]
pub enum KeyAction {
    SpecialKey(SpecialKey),
    Key(VkCode),
    KeyUp(VkCode),
    Char(char),
    Romaji(String),
    KeySequence(String),
    Suppress,
}

impl Clone for KeyAction {
    fn clone(&self) -> (r: Self)
        ensures
            r == *self,
    {
        match self {
            KeyAction::SpecialKey(k) => KeyAction::SpecialKey(*k),
            KeyAction::Key(vk) => KeyAction::Key(*vk),
            KeyAction::KeyUp(vk) => KeyAction::KeyUp(*vk),
            KeyAction::Char(c) => KeyAction::Char(*c),
            KeyAction::Romaji(s) => KeyAction::Romaji(s.clone()),
            KeyAction::KeySequence(s) => KeyAction::KeySequence(s.clone()),
            KeyAction::Suppress => KeyAction::Suppress,
        }
    }
}

impl KeyAction {
    /// Romaji spelling that the action carries; empty for every other action.
    pub open spec fn romaji_spec(self) -> Seq<char> {
        match self {
            KeyAction::Romaji(s) => s@,
            _ => Seq::empty(),
        }
    }

    #[must_use]
    pub fn romaji(&self) -> (s: &str)
        ensures
            s@ == self.romaji_spec(),
    {
        match self {
            KeyAction::Romaji(s) => s.as_str(),
            _ => {
                proof {
                    reveal_strlit("");
                }
                ""
            },
        }
    }
}

/// Why the context that a pending key was typed in is gone.
#[derive(Debug, Clone, Copy, PartialEq, Eq, Structural)]
pub enum ContextChange {
    ImeOff,
    InputLanguageChanged,
    EngineDisabled,
    LayoutSwapped,
    FocusChanged,
}

/// Romaji is what an action for romaji carries; no other action carries any.
pub proof fn law_romaji_is_what_is_carried(s: String, c: char, k: SpecialKey, vk: VkCode)
    ensures
        KeyAction::Romaji(s).romaji_spec() == s@,
        KeyAction::KeySequence(s).romaji_spec().len() == 0,
        KeyAction::Char(c).romaji_spec().len() == 0,
        KeyAction::SpecialKey(k).romaji_spec().len() == 0,
        KeyAction::Key(vk).romaji_spec().len() == 0,
        KeyAction::KeyUp(vk).romaji_spec().len() == 0,
        KeyAction::Suppress.romaji_spec().len() == 0,
{
}

/// Ctrl, Alt and the OS key are for shortcuts; shift is not.
pub proof fn law_shift_is_for_typing(shift: bool, ctrl: bool, alt: bool, win: bool)
    ensures
        !(ModifierState { ctrl: false, alt: false, shift, win: false }).os_modifier_held(),
        ctrl || alt || win ==> (ModifierState { ctrl, alt, shift, win }).os_modifier_held(),
{
}

} // verus!
