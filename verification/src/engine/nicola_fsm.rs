//! The simultaneous-stroke state machine.
//!
//! A character key waits until it is clear whether a thumb key belongs to it. The machine
//! never acts by itself: every call returns the keys to send and the timers to set.

use timed_fsm::{Response, TimerCommand};
use vstd::prelude::*;

use crate::config::ConfirmMode;
use crate::engine::fsm_types::{
    ClassifiedEvent, ComposingHint, EngineState, Face, IdleIntent, KeyClass, ModeKeyConfig,
    PendingKey, PendingThumbData, SoloTapAction, TextKeyConfig, ThumbSide, TimerIntent,
    GuardAction, TIMER_PENDING, TIMER_SPECULATIVE,
};
use crate::engine::input_tracker::PhysicalKeyState;
use crate::ngram::{Forecast, NgramModel};
use crate::scanmap::PhysicalPos;
use crate::types::{
    ContextChange, KeyAction, KeyClassification, KeyEventType, RawKeyEvent, ShadowImeAction,
    SpecialKey, Timestamp, VkCode,
};
use crate::yab::YabLayout;

verus! {

/// Taps in a row that switch the engine off.
pub const SOLO_REPEAT_LIMIT: u32 = 5;

/// A response with its lists as sequences.
#[verifier::ext_equal]
pub ghost struct ResponseView {
    pub consumed: bool,
    pub actions: Seq<KeyAction>,
    pub timers: Seq<TimerCommand<usize>>,
}

pub open spec fn response_view(r: Response<KeyAction, usize>) -> ResponseView {
    ResponseView { consumed: r.consumed, actions: r.actions@, timers: r.timers@ }
}

/// A transition: the machine afterwards and what it answers.
pub ghost struct FsmStep {
    pub fsm: NicolaFsm,
    pub actions: Seq<KeyAction>,
    pub consumed: bool,
    pub timer: TimerIntent,
}

impl FsmStep {
    pub open spec fn response(self) -> ResponseView {
        ResponseView {
            consumed: self.consumed,
            actions: self.actions,
            timers: self.timer.commands_spec(self.fsm.window(), self.fsm.speculative_delay_us),
        }
    }

    /// The step with further actions sent first. What was sent cannot be passed on, so the
    /// event then counts as consumed.
    pub open spec fn after_actions(self, first: Seq<KeyAction>) -> FsmStep {
        FsmStep {
            actions: first + self.actions,
            consumed: self.consumed || first.len() > 0,
            ..self
        }
    }

    /// The step with the kana that it sent last remembered.
    pub open spec fn remembered(self) -> FsmStep {
        if self.actions.len() == 0 {
            self
        } else {
            FsmStep {
                fsm: NicolaFsm { last_kana: kana_of(Some(self.actions.last())), ..self.fsm },
                ..self
            }
        }
    }
}

/// The kana that an action sends, if it sends one character.
pub open spec fn kana_of(action: Option<KeyAction>) -> Option<char> {
    match action {
        Some(KeyAction::Char(c)) => Some(c),
        _ => None,
    }
}

fn sent_kana(action: &Option<KeyAction>) -> (r: Option<char>)
    ensures
        r == kana_of(*action),
{
    match action {
        Some(KeyAction::Char(c)) => Some(*c),
        _ => None,
    }
}

/// What a transition answers, apart from the machine itself.
struct Answer {
    actions: Vec<KeyAction>,
    consumed: bool,
    timer: TimerIntent,
}

/// The simultaneous-stroke state machine with its settings.
#[derive(Debug)]
pub struct NicolaFsm {
    pub layout: YabLayout,
    pub left_thumb_vk: VkCode,
    pub right_thumb_vk: VkCode,
    pub threshold_us: u64,
    pub confirm_mode: ConfirmMode,
    pub speculative_delay_us: u64,
    pub ngram_model: Option<NgramModel>,
    pub enabled: bool,
    pub state: EngineState,
    /// Key-down time of the thumb press that the last stroke used up.
    pub left_thumb_consumed: Option<Timestamp>,
    pub right_thumb_consumed: Option<Timestamp>,
    /// When the last character key went down.
    pub last_char_at: Option<Timestamp>,
    /// Time within which a thumb key makes a stroke with the character key that waits.
    pub window_us: u64,
    /// The kana that was sent last, in this context.
    pub last_kana: Option<char>,
    /// Key whose repeated taps switch the engine off; zero for none.
    pub engine_off_solo_repeat_vk: VkCode,
    pub solo_repeats: u32,
    pub engine_off_requested: bool,
    pub ime_open_requested: Option<ShadowImeAction>,
    pub space_thumb_vk: Option<VkCode>,
    pub space_thumb: TextKeyConfig,
    pub enter_thumb_vk: Option<VkCode>,
    pub enter_thumb: TextKeyConfig,
    pub muhenkan_vk: Option<VkCode>,
    pub muhenkan: ModeKeyConfig,
    pub henkan_vk: Option<VkCode>,
    pub henkan: ModeKeyConfig,
    pub muhenkan_dedicated_fn_key: Option<VkCode>,
    pub muhenkan_delegate: Option<ShadowImeAction>,
    pub henkan_delegate: Option<ShadowImeAction>,
    /// The faces of a thumb key together with the little-finger shift are in use.
    pub thumb_shift_faces_enabled: bool,
    /// The thumb keys are the very keys that switch the IME.
    pub thumb_keys_are_ime_switch: bool,
}

pub open spec fn class_of(c: KeyClassification) -> KeyClass {
    match c {
        KeyClassification::Char => KeyClass::Char,
        KeyClassification::LeftThumb => KeyClass::LeftThumb,
        KeyClassification::RightThumb => KeyClass::RightThumb,
        KeyClassification::Passthrough => KeyClass::Passthrough,
    }
}

pub open spec fn classified(event: RawKeyEvent) -> ClassifiedEvent {
    ClassifiedEvent {
        key_class: class_of(event.key_classification),
        pos: if event.key_classification is Char {
            event.physical_pos
        } else {
            None
        },
        scan_code: event.scan_code,
        vk_code: event.vk_code,
        timestamp: event.timestamp,
        is_ime_control: event.ime_relevance.is_ime_control,
        modifier_key: event.modifier_key,
    }
}

fn classify(event: &RawKeyEvent) -> (ev: ClassifiedEvent)
    ensures
        ev == classified(*event),
{
    ClassifiedEvent {
        key_class: match event.key_classification {
            KeyClassification::Char => KeyClass::Char,
            KeyClassification::LeftThumb => KeyClass::LeftThumb,
            KeyClassification::RightThumb => KeyClass::RightThumb,
            KeyClassification::Passthrough => KeyClass::Passthrough,
        },
        pos: match event.key_classification {
            KeyClassification::Char => event.physical_pos,
            _ => None,
        },
        scan_code: event.scan_code,
        vk_code: event.vk_code,
        timestamp: event.timestamp,
        is_ime_control: event.ime_relevance.is_ime_control,
        modifier_key: event.modifier_key,
    }
}

/// The optional code is this one.
pub open spec fn is_vk(vk: Option<VkCode>, code: VkCode) -> bool {
    vk == Some(code)
}

fn same_vk(vk: Option<VkCode>, code: VkCode) -> (r: bool)
    ensures
        r == is_vk(vk, code),
{
    match vk {
        Some(v) => v == code,
        None => false,
    }
}

/// The action as a list of at most one.
pub open spec fn action_list(a: Option<KeyAction>) -> Seq<KeyAction> {
    match a {
        Some(x) => seq![x],
        None => Seq::empty(),
    }
}

/// Raw press and release of a key.
pub open spec fn raw_tap(vk: VkCode) -> Seq<KeyAction> {
    seq![KeyAction::Key(vk), KeyAction::KeyUp(vk)]
}

/// A key whose taps alone send nothing.
pub open spec fn suppressing() -> ModeKeyConfig {
    ModeKeyConfig { idle: GuardAction::Suppress, composing: GuardAction::Suppress }
}

impl NicolaFsm {
    /// A machine that is enabled and idle, with the settings that hold until others are made.
    pub open spec fn fresh(
        layout: YabLayout,
        left_thumb_vk: VkCode,
        right_thumb_vk: VkCode,
        threshold_ms: u32,
        confirm_mode: ConfirmMode,
        speculative_delay_ms: u32,
    ) -> NicolaFsm {
        NicolaFsm {
            layout,
            left_thumb_vk,
            right_thumb_vk,
            threshold_us: (threshold_ms * 1000) as u64,
            confirm_mode,
            speculative_delay_us: (speculative_delay_ms * 1000) as u64,
            ngram_model: None,
            enabled: true,
            state: EngineState::Idle,
            left_thumb_consumed: None,
            right_thumb_consumed: None,
            last_char_at: None,
            window_us: (threshold_ms * 1000) as u64,
            last_kana: None,
            engine_off_solo_repeat_vk: VkCode(0),
            solo_repeats: 0,
            engine_off_requested: false,
            ime_open_requested: None,
            space_thumb_vk: None,
            space_thumb: TextKeyConfig { ignore_composing_guard: true, shift_literal: true },
            enter_thumb_vk: None,
            enter_thumb: TextKeyConfig { ignore_composing_guard: true, shift_literal: true },
            muhenkan_vk: None,
            muhenkan: suppressing(),
            henkan_vk: None,
            henkan: suppressing(),
            muhenkan_dedicated_fn_key: None,
            muhenkan_delegate: None,
            henkan_delegate: None,
            thumb_shift_faces_enabled: true,
            thumb_keys_are_ime_switch: false,
        }
    }

    /// A machine that is enabled and idle.
    #[must_use]
    pub fn new(
        layout: YabLayout,
        left_thumb_vk: VkCode,
        right_thumb_vk: VkCode,
        threshold_ms: u32,
        confirm_mode: ConfirmMode,
        speculative_delay_ms: u32,
    ) -> (r: Self)
        ensures
            r == NicolaFsm::fresh(
                layout,
                left_thumb_vk,
                right_thumb_vk,
                threshold_ms,
                confirm_mode,
                speculative_delay_ms,
            ),
    {
        NicolaFsm {
            layout,
            left_thumb_vk,
            right_thumb_vk,
            threshold_us: threshold_ms as u64 * 1000,
            confirm_mode,
            speculative_delay_us: speculative_delay_ms as u64 * 1000,
            ngram_model: None,
            enabled: true,
            state: EngineState::Idle,
            left_thumb_consumed: None,
            right_thumb_consumed: None,
            last_char_at: None,
            window_us: threshold_ms as u64 * 1000,
            last_kana: None,
            engine_off_solo_repeat_vk: VkCode(0),
            solo_repeats: 0,
            engine_off_requested: false,
            ime_open_requested: None,
            space_thumb_vk: None,
            space_thumb: TextKeyConfig { ignore_composing_guard: true, shift_literal: true },
            enter_thumb_vk: None,
            enter_thumb: TextKeyConfig { ignore_composing_guard: true, shift_literal: true },
            muhenkan_vk: None,
            muhenkan: ModeKeyConfig::from_legacy_bools(false, true),
            henkan_vk: None,
            henkan: ModeKeyConfig::from_legacy_bools(false, true),
            muhenkan_dedicated_fn_key: None,
            muhenkan_delegate: None,
            henkan_delegate: None,
            thumb_shift_faces_enabled: true,
            thumb_keys_are_ime_switch: false,
        }
    }

    // ---- Faces ----

    /// The action of a position on a face.
    pub open spec fn on_face(self, face: Face, pos: Option<PhysicalPos>) -> Option<KeyAction> {
        match pos {
            Some(p) => self.layout.action_at(face, p),
            None => None,
        }
    }

    fn face_action(&self, face: Face, pos: Option<PhysicalPos>) -> (r: Option<KeyAction>)
        ensures
            r == self.on_face(face, pos),
    {
        match pos {
            Some(p) => self.layout.get(face, p),
            None => None,
        }
    }

    /// The action of a stroke with a thumb key. The face of thumb and shift together counts
    /// only where it is in use and holds the key; otherwise the plain thumb face does.
    pub open spec fn chord(self, pos: Option<PhysicalPos>, side: ThumbSide, shift: bool) -> Option<
        KeyAction,
    > {
        let combined = self.on_face(
            Face::resolve_spec(Some(side), shift && self.thumb_shift_faces_enabled),
            pos,
        );
        match combined {
            Some(a) => Some(a),
            None => self.on_face(Face::resolve_spec(Some(side), false), pos),
        }
    }

    fn chord_action(&self, pos: Option<PhysicalPos>, side: ThumbSide, shift: bool) -> (r: Option<
        KeyAction,
    >)
        ensures
            r == self.chord(pos, side, shift),
    {
        let combined = self.face_action(
            Face::resolve(Some(side), shift && self.thumb_shift_faces_enabled),
            pos,
        );
        match combined {
            Some(a) => Some(a),
            None => self.face_action(Face::resolve(Some(side), false), pos),
        }
    }

    // ---- A thumb key tapped alone ----

    /// The machine after one more tap of `vk` in a row.
    pub open spec fn counting_tap(self, vk: VkCode) -> NicolaFsm {
        if self.engine_off_solo_repeat_vk == VkCode(0) || vk != self.engine_off_solo_repeat_vk {
            NicolaFsm { solo_repeats: 0, ..self }
        } else if self.solo_repeats + 1 >= SOLO_REPEAT_LIMIT {
            NicolaFsm { solo_repeats: 0, engine_off_requested: true, ..self }
        } else {
            NicolaFsm { solo_repeats: (self.solo_repeats + 1) as u32, ..self }
        }
    }

    fn count_tap(&mut self, vk: VkCode)
        ensures
            *final(self) == old(self).counting_tap(vk),
    {
        if self.engine_off_solo_repeat_vk == VkCode(0) || vk != self.engine_off_solo_repeat_vk {
            self.solo_repeats = 0;
        } else if self.solo_repeats >= SOLO_REPEAT_LIMIT - 1 {
            self.solo_repeats = 0;
            self.engine_off_requested = true;
        } else {
            self.solo_repeats = self.solo_repeats + 1;
        }
    }

    /// The request that a tap of `vk` alone makes of the IME.
    pub open spec fn delegated(self, vk: VkCode) -> Option<ShadowImeAction> {
        if is_vk(self.muhenkan_vk, vk) && self.muhenkan_delegate is Some {
            self.muhenkan_delegate
        } else if is_vk(self.henkan_vk, vk) {
            self.henkan_delegate
        } else {
            None
        }
    }

    fn delegate_for(&self, vk: VkCode) -> (r: Option<ShadowImeAction>)
        ensures
            r == self.delegated(vk),
    {
        if same_vk(self.muhenkan_vk, vk) && self.muhenkan_delegate.is_some() {
            self.muhenkan_delegate
        } else if same_vk(self.henkan_vk, vk) {
            self.henkan_delegate
        } else {
            None
        }
    }

    /// What a tap of the thumb key alone sends. Where the composition cannot be known nothing
    /// is sent, unless the thumb keys switch the IME: then the switch must not be lost.
    pub open spec fn solo_tap(self, t: PendingThumbData, hint: ComposingHint) -> SoloTapAction {
        if self.thumb_keys_are_ime_switch {
            SoloTapAction::Passthrough
        } else {
            match hint {
                ComposingHint::Unknown => SoloTapAction::Suppress,
                ComposingHint::Trusted(composing) => if is_vk(self.muhenkan_vk, t.vk_code) {
                    match self.muhenkan_dedicated_fn_key {
                        Some(key) => SoloTapAction::DedicatedFnKey(key),
                        None => guard_tap(self.muhenkan.for_composing_spec(composing)),
                    }
                } else if is_vk(self.henkan_vk, t.vk_code) {
                    guard_tap(self.henkan.for_composing_spec(composing))
                } else if is_vk(self.space_thumb_vk, t.vk_code) {
                    pass_unless(composing && !self.space_thumb.ignore_composing_guard)
                } else if is_vk(self.enter_thumb_vk, t.vk_code) {
                    pass_unless(composing && !self.enter_thumb.ignore_composing_guard)
                } else {
                    pass_unless(composing || t.modifier_key is Some)
                },
            }
        }
    }

    fn solo_tap_action(&self, t: &PendingThumbData, hint: ComposingHint) -> (r: SoloTapAction)
        ensures
            r == self.solo_tap(*t, hint),
    {
        if self.thumb_keys_are_ime_switch {
            return SoloTapAction::Passthrough;
        }
        match hint {
            ComposingHint::Unknown => SoloTapAction::Suppress,
            ComposingHint::Trusted(composing) => {
                if same_vk(self.muhenkan_vk, t.vk_code) {
                    match self.muhenkan_dedicated_fn_key {
                        Some(key) => SoloTapAction::DedicatedFnKey(key),
                        None => SoloTapAction::from(self.muhenkan.for_composing(composing)),
                    }
                } else if same_vk(self.henkan_vk, t.vk_code) {
                    SoloTapAction::from(self.henkan.for_composing(composing))
                } else if same_vk(self.space_thumb_vk, t.vk_code) {
                    pass_or_suppress(composing && !self.space_thumb.ignore_composing_guard)
                } else if same_vk(self.enter_thumb_vk, t.vk_code) {
                    pass_or_suppress(composing && !self.enter_thumb.ignore_composing_guard)
                } else {
                    pass_or_suppress(composing || t.modifier_key.is_some())
                }
            },
        }
    }

    /// The machine and the keys after the thumb key turned out to be tapped alone.
    pub open spec fn solo(self, t: PendingThumbData, hint: ComposingHint) -> (
        NicolaFsm,
        Seq<KeyAction>,
    ) {
        let counted = self.counting_tap(t.vk_code);
        match self.delegated(t.vk_code) {
            Some(request) => (
                NicolaFsm { ime_open_requested: Some(request), ..counted },
                Seq::empty(),
            ),
            None => (counted, tap_keys(self.solo_tap(t, hint), t.vk_code)),
        }
    }

    fn resolve_solo(&mut self, t: &PendingThumbData, hint: ComposingHint) -> (actions: Vec<
        KeyAction,
    >)
        ensures
            *final(self) == old(self).solo(*t, hint).0,
            actions@ == old(self).solo(*t, hint).1,
    {
        let request = self.delegate_for(t.vk_code);
        let tap = self.solo_tap_action(t, hint);
        self.count_tap(t.vk_code);
        match request {
            Some(_) => {
                self.ime_open_requested = request;
                Vec::new()
            },
            None => match tap {
                SoloTapAction::Suppress => Vec::new(),
                SoloTapAction::Passthrough => vec![
                    KeyAction::Key(t.vk_code),
                    KeyAction::KeyUp(t.vk_code),
                ],
                SoloTapAction::DedicatedFnKey(key) => vec![
                    KeyAction::Key(key),
                    KeyAction::KeyUp(key),
                ],
            },
        }
    }

    // ---- Resolving what is pending ----

    /// The press of the thumb key on `side` is used up.
    pub open spec fn thumb_used(self, side: ThumbSide, at: Timestamp) -> NicolaFsm {
        match side {
            ThumbSide::Left => NicolaFsm { left_thumb_consumed: Some(at), ..self },
            ThumbSide::Right => NicolaFsm { right_thumb_consumed: Some(at), ..self },
        }
    }

    fn use_thumb(&mut self, side: ThumbSide, at: Timestamp)
        ensures
            *final(self) == old(self).thumb_used(side, at),
    {
        match side {
            ThumbSide::Left => {
                self.left_thumb_consumed = Some(at);
            },
            ThumbSide::Right => {
                self.right_thumb_consumed = Some(at);
            },
        }
    }

    /// The two keys were down together at least as long as the character key was down before.
    /// A character key that is still held counts as such.
    pub open spec fn makes_chord(
        c: PendingKey,
        t: PendingThumbData,
        released: Option<Timestamp>,
    ) -> bool {
        match released {
            Some(at) => at - t.timestamp >= t.timestamp - c.timestamp,
            None => true,
        }
    }

    fn confirms_chord(c: &PendingKey, t: &PendingThumbData, released: Option<Timestamp>) -> (r: bool)
        ensures
            r == Self::makes_chord(*c, *t, released),
    {
        match released {
            Some(at) => (at as i128 - t.timestamp as i128) >= (t.timestamp as i128
                - c.timestamp as i128),
            None => true,
        }
    }

    /// Idle, and what was pending goes out as it stands. Keys that were hardly down together are
    /// two strokes.
    pub open spec fn settled(self, hint: ComposingHint, shift: bool) -> (NicolaFsm, Seq<KeyAction>) {
        let idle = NicolaFsm { state: EngineState::Idle, ..self };
        match self.state {
            EngineState::Idle | EngineState::SpeculativeChar(_) => (idle, Seq::empty()),
            EngineState::PendingChar(k) => (idle, action_list(self.on_face(Face::Normal, k.pos))),
            EngineState::PendingThumb(t) => idle.solo(t, hint),
            EngineState::PendingCharThumb { char_key, thumb, char1_released_at } => {
                if Self::makes_chord(char_key, thumb, char1_released_at) {
                    (
                        idle.thumb_used(thumb.side_spec(), thumb.timestamp),
                        action_list(self.chord(char_key.pos, thumb.side_spec(), shift)),
                    )
                } else {
                    let (after, tap) = idle.solo(thumb, hint);
                    (after, action_list(self.on_face(Face::Normal, char_key.pos)) + tap)
                }
            },
        }
    }

    fn settle(&mut self, hint: ComposingHint, shift: bool) -> (actions: Vec<KeyAction>)
        ensures
            *final(self) == old(self).settled(hint, shift).0,
            actions@ == old(self).settled(hint, shift).1,
    {
        let state = self.state;
        self.state = EngineState::Idle;
        match state {
            EngineState::Idle | EngineState::SpeculativeChar(_) => Vec::new(),
            EngineState::PendingChar(k) => one_or_none(self.face_action(Face::Normal, k.pos)),
            EngineState::PendingThumb(t) => self.resolve_solo(&t, hint),
            EngineState::PendingCharThumb { char_key, thumb, char1_released_at } => {
                if Self::confirms_chord(&char_key, &thumb, char1_released_at) {
                    let a = self.chord_action(char_key.pos, thumb.side(), shift);
                    self.use_thumb(thumb.side(), thumb.timestamp);
                    one_or_none(a)
                } else {
                    let mut actions = one_or_none(self.face_action(Face::Normal, char_key.pos));
                    let ghost head = actions@;
                    let mut tap = self.resolve_solo(&thumb, hint);
                    let ghost tail = tap@;
                    actions.append(&mut tap);
                    assert(actions@ =~= head + tail);
                    actions
                }
            },
        }
    }

    // ---- A key in the idle state ----

    /// Time within which two keys count as one stroke: that of the character key that waits, or
    /// else the threshold.
    pub open spec fn window(self) -> u64 {
        match self.state {
            EngineState::PendingChar(_) | EngineState::SpeculativeChar(_) => self.window_us,
            _ => self.threshold_us,
        }
    }

    fn current_window(&self) -> (us: u64)
        ensures
            us == self.window(),
    {
        match self.state {
            EngineState::PendingChar(_) | EngineState::SpeculativeChar(_) => self.window_us,
            _ => self.threshold_us,
        }
    }

    /// The two times are close enough for one stroke.
    pub open spec fn within(self, earlier: Timestamp, later: Timestamp) -> bool {
        later - earlier <= self.window()
    }

    fn is_within(&self, earlier: Timestamp, later: Timestamp) -> (r: bool)
        ensures
            r == self.within(earlier, later),
    {
        later <= earlier || later - earlier <= self.current_window()
    }

    /// A held thumb key that no stroke has used yet; the left one first.
    pub open spec fn active_thumb(self, phys: PhysicalKeyState) -> Option<(ThumbSide, Timestamp)> {
        if phys.left_thumb_down is Some && phys.left_thumb_down != self.left_thumb_consumed {
            Some((ThumbSide::Left, phys.left_thumb_down->0))
        } else if phys.right_thumb_down is Some && phys.right_thumb_down
            != self.right_thumb_consumed {
            Some((ThumbSide::Right, phys.right_thumb_down->0))
        } else {
            None
        }
    }

    fn find_active_thumb(&self, phys: &PhysicalKeyState) -> (r: Option<(ThumbSide, Timestamp)>)
        ensures
            r == self.active_thumb(*phys),
    {
        if let Some(at) = phys.left_thumb_down {
            let used = match self.left_thumb_consumed {
                Some(c) => c == at,
                None => false,
            };
            if !used {
                return Some((ThumbSide::Left, at));
            }
        }
        if let Some(at) = phys.right_thumb_down {
            let used = match self.right_thumb_consumed {
                Some(c) => c == at,
                None => false,
            };
            if !used {
                return Some((ThumbSide::Right, at));
            }
        }
        None
    }

    /// What a character key is meant for in the idle state.
    pub open spec fn idle_intent(self, ev: ClassifiedEvent, phys: PhysicalKeyState) -> IdleIntent {
        match self.active_thumb(phys) {
            Some((side, _)) if self.chord(ev.pos, side, phys.modifiers.shift) is Some => {
                IdleIntent::ActiveThumb(Face::resolve_spec(Some(side), phys.modifiers.shift))
            },
            _ => if phys.modifiers.shift && self.on_face(Face::Shift, ev.pos) is Some {
                IdleIntent::ShiftPlane
            } else if self.on_face(Face::Normal, ev.pos) is Some && !phys.modifiers.shift {
                IdleIntent::ConfirmMode
            } else {
                IdleIntent::PassThrough
            },
        }
    }

    /// Typing goes on without a pause.
    pub open spec fn continuous(self, ev: ClassifiedEvent) -> bool {
        match self.last_char_at {
            Some(at) => self.within(at, ev.timestamp),
            None => false,
        }
    }

    fn is_continuous(&self, ev: &ClassifiedEvent) -> (r: bool)
        ensures
            r == self.continuous(*ev),
    {
        match self.last_char_at {
            Some(at) => self.is_within(at, ev.timestamp),
            None => false,
        }
    }

    /// Which face a key is likely meant for. Without statistics, and in every mode but the one that
    /// goes by them, nothing is known.
    pub open spec fn forecast(self, pos: Option<PhysicalPos>) -> Forecast {
        match (self.confirm_mode, self.ngram_model) {
            (ConfirmMode::NgramPredictive, Some(model)) => model.forecast_spec(
                self.last_kana,
                kana_of(self.on_face(Face::Normal, pos)),
                kana_of(self.on_face(Face::LeftThumb, pos)),
                kana_of(self.on_face(Face::RightThumb, pos)),
            ),
            _ => Forecast::Unknown,
        }
    }

    /// Time within which a thumb key makes a stroke with this key.
    pub open spec fn window_for(self, pos: Option<PhysicalPos>) -> u64 {
        match self.ngram_model {
            Some(model) => model.window_spec(self.threshold_us, self.forecast(pos)),
            None => self.threshold_us,
        }
    }

    fn predict(&self, pos: Option<PhysicalPos>) -> (r: (Forecast, u64))
        ensures
            r.0 == self.forecast(pos),
            r.1 == self.window_for(pos),
    {
        match &self.ngram_model {
            None => (Forecast::Unknown, self.threshold_us),
            Some(model) => {
                let forecast = if matches!(self.confirm_mode, ConfirmMode::NgramPredictive) {
                    let plain = self.face_action(Face::Normal, pos);
                    let left = self.face_action(Face::LeftThumb, pos);
                    let right = self.face_action(Face::RightThumb, pos);
                    model.forecast(
                        self.last_kana,
                        sent_kana(&plain),
                        sent_kana(&left),
                        sent_kana(&right),
                    )
                } else {
                    Forecast::Unknown
                };
                (forecast, model.window(self.threshold_us, forecast))
            },
        }
    }

    /// A character key that the confirm mode decides on.
    pub open spec fn by_confirm_mode(self, ev: ClassifiedEvent) -> FsmStep {
        let k = PendingKey::from_event_spec(ev);
        let noted = NicolaFsm {
            last_char_at: Some(ev.timestamp),
            window_us: self.window_for(ev.pos),
            ..self
        };
        let waiting = FsmStep {
            fsm: NicolaFsm { state: EngineState::PendingChar(k), ..noted },
            actions: Seq::empty(),
            consumed: true,
            timer: TimerIntent::Pending,
        };
        let two_phase = FsmStep { timer: TimerIntent::SpeculativeWait, ..waiting };
        match self.confirm_mode {
            ConfirmMode::Wait => waiting,
            ConfirmMode::Speculative => FsmStep {
                fsm: NicolaFsm { state: EngineState::SpeculativeChar(k), ..noted },
                actions: action_list(self.on_face(Face::Normal, ev.pos)),
                consumed: true,
                timer: TimerIntent::Pending,
            },
            ConfirmMode::TwoPhase => two_phase,
            ConfirmMode::AdaptiveTiming => if self.continuous(ev) {
                waiting
            } else {
                two_phase
            },
            ConfirmMode::NgramPredictive => if self.forecast(ev.pos) is Thumb {
                waiting
            } else {
                two_phase
            },
        }
    }

    fn confirm(&mut self, ev: &ClassifiedEvent) -> (a: Answer)
        ensures
            a.answers(*final(self), old(self).by_confirm_mode(*ev)),
    {
        let k = PendingKey::from_event(ev);
        let continuous = self.is_continuous(ev);
        let (forecast, window_us) = self.predict(ev.pos);
        self.last_char_at = Some(ev.timestamp);
        self.window_us = window_us;
        match self.confirm_mode {
            ConfirmMode::Wait => {
                self.state = EngineState::PendingChar(k);
                Answer { actions: Vec::new(), consumed: true, timer: TimerIntent::Pending }
            },
            ConfirmMode::Speculative => {
                let actions = one_or_none(self.face_action(Face::Normal, ev.pos));
                self.state = EngineState::SpeculativeChar(k);
                Answer { actions, consumed: true, timer: TimerIntent::Pending }
            },
            ConfirmMode::TwoPhase => {
                self.state = EngineState::PendingChar(k);
                Answer { actions: Vec::new(), consumed: true, timer: TimerIntent::SpeculativeWait }
            },
            ConfirmMode::AdaptiveTiming => {
                self.state = EngineState::PendingChar(k);
                let timer = if continuous {
                    TimerIntent::Pending
                } else {
                    TimerIntent::SpeculativeWait
                };
                Answer { actions: Vec::new(), consumed: true, timer }
            },
            ConfirmMode::NgramPredictive => {
                self.state = EngineState::PendingChar(k);
                let timer = if matches!(forecast, Forecast::Thumb) {
                    TimerIntent::Pending
                } else {
                    TimerIntent::SpeculativeWait
                };
                Answer { actions: Vec::new(), consumed: true, timer }
            },
        }
    }

    /// A key-down in the idle state.
    pub open spec fn idle_down(self, ev: ClassifiedEvent, phys: PhysicalKeyState) -> FsmStep {
        if ev.key_class is LeftThumb || ev.key_class is RightThumb {
            FsmStep {
                fsm: NicolaFsm {
                    state: EngineState::PendingThumb(PendingThumbData::from_event_spec(ev)),
                    ..self
                },
                actions: Seq::empty(),
                consumed: true,
                timer: TimerIntent::Pending,
            }
        } else {
            match self.idle_intent(ev, phys) {
                IdleIntent::ActiveThumb(_) => {
                    let (side, at) = self.active_thumb(phys)->0;
                    FsmStep {
                        fsm: self.thumb_used(side, at),
                        actions: action_list(self.chord(ev.pos, side, phys.modifiers.shift)),
                        consumed: true,
                        timer: TimerIntent::CancelAll,
                    }
                },
                IdleIntent::ShiftPlane => FsmStep {
                    fsm: self,
                    actions: action_list(self.on_face(Face::Shift, ev.pos)),
                    consumed: true,
                    timer: TimerIntent::CancelAll,
                },
                IdleIntent::PassThrough => FsmStep {
                    fsm: self,
                    actions: Seq::empty(),
                    consumed: false,
                    timer: TimerIntent::Keep,
                },
                IdleIntent::ConfirmMode => self.by_confirm_mode(ev),
            }
        }
    }

    fn on_idle_down(&mut self, ev: &ClassifiedEvent, phys: &PhysicalKeyState) -> (a: Answer)
        ensures
            a.answers(*final(self), old(self).idle_down(*ev, *phys)),
    {
        if ev.key_class.is_thumb() {
            self.state = EngineState::PendingThumb(PendingThumbData::from_event(ev));
            return Answer { actions: Vec::new(), consumed: true, timer: TimerIntent::Pending };
        }
        let shift = phys.modifiers.shift;
        if let Some((side, at)) = self.find_active_thumb(phys) {
            let a = self.chord_action(ev.pos, side, shift);
            if a.is_some() {
                self.use_thumb(side, at);
                return Answer {
                    actions: one_or_none(a),
                    consumed: true,
                    timer: TimerIntent::CancelAll,
                };
            }
        }
        if shift {
            let a = self.face_action(Face::Shift, ev.pos);
            if a.is_some() {
                return Answer {
                    actions: one_or_none(a),
                    consumed: true,
                    timer: TimerIntent::CancelAll,
                };
            }
        } else if self.face_action(Face::Normal, ev.pos).is_some() {
            return self.confirm(ev);
        }
        Answer { actions: Vec::new(), consumed: false, timer: TimerIntent::Keep }
    }

    // ---- A key-down in any state ----

    /// What is pending goes out, then the key is looked at in the idle state.
    pub open spec fn settle_and_go_on(self, ev: ClassifiedEvent, phys: PhysicalKeyState) -> FsmStep {
        let (idle, first) = self.settled(
            ComposingHint::Trusted(phys.composing),
            phys.modifiers.shift,
        );
        idle.idle_down(ev, phys).after_actions(first)
    }

    fn settle_then(&mut self, ev: &ClassifiedEvent, phys: &PhysicalKeyState) -> (a: Answer)
        ensures
            a.answers(*final(self), old(self).settle_and_go_on(*ev, *phys)),
    {
        let first = self.settle(ComposingHint::Trusted(phys.composing), phys.modifiers.shift);
        let next = self.on_idle_down(ev, phys);
        let ghost head = first@;
        let ghost tail = next.actions@;
        let mut actions = first;
        let consumed = next.consumed || !actions.is_empty();
        let mut rest = next.actions;
        actions.append(&mut rest);
        assert(actions@ =~= head + tail);
        Answer { actions, consumed, timer: next.timer }
    }

    /// A step that ends in the idle state with a stroke sent.
    pub open spec fn stroke(
        self,
        side: ThumbSide,
        at: Timestamp,
        actions: Seq<KeyAction>,
    ) -> FsmStep {
        FsmStep {
            fsm: (NicolaFsm { state: EngineState::Idle, ..self }).thumb_used(side, at),
            actions,
            consumed: true,
            timer: TimerIntent::CancelAll,
        }
    }

    /// The third key is nearer to the thumb key than the first one was, or the first one is
    /// already released.
    pub open spec fn pairs_with_third(
        c: PendingKey,
        t: PendingThumbData,
        released: Option<Timestamp>,
        ev: ClassifiedEvent,
    ) -> bool {
        released is Some || ev.timestamp - t.timestamp < t.timestamp - c.timestamp
    }

    fn third_pairs(
        c: &PendingKey,
        t: &PendingThumbData,
        released: Option<Timestamp>,
        ev: &ClassifiedEvent,
    ) -> (r: bool)
        ensures
            r == Self::pairs_with_third(*c, *t, released, *ev),
    {
        released.is_some() || (ev.timestamp as i128 - t.timestamp as i128) < (t.timestamp as i128
            - c.timestamp as i128)
    }

    /// The key types text of its own, and goes out as such with shift held.
    pub open spec fn literal_press(self, ev: ClassifiedEvent, phys: PhysicalKeyState) -> bool {
        &&& ev.key_class is LeftThumb || ev.key_class is RightThumb
        &&& phys.modifiers.shift
        &&& is_vk(self.space_thumb_vk, ev.vk_code) && self.space_thumb.shift_literal || is_vk(
            self.enter_thumb_vk,
            ev.vk_code,
        ) && self.enter_thumb.shift_literal
    }

    fn is_literal_press(&self, ev: &ClassifiedEvent, phys: &PhysicalKeyState) -> (r: bool)
        ensures
            r == self.literal_press(*ev, *phys),
    {
        ev.key_class.is_thumb() && phys.modifiers.shift && (same_vk(self.space_thumb_vk, ev.vk_code)
            && self.space_thumb.shift_literal || same_vk(self.enter_thumb_vk, ev.vk_code)
            && self.enter_thumb.shift_literal)
    }

    /// The thumb press that is held on the side of the key makes no stroke any more.
    pub open spec fn press_spent(self, ev: ClassifiedEvent, phys: PhysicalKeyState) -> NicolaFsm {
        if ev.key_class is LeftThumb {
            NicolaFsm { left_thumb_consumed: phys.left_thumb_down, ..self }
        } else {
            NicolaFsm { right_thumb_consumed: phys.right_thumb_down, ..self }
        }
    }

    /// What is pending goes out and the key goes through. Its press makes no stroke.
    pub open spec fn press_literally(self, ev: ClassifiedEvent, phys: PhysicalKeyState) -> FsmStep {
        let (idle, actions) = self.settled(
            ComposingHint::Trusted(phys.composing),
            phys.modifiers.shift,
        );
        FsmStep {
            fsm: idle.press_spent(ev, phys),
            actions,
            consumed: false,
            timer: if self.state is Idle {
                TimerIntent::Keep
            } else {
                TimerIntent::CancelAll
            },
        }
    }

    fn pass_literally(&mut self, ev: &ClassifiedEvent, phys: &PhysicalKeyState) -> (a: Answer)
        requires
            old(self).literal_press(*ev, *phys),
        ensures
            a.answers(*final(self), old(self).press_literally(*ev, *phys)),
    {
        let timer = if self.state.is_idle() {
            TimerIntent::Keep
        } else {
            TimerIntent::CancelAll
        };
        let actions = self.settle(ComposingHint::Trusted(phys.composing), phys.modifiers.shift);
        if ev.key_class.is_left_thumb() {
            self.left_thumb_consumed = phys.left_thumb_down;
        } else {
            self.right_thumb_consumed = phys.right_thumb_down;
        }
        Answer { actions, consumed: false, timer }
    }

    pub open spec fn key_down(self, ev: ClassifiedEvent, phys: PhysicalKeyState) -> FsmStep {
        if self.literal_press(ev, phys) {
            self.press_literally(ev, phys)
        } else {
            self.stroke_down(ev, phys)
        }
    }

    /// A key-down that may be part of a stroke.
    pub open spec fn stroke_down(self, ev: ClassifiedEvent, phys: PhysicalKeyState) -> FsmStep {
        let shift = phys.modifiers.shift;
        let is_char = ev.key_class is Char;
        match self.state {
            EngineState::PendingChar(k) if !is_char && self.within(k.timestamp, ev.timestamp) => {
                FsmStep {
                    fsm: NicolaFsm {
                        state: EngineState::PendingCharThumb {
                            char_key: k,
                            thumb: PendingThumbData::from_event_spec(ev),
                            char1_released_at: None,
                        },
                        ..self
                    },
                    actions: Seq::empty(),
                    consumed: true,
                    timer: TimerIntent::Pending,
                }
            },
            EngineState::PendingThumb(t) if is_char && self.within(t.timestamp, ev.timestamp) => {
                self.stroke(
                    t.side_spec(),
                    t.timestamp,
                    action_list(self.chord(ev.pos, t.side_spec(), shift)),
                )
            },
            EngineState::PendingThumb(t) if !is_char && t.vk_code == ev.vk_code => FsmStep {
                fsm: self,
                actions: Seq::empty(),
                consumed: true,
                timer: TimerIntent::Keep,
            },
            EngineState::PendingCharThumb { char_key, thumb, char1_released_at } if is_char
                && Self::pairs_with_third(char_key, thumb, char1_released_at, ev) => {
                self.stroke(
                    thumb.side_spec(),
                    thumb.timestamp,
                    action_list(self.on_face(Face::Normal, char_key.pos)) + action_list(
                        self.chord(ev.pos, thumb.side_spec(), shift),
                    ),
                )
            },
            EngineState::PendingCharThumb { thumb, .. } if !is_char && thumb.vk_code
                == ev.vk_code => FsmStep {
                fsm: self,
                actions: Seq::empty(),
                consumed: true,
                timer: TimerIntent::Keep,
            },
            EngineState::SpeculativeChar(k) if !is_char && self.within(
                k.timestamp,
                ev.timestamp,
            ) => {
                let side = PendingThumbData::from_event_spec(ev).side_spec();
                self.stroke(
                    side,
                    ev.timestamp,
                    seq![KeyAction::SpecialKey(SpecialKey::Backspace)] + action_list(
                        self.chord(k.pos, side, shift),
                    ),
                )
            },
            _ => self.settle_and_go_on(ev, phys),
        }
    }

    fn on_key_down(&mut self, ev: &ClassifiedEvent, phys: &PhysicalKeyState) -> (a: Answer)
        ensures
            a.answers(*final(self), old(self).key_down(*ev, *phys)),
    {
        if self.is_literal_press(ev, phys) {
            return self.pass_literally(ev, phys);
        }
        let shift = phys.modifiers.shift;
        let is_char = matches!(ev.key_class, KeyClass::Char);
        match self.state {
            EngineState::Idle => {},
            EngineState::PendingChar(k) => {
                if !is_char && self.is_within(k.timestamp, ev.timestamp) {
                    self.state = EngineState::PendingCharThumb {
                        char_key: k,
                        thumb: PendingThumbData::from_event(ev),
                        char1_released_at: None,
                    };
                    return Answer {
                        actions: Vec::new(),
                        consumed: true,
                        timer: TimerIntent::Pending,
                    };
                }
            },
            EngineState::PendingThumb(t) => {
                if is_char && self.is_within(t.timestamp, ev.timestamp) {
                    let actions = one_or_none(self.chord_action(ev.pos, t.side(), shift));
                    return self.send_stroke(t.side(), t.timestamp, actions);
                }
                if !is_char && t.vk_code == ev.vk_code {
                    return Answer { actions: Vec::new(), consumed: true, timer: TimerIntent::Keep };
                }
            },
            EngineState::PendingCharThumb { char_key, thumb, char1_released_at } => {
                if is_char && Self::third_pairs(&char_key, &thumb, char1_released_at, ev) {
                    let first = one_or_none(self.face_action(Face::Normal, char_key.pos));
                    let second = one_or_none(self.chord_action(ev.pos, thumb.side(), shift));
                    let ghost head = first@;
                    let ghost tail = second@;
                    let mut actions = first;
                    let mut rest = second;
                    actions.append(&mut rest);
                    assert(actions@ =~= head + tail);
                    return self.send_stroke(thumb.side(), thumb.timestamp, actions);
                }
                if !is_char && thumb.vk_code == ev.vk_code {
                    return Answer { actions: Vec::new(), consumed: true, timer: TimerIntent::Keep };
                }
            },
            EngineState::SpeculativeChar(k) => {
                if !is_char && self.is_within(k.timestamp, ev.timestamp) {
                    let side = PendingThumbData::from_event(ev).side();
                    let mut actions = vec![KeyAction::SpecialKey(SpecialKey::Backspace)];
                    let mut rest = one_or_none(self.chord_action(k.pos, side, shift));
                    let ghost tail = rest@;
                    actions.append(&mut rest);
                    assert(actions@ =~= seq![KeyAction::SpecialKey(SpecialKey::Backspace)] + tail);
                    return self.send_stroke(side, ev.timestamp, actions);
                }
            },
        }
        self.settle_then(ev, phys)
    }

    fn send_stroke(&mut self, side: ThumbSide, at: Timestamp, actions: Vec<KeyAction>) -> (a:
        Answer)
        ensures
            a.answers(*final(self), old(self).stroke(side, at, actions@)),
    {
        self.state = EngineState::Idle;
        self.use_thumb(side, at);
        Answer { actions, consumed: true, timer: TimerIntent::CancelAll }
    }

    /// A key-up in any state.
    pub open spec fn key_up(self, ev: ClassifiedEvent, phys: PhysicalKeyState) -> FsmStep {
        let (idle, actions) = self.settled(
            ComposingHint::Trusted(phys.composing),
            phys.modifiers.shift,
        );
        let settled = FsmStep {
            fsm: idle,
            actions,
            consumed: true,
            timer: TimerIntent::CancelAll,
        };
        let passed = FsmStep {
            fsm: self,
            actions: Seq::empty(),
            consumed: false,
            timer: TimerIntent::Keep,
        };
        match self.state {
            EngineState::Idle => passed,
            EngineState::PendingChar(k) => if k.vk_code == ev.vk_code {
                settled
            } else {
                passed
            },
            EngineState::SpeculativeChar(k) => if k.vk_code == ev.vk_code {
                settled
            } else {
                passed
            },
            EngineState::PendingThumb(t) => if t.vk_code == ev.vk_code {
                settled
            } else {
                passed
            },
            EngineState::PendingCharThumb { char_key, thumb, char1_released_at: _ } => if thumb.vk_code
                == ev.vk_code {
                settled
            } else if char_key.vk_code == ev.vk_code {
                FsmStep {
                    fsm: NicolaFsm {
                        state: EngineState::PendingCharThumb {
                            char_key,
                            thumb,
                            char1_released_at: Some(ev.timestamp),
                        },
                        ..self
                    },
                    actions: Seq::empty(),
                    consumed: true,
                    timer: TimerIntent::Keep,
                }
            } else {
                passed
            },
        }
    }

    fn on_key_up(&mut self, ev: &ClassifiedEvent, phys: &PhysicalKeyState) -> (a: Answer)
        ensures
            a.answers(*final(self), old(self).key_up(*ev, *phys)),
    {
        let releases = match self.state {
            EngineState::Idle => false,
            EngineState::PendingChar(k) => k.vk_code == ev.vk_code,
            EngineState::SpeculativeChar(k) => k.vk_code == ev.vk_code,
            EngineState::PendingThumb(t) => t.vk_code == ev.vk_code,
            EngineState::PendingCharThumb { char_key, thumb, char1_released_at: _ } => {
                if thumb.vk_code != ev.vk_code && char_key.vk_code == ev.vk_code {
                    self.state = EngineState::PendingCharThumb {
                        char_key,
                        thumb,
                        char1_released_at: Some(ev.timestamp),
                    };
                    return Answer { actions: Vec::new(), consumed: true, timer: TimerIntent::Keep };
                }
                thumb.vk_code == ev.vk_code
            },
        };
        if releases {
            let actions = self.settle(
                ComposingHint::Trusted(phys.composing),
                phys.modifiers.shift,
            );
            Answer { actions, consumed: true, timer: TimerIntent::CancelAll }
        } else {
            Answer { actions: Vec::new(), consumed: false, timer: TimerIntent::Keep }
        }
    }

    /// A key that is not for the machine: what is pending goes out first.
    pub open spec fn bypass(self, ev: ClassifiedEvent, phys: PhysicalKeyState) -> FsmStep {
        let (idle, actions) = self.settled(
            ComposingHint::Trusted(phys.composing),
            phys.modifiers.shift,
        );
        FsmStep {
            fsm: idle.counting_tap(ev.vk_code),
            actions,
            consumed: false,
            timer: if self.state is Idle {
                TimerIntent::Keep
            } else {
                TimerIntent::CancelAll
            },
        }
    }

    /// The key belongs to the OS or the IME.
    pub open spec fn bypasses(ev: ClassifiedEvent, phys: PhysicalKeyState) -> bool {
        ev.key_class is Passthrough || ev.is_ime_control || phys.modifiers.os_modifier_held()
    }

    pub open spec fn event_step(self, event: RawKeyEvent, phys: PhysicalKeyState) -> FsmStep {
        self.event_answer(event, phys).remembered()
    }

    pub open spec fn event_answer(self, event: RawKeyEvent, phys: PhysicalKeyState) -> FsmStep {
        let ev = classified(event);
        if !self.enabled {
            FsmStep {
                fsm: self,
                actions: Seq::empty(),
                consumed: false,
                timer: TimerIntent::Keep,
            }
        } else if event.event_type is KeyUp {
            self.key_up(ev, phys)
        } else if Self::bypasses(ev, phys) {
            self.bypass(ev, phys)
        } else {
            (if ev.vk_code == self.engine_off_solo_repeat_vk {
                self
            } else {
                NicolaFsm { solo_repeats: 0, ..self }
            }).key_down(ev, phys)
        }
    }

    /// Handles a key event.
    pub fn on_event(&mut self, event: RawKeyEvent, phys: &PhysicalKeyState) -> (r: Response<
        KeyAction,
        usize,
    >)
        ensures
            *final(self) == old(self).event_step(event, *phys).fsm,
            response_view(r) == old(self).event_step(event, *phys).response(),
    {
        let ev = classify(&event);
        let answer = if !self.enabled {
            Answer { actions: Vec::new(), consumed: false, timer: TimerIntent::Keep }
        } else if matches!(event.event_type, KeyEventType::KeyUp) {
            self.on_key_up(&ev, phys)
        } else if matches!(ev.key_class, KeyClass::Passthrough) || ev.is_ime_control
            || phys.modifiers.is_os_modifier_held() {
            let timer = if self.state.is_idle() {
                TimerIntent::Keep
            } else {
                TimerIntent::CancelAll
            };
            let actions = self.settle(
                ComposingHint::Trusted(phys.composing),
                phys.modifiers.shift,
            );
            self.count_tap(ev.vk_code);
            Answer { actions, consumed: false, timer }
        } else {
            if ev.vk_code != self.engine_off_solo_repeat_vk {
                self.solo_repeats = 0;
            }
            self.on_key_down(&ev, phys)
        };
        assert(answer.answers(*self, old(self).event_answer(event, *phys)));
        self.remember(&answer);
        self.respond(answer)
    }

    /// Remembers the kana that is sent last.
    fn remember(&mut self, a: &Answer)
        ensures
            forall|step: FsmStep| #[trigger]
                a.answers(*old(self), step) ==> a.answers(*final(self), step.remembered()),
    {
        let n = a.actions.len();
        if n > 0 {
            self.last_kana = match &a.actions[n - 1] {
                KeyAction::Char(c) => Some(*c),
                _ => None,
            };
        }
    }

    fn respond(&self, a: Answer) -> (r: Response<KeyAction, usize>)
        ensures
            response_view(r) == (ResponseView {
                consumed: a.consumed,
                actions: a.actions@,
                timers: a.timer.commands_spec(self.window(), self.speculative_delay_us),
            }),
    {
        let timers = a.timer.to_commands(self.current_window(), self.speculative_delay_us);
        let base = if a.consumed {
            Response::emit(a.actions)
        } else {
            let mut r: Response<KeyAction, usize> = Response::pass_through();
            r.actions = a.actions;
            r
        };
        let mut r = base;
        r.timers = timers;
        r
    }

    pub open spec fn timeout_step(self, timer_id: usize, phys: PhysicalKeyState, composing: bool) -> FsmStep {
        self.timeout_answer(timer_id, phys, composing).remembered()
    }

    pub open spec fn timeout_answer(
        self,
        timer_id: usize,
        phys: PhysicalKeyState,
        composing: bool,
    ) -> FsmStep {
        if timer_id == TIMER_PENDING {
            let (idle, actions) = self.settled(
                ComposingHint::Trusted(composing),
                phys.modifiers.shift,
            );
            FsmStep { fsm: idle, actions, consumed: true, timer: TimerIntent::CancelAll }
        } else {
            match self.state {
                EngineState::PendingChar(k) if timer_id == TIMER_SPECULATIVE => FsmStep {
                    fsm: NicolaFsm { state: EngineState::SpeculativeChar(k), ..self },
                    actions: action_list(self.on_face(Face::Normal, k.pos)),
                    consumed: true,
                    timer: TimerIntent::Phase2Transition { remaining_us: self.phase2_remaining() },
                },
                _ => FsmStep {
                    fsm: self,
                    actions: Seq::empty(),
                    consumed: false,
                    timer: TimerIntent::Keep,
                },
            }
        }
    }

    /// What is left of the window after the speculative delay.
    pub open spec fn phase2_remaining(self) -> u64 {
        if self.window() > self.speculative_delay_us {
            (self.window() - self.speculative_delay_us) as u64
        } else {
            0
        }
    }

    /// Handles the expiry of a timer.
    pub fn on_timeout(&mut self, timer_id: usize, phys: &PhysicalKeyState, composing: bool) -> (r:
        Response<KeyAction, usize>)
        ensures
            *final(self) == old(self).timeout_step(timer_id, *phys, composing).fsm,
            response_view(r) == old(self).timeout_step(timer_id, *phys, composing).response(),
    {
        let answer = if timer_id == TIMER_PENDING {
            let actions = self.settle(ComposingHint::Trusted(composing), phys.modifiers.shift);
            Answer { actions, consumed: true, timer: TimerIntent::CancelAll }
        } else {
            match self.state {
                EngineState::PendingChar(k) => {
                    if timer_id == TIMER_SPECULATIVE {
                        let actions = one_or_none(self.face_action(Face::Normal, k.pos));
                        self.state = EngineState::SpeculativeChar(k);
                        let window_us = self.current_window();
                        let remaining_us = if window_us > self.speculative_delay_us {
                            window_us - self.speculative_delay_us
                        } else {
                            0
                        };
                        Answer {
                            actions,
                            consumed: true,
                            timer: TimerIntent::Phase2Transition { remaining_us },
                        }
                    } else {
                        Answer { actions: Vec::new(), consumed: false, timer: TimerIntent::Keep }
                    }
                },
                _ => Answer { actions: Vec::new(), consumed: false, timer: TimerIntent::Keep },
            }
        };
        assert(answer.answers(*self, old(self).timeout_answer(timer_id, *phys, composing)));
        self.remember(&answer);
        self.respond(answer)
    }

    pub open spec fn flush_step(self, hint: ComposingHint) -> FsmStep {
        let (idle, actions) = self.settled(hint, false);
        FsmStep {
            fsm: NicolaFsm { last_kana: None, ..idle },
            actions,
            consumed: true,
            timer: TimerIntent::CancelAll,
        }
    }

    /// Settles what is pending and forgets what was sent, because the context is lost.
    fn settle_out(&mut self, hint: ComposingHint) -> (actions: Vec<KeyAction>)
        ensures
            *final(self) == old(self).flush_step(hint).fsm,
            actions@ == old(self).flush_step(hint).actions,
    {
        let actions = self.settle(hint, false);
        self.last_kana = None;
        actions
    }

    /// Sends what is pending and goes idle, because the context changed.
    pub fn flush_pending(&mut self, _reason: ContextChange, composing: ComposingHint) -> (r:
        Response<KeyAction, usize>)
        ensures
            *final(self) == old(self).flush_step(composing).fsm,
            response_view(r) == old(self).flush_step(composing).response(),
    {
        let actions = self.settle_out(composing);
        self.respond(Answer { actions, consumed: true, timer: TimerIntent::CancelAll })
    }

    pub open spec fn set_enabled_step(self, enabled: bool) -> FsmStep {
        if self.enabled == enabled {
            FsmStep {
                fsm: self,
                actions: Seq::empty(),
                consumed: false,
                timer: TimerIntent::Keep,
            }
        } else {
            let flushed = self.flush_step(ComposingHint::Unknown);
            FsmStep { fsm: NicolaFsm { enabled, ..flushed.fsm }, ..flushed }
        }
    }

    /// Switches the machine on or off; a change flushes what is pending.
    pub fn set_enabled(&mut self, enabled: bool) -> (r: (bool, Response<KeyAction, usize>))
        ensures
            r.0 == enabled,
            *final(self) == old(self).set_enabled_step(enabled).fsm,
            final(self).enabled == enabled,
            response_view(r.1) == old(self).set_enabled_step(enabled).response(),
    {
        if self.enabled == enabled {
            let r = self.respond(
                Answer { actions: Vec::new(), consumed: false, timer: TimerIntent::Keep },
            );
            (enabled, r)
        } else {
            let actions = self.settle_out(ComposingHint::Unknown);
            self.enabled = enabled;
            let r = self.respond(
                Answer { actions, consumed: true, timer: TimerIntent::CancelAll },
            );
            (enabled, r)
        }
    }

    /// Switches the machine to the other state.
    pub fn toggle_enabled(&mut self) -> (r: (bool, Response<KeyAction, usize>))
        ensures
            r.0 == !old(self).enabled,
            *final(self) == old(self).set_enabled_step(!old(self).enabled).fsm,
            response_view(r.1) == old(self).set_enabled_step(!old(self).enabled).response(),
    {
        let target = !self.enabled;
        self.set_enabled(target)
    }

    pub open spec fn swap_layout_step(self, layout: YabLayout) -> FsmStep {
        let flushed = self.flush_step(ComposingHint::Unknown);
        FsmStep { fsm: NicolaFsm { layout, ..flushed.fsm }, ..flushed }
    }

    /// Replaces the layout; what is pending goes out by the old one.
    pub fn swap_layout(&mut self, layout: YabLayout) -> (r: Response<KeyAction, usize>)
        ensures
            *final(self) == old(self).swap_layout_step(layout).fsm,
            response_view(r) == old(self).swap_layout_step(layout).response(),
    {
        let actions = self.settle_out(ComposingHint::Unknown);
        self.layout = layout;
        self.respond(Answer { actions, consumed: true, timer: TimerIntent::CancelAll })
    }

    // ---- Settings ----

    pub fn set_threshold_ms(&mut self, ms: u32)
        ensures
            *final(self) == (NicolaFsm { threshold_us: (ms * 1000) as u64, ..*old(self) }),
    {
        self.threshold_us = ms as u64 * 1000;
    }

    pub fn set_confirm_mode(&mut self, mode: ConfirmMode, delay_ms: u32)
        ensures
            *final(self) == (NicolaFsm {
                confirm_mode: mode,
                speculative_delay_us: (delay_ms * 1000) as u64,
                ..*old(self)
            }),
    {
        self.confirm_mode = mode;
        self.speculative_delay_us = delay_ms as u64 * 1000;
    }

    pub fn set_ngram_model(&mut self, model: NgramModel)
        ensures
            *final(self) == (NicolaFsm { ngram_model: Some(model), ..*old(self) }),
    {
        self.ngram_model = Some(model);
    }

    pub fn set_engine_off_solo_repeat_vk(&mut self, vk: VkCode)
        ensures
            *final(self) == (NicolaFsm { engine_off_solo_repeat_vk: vk, ..*old(self) }),
    {
        self.engine_off_solo_repeat_vk = vk;
    }

    pub fn set_space_thumb_config(&mut self, space_thumb_vk: Option<VkCode>, config: TextKeyConfig)
        ensures
            *final(self) == (NicolaFsm { space_thumb_vk, space_thumb: config, ..*old(self) }),
    {
        self.space_thumb_vk = space_thumb_vk;
        self.space_thumb = config;
    }

    pub fn set_enter_thumb_config(&mut self, enter_thumb_vk: Option<VkCode>, config: TextKeyConfig)
        ensures
            *final(self) == (NicolaFsm { enter_thumb_vk, enter_thumb: config, ..*old(self) }),
    {
        self.enter_thumb_vk = enter_thumb_vk;
        self.enter_thumb = config;
    }

    pub fn set_thumb_key_solo_tap_config(
        &mut self,
        muhenkan_vk: Option<VkCode>,
        muhenkan: ModeKeyConfig,
        henkan_vk: Option<VkCode>,
        henkan: ModeKeyConfig,
    )
        ensures
            *final(self) == (NicolaFsm {
                muhenkan_vk,
                muhenkan,
                henkan_vk,
                henkan,
                ..*old(self)
            }),
    {
        self.muhenkan_vk = muhenkan_vk;
        self.muhenkan = muhenkan;
        self.henkan_vk = henkan_vk;
        self.henkan = henkan;
    }

    pub fn set_muhenkan_solo_tap_dedicated_fn_key(&mut self, vk: Option<VkCode>)
        ensures
            *final(self) == (NicolaFsm { muhenkan_dedicated_fn_key: vk, ..*old(self) }),
    {
        self.muhenkan_dedicated_fn_key = vk;
    }

    pub fn set_muhenkan_delegate_to_open_axis(&mut self, action: Option<ShadowImeAction>)
        ensures
            *final(self) == (NicolaFsm { muhenkan_delegate: action, ..*old(self) }),
    {
        self.muhenkan_delegate = action;
    }

    pub fn set_henkan_delegate_to_open_axis(&mut self, action: Option<ShadowImeAction>)
        ensures
            *final(self) == (NicolaFsm { henkan_delegate: action, ..*old(self) }),
    {
        self.henkan_delegate = action;
    }

    pub fn set_thumb_shift_faces_enabled(&mut self, enabled: bool)
        ensures
            *final(self) == (NicolaFsm { thumb_shift_faces_enabled: enabled, ..*old(self) }),
    {
        self.thumb_shift_faces_enabled = enabled;
    }

    pub fn set_thumb_keys_are_ime_switch(&mut self, yes: bool)
        ensures
            *final(self) == (NicolaFsm { thumb_keys_are_ime_switch: yes, ..*old(self) }),
    {
        self.thumb_keys_are_ime_switch = yes;
    }

    /// Takes the request to switch the engine off; it is handed out once.
    pub fn take_engine_off_requested(&mut self) -> (r: bool)
        ensures
            r == old(self).engine_off_requested,
            *final(self) == (NicolaFsm { engine_off_requested: false, ..*old(self) }),
    {
        let r = self.engine_off_requested;
        self.engine_off_requested = false;
        r
    }

    /// Takes the request to open or close the IME; it is handed out once.
    pub fn take_ime_open_requested(&mut self) -> (r: Option<ShadowImeAction>)
        ensures
            r == old(self).ime_open_requested,
            *final(self) == (NicolaFsm { ime_open_requested: None, ..*old(self) }),
    {
        let r = self.ime_open_requested;
        self.ime_open_requested = None;
        r
    }

    #[must_use]
    pub fn is_enabled(&self) -> (r: bool)
        ensures
            r == self.enabled,
    {
        self.enabled
    }
}

impl Answer {
    /// The answer and the machine are those of the step.
    spec fn answers(self, fsm: NicolaFsm, step: FsmStep) -> bool {
        &&& fsm == step.fsm
        &&& self.actions@ == step.actions
        &&& self.consumed == step.consumed
        &&& self.timer == step.timer
    }
}

pub open spec fn guard_tap(g: GuardAction) -> SoloTapAction {
    match g {
        GuardAction::Suppress => SoloTapAction::Suppress,
        GuardAction::Passthrough => SoloTapAction::Passthrough,
    }
}

pub open spec fn pass_unless(suppress: bool) -> SoloTapAction {
    if suppress {
        SoloTapAction::Suppress
    } else {
        SoloTapAction::Passthrough
    }
}

fn pass_or_suppress(suppress: bool) -> (r: SoloTapAction)
    ensures
        r == pass_unless(suppress),
{
    if suppress {
        SoloTapAction::Suppress
    } else {
        SoloTapAction::Passthrough
    }
}

/// The keys that a tap of `vk` sends.
pub open spec fn tap_keys(tap: SoloTapAction, vk: VkCode) -> Seq<KeyAction> {
    match tap {
        SoloTapAction::Suppress => Seq::empty(),
        SoloTapAction::Passthrough => raw_tap(vk),
        SoloTapAction::DedicatedFnKey(key) => raw_tap(key),
    }
}

fn one_or_none(a: Option<KeyAction>) -> (r: Vec<KeyAction>)
    ensures
        r@ == action_list(a),
{
    match a {
        Some(x) => vec![x],
        None => Vec::new(),
    }
}

} // verus!
