//! The program on macOS: what it does with events, timers and the engine's effects.
//!
//! Nothing here touches the OS. The host hands in events together with what it sees of the
//! environment, carries out the actions that come back, and reports how they went.
//!
//! Keys that are sent while an IME switch is under way would be read by the old input source.
//! They are held back until the switch is observed, and dropped where it never is or where the
//! place that they were meant for is gone.

use std::time::Duration;

use vstd::prelude::*;

use crate::engine::decision;
use crate::engine::decision::{
    Decision, DecisionView, Effect, EffectVec, EffectView, EngineCommand, ImeEffect, InputContext,
    InputEffect, InputModeState, SetOpenOrigin, TimerEffect, UiEffect,
};
use crate::engine::engine::{Engine, EngineView};
use crate::engine::input_tracker::PhysicalKeyState;
use crate::macos::event_loop::{MenuAction, TapAction};
use crate::macos::hook;
use crate::macos::hook::{ThumbKeys, KEYCODE_EISU, KEYCODE_KANA};
use crate::macos::ime;
use crate::macos::ime::{DetectorView, ImeDetector};
use crate::macos::output;
use crate::macos::output::{KeyPost, Output, INJECT_MARKER};
use crate::macos::scanmap;
use crate::timing;
use crate::types::{
    ImeRelevance, KeyAction, KeyClassification, KeyEventType, ModifierKey, ModifierState,
    RawKeyEvent, ScanCode, Timestamp, VkCode,
};

verus! {

/// Timer that looks whether held keys can go out. No timer of the engine has this number.
pub const FLUSH_TIMER_ID: usize = usize::MAX;

/// Microseconds between two looks.
pub const FLUSH_RETRY_US: u64 = 20_000;

/// Most actions that are held back.
pub const DEFER_CAP: usize = 128;

/// How often a switch that is not observed is asked for again.
pub const MAX_SWITCH_REASSERTS: u8 = 2;

// ---- Judging keys ----

/// Enter, keypad enter, escape and tab.
pub open spec fn ends_composition(keycode: u16) -> bool {
    keycode == 0x24 || keycode == 0x4C || keycode == 0x35 || keycode == 0x30
}

fn is_composition_end(keycode: u16) -> (r: bool)
    ensures
        r == ends_composition(keycode),
{
    keycode == 0x24 || keycode == 0x4C || keycode == 0x35 || keycode == 0x30
}

/// The key may move the focus: it goes through, it is pressed, it is no modifier itself, and it
/// is one of the keys that end a composition or is pressed together with Ctrl, Alt or Cmd.
pub open spec fn moves_focus(
    action: TapAction,
    keycode: u16,
    event_type: KeyEventType,
    modifiers: ModifierState,
    is_modifier_key: bool,
) -> bool {
    &&& action is Pass
    &&& event_type is KeyDown
    &&& !is_modifier_key
    &&& ends_composition(keycode) || modifiers.os_modifier_held()
}

/// Whether a key that goes through may move the focus, so that held keys would reach another
/// place than they were typed for. Editing keys do not: dropping the held keys for them would let
/// a backspace delete what stood before.
#[must_use]
pub fn passthrough_moves_focus(
    action: TapAction,
    keycode: u16,
    event_type: KeyEventType,
    modifiers: ModifierState,
    is_modifier_key: bool,
) -> (r: bool)
    ensures
        r == moves_focus(action, keycode, event_type, modifiers, is_modifier_key),
{
    if !matches!(action, TapAction::Pass) || !matches!(event_type, KeyEventType::KeyDown)
        || is_modifier_key {
        return false;
    }
    is_composition_end(keycode) || modifiers.is_os_modifier_held()
}

/// The action presses or releases a key that switches the IME.
pub open spec fn switches_ime(action: KeyAction) -> bool {
    match action {
        KeyAction::Key(vk) => hook::is_switch_key(vk.0),
        KeyAction::KeyUp(vk) => hook::is_switch_key(vk.0),
        _ => false,
    }
}

#[must_use]
pub fn is_ime_switch_action(action: &KeyAction) -> (r: bool)
    ensures
        r == switches_ime(*action),
{
    match action {
        KeyAction::Key(vk) => vk.0 == KEYCODE_EISU || vk.0 == KEYCODE_KANA,
        KeyAction::KeyUp(vk) => vk.0 == KEYCODE_EISU || vk.0 == KEYCODE_KANA,
        _ => false,
    }
}

pub open spec fn any_switches_ime(actions: Seq<KeyAction>) -> bool {
    exists|i: int| 0 <= i < actions.len() && switches_ime(#[trigger] actions[i])
}

fn has_ime_switch(actions: &Vec<KeyAction>) -> (r: bool)
    ensures
        r == any_switches_ime(actions@),
{
    let mut i: usize = 0;
    while i < actions.len()
        invariant
            i <= actions@.len(),
            forall|j: int| 0 <= j < i ==> !switches_ime(#[trigger] actions@[j]),
        decreases actions@.len() - i,
    {
        if is_ime_switch_action(&actions[i]) {
            return true;
        }
        i += 1;
    }
    false
}

/// The switch that the action presses has been overtaken by the other thumb key, which was
/// pressed later.
pub open spec fn overtaken(action: KeyAction, left_at: Timestamp, right_at: Timestamp) -> bool {
    match action {
        KeyAction::Key(vk) => (vk.0 == KEYCODE_EISU && right_at > left_at) || (vk.0 == KEYCODE_KANA
            && left_at > right_at),
        _ => false,
    }
}

/// While both thumb keys are held, the one pressed last is what the user wants.
pub open spec fn superseded(phys: PhysicalKeyState, actions: Seq<KeyAction>) -> bool {
    match (phys.left_thumb_down, phys.right_thumb_down) {
        (Some(left_at), Some(right_at)) => exists|i: int|
            0 <= i < actions.len() && overtaken(#[trigger] actions[i], left_at, right_at),
        _ => false,
    }
}

fn has_overtaken(actions: &Vec<KeyAction>, left_at: Timestamp, right_at: Timestamp) -> (r: bool)
    ensures
        r == (exists|i: int|
            0 <= i < actions@.len() && overtaken(#[trigger] actions@[i], left_at, right_at)),
{
    let mut i: usize = 0;
    while i < actions.len()
        invariant
            i <= actions@.len(),
            forall|j: int| 0 <= j < i ==> !overtaken(#[trigger] actions@[j], left_at, right_at),
        decreases actions@.len() - i,
    {
        let over = match &actions[i] {
            KeyAction::Key(vk) => (vk.0 == KEYCODE_EISU && right_at > left_at) || (vk.0
                == KEYCODE_KANA && left_at > right_at),
            _ => false,
        };
        if over {
            return true;
        }
        i += 1;
    }
    false
}

fn is_superseded(phys: &PhysicalKeyState, actions: &Vec<KeyAction>) -> (r: bool)
    ensures
        r == superseded(*phys, actions@),
{
    match (phys.left_thumb_down, phys.right_thumb_down) {
        (Some(left_at), Some(right_at)) => has_overtaken(actions, left_at, right_at),
        _ => false,
    }
}

// ---- Events of the tap ----

/// Modifier flags of an event.
#[derive(Debug, Clone, Copy, PartialEq, Eq, Structural)]
pub struct CgFlags {
    pub shift: bool,
    pub control: bool,
    pub alternate: bool,
    pub command: bool,
}

#[derive(Debug, Clone, Copy, PartialEq, Eq, Structural)]
pub enum CgEventKind {
    KeyDown,
    KeyUp,
    /// A modifier key went down or up.
    FlagsChanged,
    /// A button of the mouse went down.
    MouseDown,
    Other,
}

/// An event of the tap.
#[derive(Debug, Clone, Copy, PartialEq, Eq, Structural)]
pub struct CgEvent {
    pub kind: CgEventKind,
    pub keycode: u16,
    /// The mark that the poster of the event has left.
    pub user_data: i64,
    pub flags: CgFlags,
}

/// The key code of an event field; a value that is none becomes one that no key has.
#[must_use]
pub fn keycode_from_field(value: i64) -> (r: u16)
    ensures
        r == (if 0 <= value <= u16::MAX {
            value as u16
        } else {
            u16::MAX
        }),
{
    if 0 <= value && value <= 0xFFFF {
        value as u16
    } else {
        u16::MAX
    }
}

/// Direction of a modifier key: down where its flag is set.
pub open spec fn modifier_direction(keycode: u16, flags: CgFlags) -> Option<(
    ModifierKey,
    KeyEventType,
)> {
    match hook::modifier_of(keycode) {
        None => None,
        Some(mk) => {
            let set = match mk {
                ModifierKey::Shift => flags.shift,
                ModifierKey::Ctrl => flags.control,
                ModifierKey::Alt => flags.alternate,
                ModifierKey::Meta => flags.command,
            };
            Some(
                (
                    mk,
                    if set {
                        KeyEventType::KeyDown
                    } else {
                        KeyEventType::KeyUp
                    },
                ),
            )
        },
    }
}

#[must_use]
pub fn flags_changed_event_type(keycode: u16, flags: CgFlags) -> (r: Option<
    (ModifierKey, KeyEventType),
>)
    ensures
        r == modifier_direction(keycode, flags),
{
    match hook::classify_modifier(keycode) {
        None => None,
        Some(mk) => {
            let set = match mk {
                ModifierKey::Shift => flags.shift,
                ModifierKey::Ctrl => flags.control,
                ModifierKey::Alt => flags.alternate,
                ModifierKey::Meta => flags.command,
            };
            let event_type = if set {
                KeyEventType::KeyDown
            } else {
                KeyEventType::KeyUp
            };
            Some((mk, event_type))
        },
    }
}

/// Direction of a key event; none where the event is no key of interest.
pub open spec fn key_direction(ev: CgEvent) -> Option<KeyEventType> {
    match ev.kind {
        CgEventKind::KeyDown => Some(KeyEventType::KeyDown),
        CgEventKind::KeyUp => Some(KeyEventType::KeyUp),
        CgEventKind::FlagsChanged => match modifier_direction(ev.keycode, ev.flags) {
            Some((_, t)) => Some(t),
            None => None,
        },
        _ => None,
    }
}

fn direction(ev: &CgEvent) -> (r: Option<KeyEventType>)
    ensures
        r == key_direction(*ev),
{
    match ev.kind {
        CgEventKind::KeyDown => Some(KeyEventType::KeyDown),
        CgEventKind::KeyUp => Some(KeyEventType::KeyUp),
        CgEventKind::FlagsChanged => match flags_changed_event_type(ev.keycode, ev.flags) {
            Some((_, t)) => Some(t),
            None => None,
        },
        _ => None,
    }
}

// ---- The host ----

/// What the host sees at the moment of a call.
#[derive(Debug)]
pub struct HostState {
    /// Clock, in nanoseconds.
    pub now: u64,
    /// Settle time of an IME switch, in nanoseconds.
    pub settle: u64,
    /// Identifier of the current input source.
    pub source: Option<String>,
    /// Process in front.
    pub frontmost_pid: Option<i32>,
}

impl HostState {
    pub open spec fn source_id(self) -> Option<Seq<char>> {
        ime::id_view(self.source)
    }

    fn source_str(&self) -> (r: Option<&str>)
        ensures
            ime::source_view(r) == self.source_id(),
    {
        match &self.source {
            Some(s) => Some(s.as_str()),
            None => None,
        }
    }

    /// The clock in the engine's microseconds.
    pub open spec fn timestamp(self) -> Timestamp {
        self.now / 1000
    }
}

/// Something for the host to do.
#[derive(Debug)]
pub enum HostAction {
    /// Hand the actions to `send_now` and post what comes back.
    Send(Vec<KeyAction>),
    /// Post the key event that `reinject_now` makes.
    Reinject { vk: VkCode, event_type: KeyEventType },
    /// Tell `expect_ime_from_key` that the key reaches the OS; if that says so, `refresh` and
    /// carry out the decision before going on.
    ExpectFromKey(u16),
    StartTimer { id: usize, duration: Duration },
    KillTimer(usize),
    /// Try to select an input source and report to `ime_selected`.
    SelectSource { open: bool },
    /// Show the engine as on or off.
    ShowEnabled(bool),
}

pub ghost enum HostActionView {
    Send(Seq<KeyAction>),
    Reinject(VkCode, KeyEventType),
    ExpectFromKey(u16),
    StartTimer(usize, Duration),
    KillTimer(usize),
    SelectSource(bool),
    ShowEnabled(bool),
}

impl View for HostAction {
    type V = HostActionView;

    open spec fn view(&self) -> HostActionView {
        match *self {
            HostAction::Send(keys) => HostActionView::Send(keys@),
            HostAction::Reinject { vk, event_type } => HostActionView::Reinject(vk, event_type),
            HostAction::ExpectFromKey(k) => HostActionView::ExpectFromKey(k),
            HostAction::StartTimer { id, duration } => HostActionView::StartTimer(id, duration),
            HostAction::KillTimer(id) => HostActionView::KillTimer(id),
            HostAction::SelectSource { open } => HostActionView::SelectSource(open),
            HostAction::ShowEnabled(e) => HostActionView::ShowEnabled(e),
        }
    }
}

pub open spec fn action_views(actions: Seq<HostAction>) -> Seq<HostActionView> {
    actions.map_values(|a: HostAction| a@)
}

pub open spec fn flush_timer() -> HostActionView {
    HostActionView::StartTimer(FLUSH_TIMER_ID, timing::micros(FLUSH_RETRY_US))
}

/// One expectation for each key that is pressed, in order.
pub open spec fn expectations(actions: Seq<KeyAction>) -> Seq<HostActionView>
    decreases actions.len(),
{
    if actions.len() == 0 {
        Seq::empty()
    } else {
        let before = expectations(actions.drop_last());
        match actions.last() {
            KeyAction::Key(vk) => before.push(HostActionView::ExpectFromKey(vk.0)),
            _ => before,
        }
    }
}

/// What the held keys come to.
#[derive(Debug)]
pub enum FlushPlan {
    /// Nothing is held, or the switch is still under way.
    Nothing,
    /// The switch was not observed: try it again and report to `after_reassert`.
    Reassert(bool),
    /// The keys were dropped.
    Discarded,
    /// Post these.
    Send(Vec<KeyPost>),
}

pub ghost enum FlushPlanView {
    Nothing,
    Reassert(bool),
    Discarded,
    Send(Seq<KeyPost>),
}

impl View for FlushPlan {
    type V = FlushPlanView;

    open spec fn view(&self) -> FlushPlanView {
        match *self {
            FlushPlan::Nothing => FlushPlanView::Nothing,
            FlushPlan::Reassert(open) => FlushPlanView::Reassert(open),
            FlushPlan::Discarded => FlushPlanView::Discarded,
            FlushPlan::Send(posts) => FlushPlanView::Send(posts@),
        }
    }
}

/// What an event of the tap comes to.
#[derive(Debug)]
pub enum EventPlan {
    /// It goes on.
    Pass,
    /// The program has posted it itself: it goes on. For a key-down `expect_ime_from_key` is to
    /// be told.
    Injected { expect: Option<u16> },
    /// The engine has decided. Carry the effects out, then call `after_event`.
    Decided { decision: Decision, event_type: KeyEventType },
}

pub ghost enum EventPlanView {
    Pass,
    Injected(Option<u16>),
    Decided(DecisionView, KeyEventType),
}

impl View for EventPlan {
    type V = EventPlanView;

    open spec fn view(&self) -> EventPlanView {
        match *self {
            EventPlan::Pass => EventPlanView::Pass,
            EventPlan::Injected { expect } => EventPlanView::Injected(expect),
            EventPlan::Decided { decision, event_type } => EventPlanView::Decided(
                decision@,
                event_type,
            ),
        }
    }
}

/// What the expiry of a timer comes to.
#[derive(Debug)]
pub enum TimerPlan {
    /// The switch is still under way: start the flush timer again.
    Retry,
    /// Look at the held keys with `plan_flush`.
    Flush,
    /// The engine has decided.
    Decided(Decision),
}

pub ghost enum TimerPlanView {
    Retry,
    Flush,
    Decided(DecisionView),
}

impl View for TimerPlan {
    type V = TimerPlanView;

    open spec fn view(&self) -> TimerPlanView {
        match *self {
            TimerPlan::Retry => TimerPlanView::Retry,
            TimerPlan::Flush => TimerPlanView::Flush,
            TimerPlan::Decided(d) => TimerPlanView::Decided(d@),
        }
    }
}

/// What a choice from the menu comes to.
#[derive(Debug)]
pub enum MenuPlan {
    /// The engine has decided.
    Decided(Decision),
    /// Ask the system for what `login_item::toggle` says, and show what has become of it.
    ToggleLoginItem,
}

pub ghost enum MenuPlanView {
    Decided(DecisionView),
    ToggleLoginItem,
}

impl View for MenuPlan {
    type V = MenuPlanView;

    open spec fn view(&self) -> MenuPlanView {
        match *self {
            MenuPlan::Decided(d) => MenuPlanView::Decided(d@),
            MenuPlan::ToggleLoginItem => MenuPlanView::ToggleLoginItem,
        }
    }
}

// ---- The program ----

/// The program's state.
#[derive(Debug)]
pub struct App {
    engine: Engine,
    output: Output,
    ime: ImeDetector,
    thumbs: ThumbKeys,
    phys: PhysicalKeyState,
    /// Actions that wait for an IME switch.
    deferred_keys: Vec<KeyAction>,
    /// Process in front when the first of them was held back.
    deferred_focus_pid: Option<i32>,
    /// IME state that they wait for.
    deferred_expect_on: Option<bool>,
    deferred_since: Option<u64>,
    /// How often the switch was asked for again while they wait.
    deferred_switch_reasserts: u8,
    /// How often a switch was asked for again while nothing waits.
    switch_recoveries: u8,
}

pub ghost struct AppView {
    pub engine: EngineView,
    pub output: Output,
    pub ime: DetectorView,
    pub thumbs: ThumbKeys,
    pub phys: PhysicalKeyState,
    pub deferred_keys: Seq<KeyAction>,
    pub deferred_focus_pid: Option<i32>,
    pub deferred_expect_on: Option<bool>,
    pub deferred_since: Option<u64>,
    pub deferred_switch_reasserts: u8,
    pub switch_recoveries: u8,
}

impl AppView {
    pub open spec fn wf(self) -> bool {
        &&& self.deferred_keys.len() <= DEFER_CAP
        &&& self.deferred_switch_reasserts <= MAX_SWITCH_REASSERTS
        &&& self.switch_recoveries <= MAX_SWITCH_REASSERTS
    }

    /// The input source is looked at.
    pub open spec fn looked(self, host: HostState) -> AppView {
        AppView { ime: self.ime.looked(host.source_id(), host.now, host.settle), ..self }
    }

    pub open spec fn ime_answer(self, host: HostState) -> Option<bool> {
        self.ime.answer(host.source_id(), host.now, host.settle)
    }

    /// The context for the engine. An IME whose state cannot be told counts as on.
    pub open spec fn context(self, host: HostState) -> InputContext {
        InputContext {
            ime_on: match self.ime_answer(host) {
                Some(on) => on,
                None => true,
            },
            input_mode: InputModeState::ObservedRomaji,
            is_japanese_ime: self.looked(host).ime.japanese_layout(host.source_id(), host.now),
            composing: false,
            modifiers: self.phys.modifiers,
            left_thumb_down: self.phys.left_thumb_down,
            right_thumb_down: self.phys.right_thumb_down,
        }
    }

    pub open spec fn without_deferred(self) -> AppView {
        AppView {
            deferred_keys: Seq::empty(),
            deferred_focus_pid: None,
            deferred_expect_on: None,
            deferred_since: None,
            deferred_switch_reasserts: 0,
            ..self
        }
    }

    // ---- Held keys ----

    /// The held keys are looked at. While the switch is under way nothing happens. Where it was
    /// not observed it is asked for again, up to the limit; then the keys are dropped. Otherwise
    /// they go out, provided that the process in front is known to be the one they were typed
    /// for.
    pub open spec fn flush(self, host: HostState) -> (AppView, FlushPlanView) {
        let seen = self.looked(host);
        if self.deferred_keys.len() == 0 {
            (self, FlushPlanView::Nothing)
        } else if seen.ime.pending is Some {
            (seen, FlushPlanView::Nothing)
        } else if self.deferred_expect_on is Some && seen.ime_answer(host)
            != self.deferred_expect_on {
            if self.deferred_switch_reasserts < MAX_SWITCH_REASSERTS {
                (seen.looked(host), FlushPlanView::Reassert(self.deferred_expect_on->0))
            } else {
                (seen.looked(host).without_deferred(), FlushPlanView::Discarded)
            }
        } else {
            let ready = (if self.deferred_expect_on is Some {
                seen.looked(host)
            } else {
                seen
            }).without_deferred();
            if self.deferred_focus_pid is Some && host.frontmost_pid == self.deferred_focus_pid {
                let sent = self.output.actions_posted(self.deferred_keys);
                (
                    AppView {
                        output: Output { composing_hint: sent.composing, ..self.output },
                        ..ready
                    },
                    FlushPlanView::Send(sent.posts),
                )
            } else {
                (ready, FlushPlanView::Discarded)
            }
        }
    }

    /// The switch was asked for again: the keys wait on, or are dropped where it was refused.
    pub open spec fn reasserted(self, open: bool, selected: bool, now: u64) -> AppView {
        if selected {
            AppView {
                ime: self.ime.expecting(open, now),
                deferred_switch_reasserts: (self.deferred_switch_reasserts + 1) as u8,
                ..self
            }
        } else {
            self.without_deferred()
        }
    }

    /// A switch that was never observed and for which no key waits is asked for again, up to the
    /// limit.
    pub open spec fn recovery(self, host: HostState) -> (AppView, Option<bool>) {
        let seen = self.looked(host);
        let taken = AppView { ime: DetectorView { failed_switch: None, ..seen.ime }, ..seen };
        if self.deferred_keys.len() == 0 && self.switch_recoveries < MAX_SWITCH_REASSERTS {
            (taken, seen.ime.failed_switch)
        } else {
            (taken, None)
        }
    }

    pub open spec fn recovered(self, open: bool, selected: bool, now: u64) -> AppView {
        if selected {
            AppView {
                ime: self.ime.expecting(open, now),
                switch_recoveries: (self.switch_recoveries + 1) as u8,
                ..self
            }
        } else {
            self
        }
    }

    // ---- Effects ----

    /// The actions are held back behind those that wait already. Where the queue would grow too
    /// long the new ones are dropped.
    pub open spec fn deferring(self, actions: Seq<KeyAction>, host: HostState) -> AppView {
        let first = self.deferred_keys.len() == 0;
        AppView {
            deferred_focus_pid: if first {
                host.frontmost_pid
            } else {
                self.deferred_focus_pid
            },
            deferred_expect_on: if first {
                match self.ime.pending {
                    Some(exp) => Some(exp.expected),
                    None => None,
                }
            } else {
                self.deferred_expect_on
            },
            deferred_since: if first {
                Some(host.now)
            } else {
                self.deferred_since
            },
            deferred_keys: if self.deferred_keys.len() + actions.len() > DEFER_CAP {
                self.deferred_keys
            } else {
                self.deferred_keys + actions
            },
            ..self
        }
    }

    /// Keys to send. Keys that switch the IME are never held back, or later ones would overtake
    /// them; one that has been overtaken is dropped. Other keys are held back while a switch is
    /// under way or keys wait already.
    pub open spec fn sending(self, actions: Seq<KeyAction>, host: HostState) -> (
        AppView,
        Seq<HostActionView>,
    ) {
        if any_switches_ime(actions) {
            if superseded(self.phys, actions) {
                (self, Seq::empty())
            } else {
                (self, expectations(actions).push(HostActionView::Send(actions)))
            }
        } else {
            let seen = self.looked(host);
            if seen.ime.pending is Some || self.deferred_keys.len() > 0 {
                (seen.deferring(actions, host), seq![flush_timer()])
            } else {
                (seen, seq![HostActionView::Send(actions)])
            }
        }
    }

    pub open spec fn effect(self, effect: EffectView, host: HostState) -> (
        AppView,
        Seq<HostActionView>,
    ) {
        match effect {
            EffectView::SendKeys(actions) => self.sending(actions, host),
            EffectView::ReinjectKey(ev) => (
                self,
                if ev.event_type is KeyDown {
                    seq![
                        HostActionView::ExpectFromKey(ev.vk_code.0),
                        HostActionView::Reinject(ev.vk_code, ev.event_type),
                    ]
                } else {
                    seq![HostActionView::Reinject(ev.vk_code, ev.event_type)]
                },
            ),
            EffectView::Timer(TimerEffect::Start { id, duration }) => (
                self,
                seq![HostActionView::StartTimer(id, duration)],
            ),
            EffectView::Timer(TimerEffect::Kill(id)) => (self, seq![HostActionView::KillTimer(id)]),
            EffectView::Ime(ImeEffect::SetOpen { open, origin }) => (
                self,
                match origin {
                    SetOpenOrigin::ExplicitUserAction => seq![HostActionView::SelectSource(open)],
                    SetOpenOrigin::ActivationSync => Seq::empty(),
                },
            ),
            EffectView::Ui(UiEffect::EngineStateChanged { enabled, send_ime_key: _ }) => (
                self,
                seq![HostActionView::ShowEnabled(enabled)],
            ),
        }
    }

    /// A key that may switch the IME reaches the OS.
    pub open spec fn expecting_from(self, keycode: u16, now: u64) -> AppView {
        if hook::is_switch_key(keycode) {
            AppView {
                ime: self.ime.expecting(keycode == KEYCODE_KANA, now),
                switch_recoveries: 0,
                ..self
            }
        } else {
            self
        }
    }

    // ---- Events ----

    pub open spec fn raw_event(self, ev: CgEvent, event_type: KeyEventType, host: HostState) -> RawKeyEvent {
        RawKeyEvent {
            vk_code: VkCode(ev.keycode),
            scan_code: ScanCode(ev.keycode as u32),
            event_type,
            extra_info: 0,
            timestamp: host.timestamp(),
            key_classification: self.thumbs.class_of(ev.keycode),
            physical_pos: if self.thumbs.class_of(ev.keycode) is Char {
                scanmap::pos_of(ev.keycode)
            } else {
                None
            },
            ime_relevance: ImeRelevance { is_ime_control: false, sync_direction: None },
            modifier_key: hook::modifier_of(ev.keycode),
            modifier_snapshot: self.phys.modifiers,
            injected: false,
        }
    }

    /// A key event for the engine. A key that ends a composition, and an IME that is off, clear
    /// the composing hint first.
    pub open spec fn key_event(self, ev: CgEvent, event_type: KeyEventType, host: HostState) -> (
        AppView,
        EventPlanView,
    ) {
        let raw = self.raw_event(ev, event_type, host);
        let held = AppView { phys: self.phys.after(raw), ..self };
        let ctx = held.context(host);
        let breaks = (event_type is KeyDown && ends_composition(ev.keycode)) || !ctx.ime_on;
        let (engine, d) = self.engine.input(raw, ctx);
        (
            AppView {
                engine,
                output: if breaks {
                    Output { composing_hint: false, ..self.output }
                } else {
                    self.output
                },
                ..held.looked(host)
            },
            EventPlanView::Decided(d, event_type),
        )
    }

    pub open spec fn event(self, ev: CgEvent, host: HostState) -> (AppView, EventPlanView) {
        if ev.kind is MouseDown {
            (
                AppView {
                    output: Output { composing_hint: false, ..self.output },
                    ..self.without_deferred()
                },
                EventPlanView::Pass,
            )
        } else if ev.user_data == INJECT_MARKER {
            (
                self,
                EventPlanView::Injected(
                    if ev.kind is KeyDown {
                        Some(ev.keycode)
                    } else {
                        None
                    },
                ),
            )
        } else {
            match key_direction(ev) {
                None => (self, EventPlanView::Pass),
                Some(event_type) => self.key_event(ev, event_type, host),
            }
        }
    }

    /// After the effects of a decision are carried out: a key that moves the focus drops the held
    /// keys, those that this very event has added among them; a key-down that goes through may
    /// switch the IME.
    pub open spec fn settled(self, keycode: u16, event_type: KeyEventType, action: TapAction) -> (
        AppView,
        Option<u16>,
    ) {
        let drops = moves_focus(
            action,
            keycode,
            event_type,
            self.phys.modifiers,
            hook::modifier_of(keycode) is Some,
        );
        (
            if drops {
                self.without_deferred()
            } else {
                self
            },
            if action is Pass && event_type is KeyDown {
                Some(keycode)
            } else {
                None
            },
        )
    }

    pub open spec fn command(self, cmd: EngineCommand, host: HostState) -> (AppView, DecisionView) {
        let (engine, d) = self.engine.command(cmd, self.context(host));
        (AppView { engine, ..self.looked(host) }, d)
    }

    pub open spec fn menu(self, action: MenuAction, host: HostState) -> (AppView, MenuPlanView) {
        match action {
            MenuAction::ToggleEngine => {
                let (after, d) = self.command(EngineCommand::ToggleEngine, host);
                (after, MenuPlanView::Decided(d))
            },
            MenuAction::ToggleLoginItem => (self, MenuPlanView::ToggleLoginItem),
        }
    }

    pub open spec fn timer(self, id: usize, host: HostState) -> (AppView, TimerPlanView) {
        let seen = self.looked(host);
        if id == FLUSH_TIMER_ID {
            (
                seen,
                if seen.ime.pending is Some {
                    TimerPlanView::Retry
                } else {
                    TimerPlanView::Flush
                },
            )
        } else {
            let (engine, d) = self.engine.timeout(id, self.context(host));
            (AppView { engine, ..seen }, TimerPlanView::Decided(d))
        }
    }
}

impl View for App {
    type V = AppView;

    closed spec fn view(&self) -> AppView {
        AppView {
            engine: self.engine@,
            output: self.output,
            ime: self.ime@,
            thumbs: self.thumbs,
            phys: self.phys,
            deferred_keys: self.deferred_keys@,
            deferred_focus_pid: self.deferred_focus_pid,
            deferred_expect_on: self.deferred_expect_on,
            deferred_since: self.deferred_since,
            deferred_switch_reasserts: self.deferred_switch_reasserts,
            switch_recoveries: self.switch_recoveries,
        }
    }
}

fn push_action(actions: &mut Vec<HostAction>, action: HostAction)
    ensures
        action_views(final(actions)@) == action_views(old(actions)@).push(action@),
{
    actions.push(action);
    assert(action_views(actions@) =~= action_views(old(actions)@).push(action@));
}

impl App {
    pub closed spec fn wf(&self) -> bool {
        self.engine.wf() && self@.wf()
    }

    /// What well-formedness says of the held keys.
    pub proof fn lemma_wf(&self)
        requires
            self.wf(),
        ensures
            self@.wf(),
    {
    }

    /// A program that has looked at the input source once and holds no keys.
    #[must_use]
    pub fn new(engine: Engine, output: Output, thumbs: ThumbKeys, source: Option<&str>) -> (r: Self)
        requires
            engine.wf(),
        ensures
            r.wf(),
            r@ == (AppView {
                engine: engine@,
                output,
                ime: DetectorView::fresh().observing(ime::source_view(source)),
                thumbs,
                phys: PhysicalKeyState::empty_spec(),
                deferred_keys: Seq::empty(),
                deferred_focus_pid: None,
                deferred_expect_on: None,
                deferred_since: None,
                deferred_switch_reasserts: 0,
                switch_recoveries: 0,
            }),
    {
        App {
            engine,
            output,
            ime: ImeDetector::new(source),
            thumbs,
            phys: PhysicalKeyState::empty(),
            deferred_keys: Vec::new(),
            deferred_focus_pid: None,
            deferred_expect_on: None,
            deferred_since: None,
            deferred_switch_reasserts: 0,
            switch_recoveries: 0,
        }
    }

    /// Whether to show the engine as on.
    pub fn shown_enabled(&mut self, host: &HostState) -> (r: bool)
        requires
            old(self).wf(),
        ensures
            final(self).wf(),
            final(self)@ == old(self)@.looked(*host),
            r == old(self)@.engine.active(old(self)@.context(*host)),
    {
        let ctx = self.make_ctx(host);
        self.engine.compute_active(&ctx)
    }

    fn make_ctx(&mut self, host: &HostState) -> (ctx: InputContext)
        requires
            old(self).wf(),
        ensures
            final(self).wf(),
            final(self)@ == old(self)@.looked(*host),
            ctx == old(self)@.context(*host),
    {
        let answer = self.ime.is_ime_on(host.source_str(), host.now, host.settle);
        InputContext {
            ime_on: match answer {
                Some(on) => on,
                None => true,
            },
            input_mode: InputModeState::ObservedRomaji,
            is_japanese_ime: self.ime.is_japanese_layout(host.source_str(), host.now),
            composing: false,
            modifiers: self.phys.modifiers,
            left_thumb_down: self.phys.left_thumb_down,
            right_thumb_down: self.phys.right_thumb_down,
        }
    }

    /// Drops the held keys.
    pub fn discard_deferred(&mut self)
        requires
            old(self).wf(),
        ensures
            final(self).wf(),
            final(self)@ == old(self)@.without_deferred(),
    {
        self.deferred_keys = Vec::new();
        self.deferred_focus_pid = None;
        self.deferred_expect_on = None;
        self.deferred_since = None;
        self.deferred_switch_reasserts = 0;
        assert(self@.deferred_keys =~= Seq::empty());
    }

    /// Looks at the held keys.
    pub fn maybe_flush_deferred(&mut self, host: &HostState) -> (plan: FlushPlan)
        requires
            old(self).wf(),
        ensures
            final(self).wf(),
            final(self)@ == old(self)@.flush(*host).0,
            plan@ == old(self)@.flush(*host).1,
    {
        if self.deferred_keys.is_empty() {
            return FlushPlan::Nothing;
        }
        if self.ime.is_switch_pending(host.source_str(), host.now, host.settle) {
            return FlushPlan::Nothing;
        }
        if let Some(expected) = self.deferred_expect_on {
            let answer = self.ime.is_ime_on(host.source_str(), host.now, host.settle);
            let reached = match answer {
                Some(on) => on == expected,
                None => false,
            };
            if !reached {
                if self.deferred_switch_reasserts < MAX_SWITCH_REASSERTS {
                    return FlushPlan::Reassert(expected);
                }
                self.discard_deferred();
                return FlushPlan::Discarded;
            }
        }
        let same_focus = match (self.deferred_focus_pid, host.frontmost_pid) {
            (Some(expected), Some(current)) => expected == current,
            _ => false,
        };
        if !same_focus {
            self.discard_deferred();
            return FlushPlan::Discarded;
        }
        let mut keys: Vec<KeyAction> = Vec::new();
        std::mem::swap(&mut keys, &mut self.deferred_keys);
        self.discard_deferred();
        let posts = self.output.send_keys(&keys);
        FlushPlan::Send(posts)
    }

    /// The outcome of a `FlushPlan::Reassert`. Where the keys wait on, the flush timer is to be
    /// started.
    pub fn after_reassert(&mut self, open: bool, selected: bool, now: u64) -> (wait: bool)
        requires
            old(self).wf(),
            old(self)@.deferred_switch_reasserts < MAX_SWITCH_REASSERTS,
        ensures
            final(self).wf(),
            final(self)@ == old(self)@.reasserted(open, selected, now),
            wait == selected,
    {
        if self.ime.set_ime_on(open, selected, now) {
            self.deferred_switch_reasserts = self.deferred_switch_reasserts + 1;
            true
        } else {
            self.discard_deferred();
            false
        }
    }

    /// A switch to ask for again, with `after_recovery` to be told the outcome. To be called
    /// before a key is judged: the key then counts as typed after the switch.
    pub fn recover_failed_switch(&mut self, host: &HostState) -> (open: Option<bool>)
        requires
            old(self).wf(),
        ensures
            final(self).wf(),
            final(self)@ == old(self)@.recovery(*host).0,
            open == old(self)@.recovery(*host).1,
    {
        let _ = self.ime.is_ime_on(host.source_str(), host.now, host.settle);
        let failed = self.ime.take_failed_switch();
        if !self.deferred_keys.is_empty() || self.switch_recoveries >= MAX_SWITCH_REASSERTS {
            return None;
        }
        failed
    }

    /// The outcome of a recovery.
    pub fn after_recovery(&mut self, open: bool, selected: bool, now: u64)
        requires
            old(self).wf(),
            old(self)@.switch_recoveries < MAX_SWITCH_REASSERTS,
        ensures
            final(self).wf(),
            final(self)@ == old(self)@.recovered(open, selected, now),
    {
        if self.ime.set_ime_on(open, selected, now) {
            self.switch_recoveries = self.switch_recoveries + 1;
        }
    }

    /// The input sources to try for a switch, in order.
    #[must_use]
    pub fn select_for(&self, open: bool, sources: &Vec<Option<String>>) -> (r: Vec<usize>)
        ensures
            r@ == self@.ime.attempts(open, sources@),
    {
        self.ime.select_for(open, sources)
    }

    /// The outcome of a `HostAction::SelectSource`.
    pub fn ime_selected(&mut self, open: bool, selected: bool, now: u64)
        requires
            old(self).wf(),
        ensures
            final(self).wf(),
            final(self)@ == (if selected {
                AppView { ime: old(self)@.ime.expecting(open, now), ..old(self)@ }
            } else {
                old(self)@
            }),
    {
        let _ = self.ime.set_ime_on(open, selected, now);
    }

    /// Carries an effect out as far as it is a matter of decision.
    pub fn run_effect(&mut self, effect: Effect, host: &HostState) -> (actions: Vec<HostAction>)
        requires
            old(self).wf(),
        ensures
            final(self).wf(),
            final(self)@ == old(self)@.effect(effect@, *host).0,
            action_views(actions@) == old(self)@.effect(effect@, *host).1,
    {
        let mut actions: Vec<HostAction> = Vec::new();
        assert(action_views(actions@) =~= Seq::empty());
        match effect {
            Effect::Input(InputEffect::SendKeys(keys)) => {
                return self.run_send_keys(keys, host);
            },
            Effect::Input(InputEffect::ReinjectKey(ev)) => {
                if matches!(ev.event_type, KeyEventType::KeyDown) {
                    push_action(&mut actions, HostAction::ExpectFromKey(ev.vk_code.0));
                }
                push_action(
                    &mut actions,
                    HostAction::Reinject { vk: ev.vk_code, event_type: ev.event_type },
                );
            },
            Effect::Timer(TimerEffect::Start { id, duration }) => {
                push_action(&mut actions, HostAction::StartTimer { id, duration });
            },
            Effect::Timer(TimerEffect::Kill(id)) => {
                push_action(&mut actions, HostAction::KillTimer(id));
            },
            Effect::Ime(ImeEffect::SetOpen { open, origin }) => match origin {
                SetOpenOrigin::ExplicitUserAction => {
                    push_action(&mut actions, HostAction::SelectSource { open });
                },
                // The state that the engine follows is the observed one: acting on the echo
                // would fight with the switch that the OS is carrying out.
                SetOpenOrigin::ActivationSync => {},
            },
            Effect::Ui(UiEffect::EngineStateChanged { enabled, send_ime_key: _ }) => {
                push_action(&mut actions, HostAction::ShowEnabled(enabled));
            },
        }
        assert(action_views(actions@) =~= old(self)@.effect(effect@, *host).1);
        actions
    }

    fn run_send_keys(&mut self, keys: Vec<KeyAction>, host: &HostState) -> (actions: Vec<HostAction>)
        requires
            old(self).wf(),
        ensures
            final(self).wf(),
            final(self)@ == old(self)@.sending(keys@, *host).0,
            action_views(actions@) == old(self)@.sending(keys@, *host).1,
    {
        let mut actions: Vec<HostAction> = Vec::new();
        assert(action_views(actions@) =~= Seq::empty());
        if has_ime_switch(&keys) {
            if is_superseded(&self.phys, &keys) {
                return actions;
            }
            push_expectations(&keys, &mut actions);
            let ghost before = action_views(actions@);
            let ghost sent = keys@;
            push_action(&mut actions, HostAction::Send(keys));
            assert(action_views(actions@) =~= expectations(sent).push(HostActionView::Send(sent)));
            return actions;
        }
        let pending = self.ime.is_switch_pending(host.source_str(), host.now, host.settle);
        if pending || !self.deferred_keys.is_empty() {
            if self.deferred_keys.is_empty() {
                self.deferred_focus_pid = host.frontmost_pid;
                self.deferred_expect_on = self.ime.pending_open();
                self.deferred_since = Some(host.now);
            }
            self.defer(keys);
            push_action(
                &mut actions,
                HostAction::StartTimer {
                    id: FLUSH_TIMER_ID,
                    duration: timing::duration_from_micros(FLUSH_RETRY_US),
                },
            );
            assert(action_views(actions@) =~= seq![flush_timer()]);
        } else {
            let ghost sent = keys@;
            push_action(&mut actions, HostAction::Send(keys));
            assert(action_views(actions@) =~= seq![HostActionView::Send(sent)]);
        }
        actions
    }

    /// Queues the keys unless the queue would grow too long.
    fn defer(&mut self, keys: Vec<KeyAction>)
        requires
            old(self).wf(),
        ensures
            final(self).wf(),
            final(self)@ == (AppView {
                deferred_keys: if old(self)@.deferred_keys.len() + keys@.len() > DEFER_CAP {
                    old(self)@.deferred_keys
                } else {
                    old(self)@.deferred_keys + keys@
                },
                ..old(self)@
            }),
    {
        if keys.len() <= DEFER_CAP && self.deferred_keys.len() + keys.len() <= DEFER_CAP {
            let ghost head = self.deferred_keys@;
            let ghost tail = keys@;
            let mut keys = keys;
            self.deferred_keys.append(&mut keys);
            assert(self.deferred_keys@ =~= head + tail);
        }
    }

    /// Tells that a key reaches the OS. If it switches the IME the result is true: the engine is
    /// to be refreshed, or the display would lag behind.
    pub fn expect_ime_from_key(&mut self, keycode: u16, now: u64) -> (refresh: bool)
        requires
            old(self).wf(),
        ensures
            final(self).wf(),
            final(self)@ == old(self)@.expecting_from(keycode, now),
            refresh == hook::is_switch_key(keycode),
    {
        if keycode == KEYCODE_EISU {
            self.ime.expect_ime_on(false, now);
        } else if keycode == KEYCODE_KANA {
            self.ime.expect_ime_on(true, now);
        } else {
            return false;
        }
        self.switch_recoveries = 0;
        true
    }

    /// Lets the engine follow the environment.
    pub fn refresh(&mut self, host: &HostState) -> (d: Decision)
        requires
            old(self).wf(),
        ensures
            final(self).wf(),
            final(self)@ == old(self)@.command(EngineCommand::RefreshState, *host).0,
            d@ == old(self)@.command(EngineCommand::RefreshState, *host).1,
    {
        let ctx = self.make_ctx(host);
        self.engine.on_command(EngineCommand::RefreshState, &ctx)
    }

    /// Handles a choice from the menu.
    pub fn on_menu_action(&mut self, action: MenuAction, host: &HostState) -> (plan: MenuPlan)
        requires
            old(self).wf(),
        ensures
            final(self).wf(),
            final(self)@ == old(self)@.menu(action, *host).0,
            plan@ == old(self)@.menu(action, *host).1,
    {
        match action {
            MenuAction::ToggleEngine => {
                let ctx = self.make_ctx(host);
                MenuPlan::Decided(self.engine.on_command(EngineCommand::ToggleEngine, &ctx))
            },
            MenuAction::ToggleLoginItem => MenuPlan::ToggleLoginItem,
        }
    }

    /// The event to post for a key that goes back to the OS.
    #[must_use]
    pub fn reinject_now(&self, vk: VkCode, event_type: KeyEventType) -> (post: KeyPost)
        ensures
            post == output::key_post(vk.0, event_type is KeyDown, false),
    {
        self.output.reinject(vk, event_type)
    }

    /// The events to post for actions that go out now.
    pub fn send_now(&mut self, actions: &Vec<KeyAction>) -> (posts: Vec<KeyPost>)
        requires
            old(self).wf(),
        ensures
            final(self).wf(),
            posts@ == old(self)@.output.actions_posted(actions@).posts,
            final(self)@ == (AppView {
                output: Output {
                    composing_hint: old(self)@.output.actions_posted(actions@).composing,
                    ..old(self)@.output
                },
                ..old(self)@
            }),
    {
        self.output.send_keys(actions)
    }

    /// Handles an event of the tap. Before it, the held keys and a failed switch are to be looked
    /// at.
    pub fn on_cg_event(&mut self, ev: &CgEvent, host: &HostState) -> (plan: EventPlan)
        requires
            old(self).wf(),
        ensures
            final(self).wf(),
            final(self)@ == old(self)@.event(*ev, *host).0,
            plan@ == old(self)@.event(*ev, *host).1,
    {
        if matches!(ev.kind, CgEventKind::MouseDown) {
            self.output.note_composition_break();
            self.discard_deferred();
            return EventPlan::Pass;
        }
        if ev.user_data == INJECT_MARKER {
            let expect = if matches!(ev.kind, CgEventKind::KeyDown) {
                Some(ev.keycode)
            } else {
                None
            };
            return EventPlan::Injected { expect };
        }
        match direction(ev) {
            None => EventPlan::Pass,
            Some(event_type) => {
                let (key_classification, physical_pos) = self.thumbs.classify_key(ev.keycode);
                let raw = RawKeyEvent {
                    vk_code: VkCode(ev.keycode),
                    scan_code: ScanCode(ev.keycode as u32),
                    event_type,
                    extra_info: 0,
                    timestamp: host.now / 1000,
                    key_classification,
                    physical_pos,
                    ime_relevance: ImeRelevance::default(),
                    modifier_key: hook::classify_modifier(ev.keycode),
                    modifier_snapshot: self.phys.modifiers,
                    injected: false,
                };
                self.phys.update(&raw);
                let ctx = self.make_ctx(host);
                if (matches!(event_type, KeyEventType::KeyDown) && is_composition_end(ev.keycode))
                    || !ctx.ime_on {
                    self.output.note_composition_break();
                }
                let decision = self.engine.on_input(raw, &ctx);
                EventPlan::Decided { decision, event_type }
            },
        }
    }

    /// Finishes a key event once the effects of its decision are carried out. A key code in the
    /// result is one that `expect_ime_from_key` is to be told.
    pub fn after_event(&mut self, keycode: u16, event_type: KeyEventType, action: TapAction) -> (expect:
        Option<u16>)
        requires
            old(self).wf(),
        ensures
            final(self).wf(),
            final(self)@ == old(self)@.settled(keycode, event_type, action).0,
            expect == old(self)@.settled(keycode, event_type, action).1,
    {
        let is_modifier_key = hook::classify_modifier(keycode).is_some();
        if passthrough_moves_focus(
            action,
            keycode,
            event_type,
            self.phys.modifiers,
            is_modifier_key,
        ) {
            self.discard_deferred();
        }
        if matches!(action, TapAction::Pass) && matches!(event_type, KeyEventType::KeyDown) {
            Some(keycode)
        } else {
            None
        }
    }

    /// Handles the expiry of a timer.
    pub fn on_timer_fired(&mut self, id: usize, host: &HostState) -> (plan: TimerPlan)
        requires
            old(self).wf(),
        ensures
            final(self).wf(),
            final(self)@ == old(self)@.timer(id, *host).0,
            plan@ == old(self)@.timer(id, *host).1,
    {
        if id == FLUSH_TIMER_ID {
            if self.ime.is_switch_pending(host.source_str(), host.now, host.settle) {
                return TimerPlan::Retry;
            }
            return TimerPlan::Flush;
        }
        let ctx = self.make_ctx(host);
        TimerPlan::Decided(self.engine.on_timeout(id, &ctx))
    }
}

fn push_expectations(keys: &Vec<KeyAction>, actions: &mut Vec<HostAction>)
    requires
        old(actions)@.len() == 0,
    ensures
        action_views(final(actions)@) == expectations(keys@),
{
    let mut i: usize = 0;
    assert(action_views(actions@) =~= expectations(keys@.subrange(0, 0)));
    while i < keys.len()
        invariant
            i <= keys@.len(),
            action_views(actions@) == expectations(keys@.subrange(0, i as int)),
        decreases keys@.len() - i,
    {
        assert(keys@.subrange(0, i + 1).drop_last() =~= keys@.subrange(0, i as int));
        if let KeyAction::Key(vk) = &keys[i] {
            push_action(actions, HostAction::ExpectFromKey(vk.0));
        }
        i += 1;
    }
    assert(keys@.subrange(0, i as int) =~= keys@);
}

/// What becomes of the event that a decision was made on.
#[must_use]
pub fn tap_action(decision: &Decision) -> (r: TapAction)
    ensures
        r == (if decision@.is_consumed() {
            TapAction::Consume
        } else {
            TapAction::Pass
        }),
{
    if decision.is_consumed() {
        TapAction::Consume
    } else {
        TapAction::Pass
    }
}

/// The effects of a decision, to be carried out in order.
#[must_use]
pub fn into_effects(decision: Decision) -> (effects: EffectVec)
    ensures
        decision::effect_views(effects@) == decision@.effects(),
{
    match decision {
        Decision::PassThrough => {
            let effects: EffectVec = Vec::new();
            assert(decision::effect_views(effects@) =~= Seq::empty());
            effects
        },
        Decision::PassThroughWith { effects } => effects,
        Decision::Consume { effects } => effects,
    }
}

} // verus!
