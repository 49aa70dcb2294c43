//! The engine: the state machine with the special keys and the activation around it.
//!
//! `on_input`, `on_timeout` and `on_command` are the entry points. The engine calls no OS
//! function; every effect is part of the decision that it returns. What it knows of the
//! environment is the `InputContext` of the call.
//!
//! The engine is active when the user has enabled it and the environment lets it work: a
//! Japanese IME that is on and takes romaji.

use vstd::prelude::*;

use crate::config::ParsedKeyCombo;
use crate::diagnostics;
use crate::engine::decision;
use crate::engine::decision::{
    ActivationState, Decision, DecisionView, Effect, EffectVec, EffectView, EngineCommand,
    ImeEffect, InactiveReason, InputContext, InputEffect, SetOpenOrigin, SpecialKeyCombos,
    UiEffect,
};
use crate::engine::fsm_adapter;
use crate::engine::fsm_adapter::FsmAdapter;
use crate::engine::fsm_types::{ComposingHint, ModeKeyConfig, TextKeyConfig};
use crate::engine::input_tracker::PhysicalKeyState;
use crate::engine::key_lifecycle::{KeyLifecycle, KeyUpDisposition, LifecycleView};
use crate::engine::nicola_fsm::NicolaFsm;
use crate::types::{
    ContextChange, KeyClassification, KeyEventType, ModifierState, RawKeyEvent, ShadowImeAction,
    VkCode,
};

verus! {

/// Which special combination a key event is.
#[derive(Debug, Clone, Copy, PartialEq, Eq, Structural)]
pub enum SpecialKeyMatch {
    EngineOn,
    EngineOff,
    ImeOn,
    ImeOff,
    ImeToggle,
}

/// The event is the combination: same key, same Ctrl, Shift and Alt. The OS key is not
/// looked at.
pub open spec fn combo_matches(
    combo: ParsedKeyCombo,
    event: RawKeyEvent,
    modifiers: ModifierState,
) -> bool {
    &&& event.vk_code == combo.vk
    &&& combo.ctrl == modifiers.ctrl
    &&& combo.shift == modifiers.shift
    &&& combo.alt == modifiers.alt
}

pub open spec fn any_matches(
    combos: Seq<ParsedKeyCombo>,
    event: RawKeyEvent,
    modifiers: ModifierState,
) -> bool {
    exists|i: int| 0 <= i < combos.len() && combo_matches(#[trigger] combos[i], event, modifiers)
}

#[must_use]
pub fn matches_key_combo(combo: ParsedKeyCombo, event: &RawKeyEvent, modifiers: ModifierState) -> (r:
    bool)
    ensures
        r == combo_matches(combo, *event, modifiers),
{
    event.vk_code == combo.vk && combo.ctrl == modifiers.ctrl && combo.shift == modifiers.shift
        && combo.alt == modifiers.alt
}

fn any_combo_matches(combos: &Vec<ParsedKeyCombo>, event: &RawKeyEvent, modifiers: ModifierState) -> (r:
    bool)
    ensures
        r == any_matches(combos@, *event, modifiers),
{
    let mut i: usize = 0;
    while i < combos.len()
        invariant
            i <= combos@.len(),
            forall|j: int| 0 <= j < i ==> !combo_matches(#[trigger] combos@[j], *event, modifiers),
        decreases combos@.len() - i,
    {
        if matches_key_combo(combos[i], event, modifiers) {
            return true;
        }
        i += 1;
    }
    false
}

impl SpecialKeyCombos {
    /// The first combination, in the order of the checks, that the event is.
    ///
    /// The engine-on keys count unless the engine is enabled and active already. The IME keys
    /// do not count where the platform layer already follows the key, nor where they are
    /// suppressed.
    pub open spec fn matched(
        self,
        event: RawKeyEvent,
        modifiers: ModifierState,
        engine_enabled: bool,
        engine_active: bool,
        suppress_ime_combos: bool,
    ) -> Option<SpecialKeyMatch> {
        let ime_keys = event.ime_relevance.sync_direction is None && !suppress_ime_combos;
        if (!engine_enabled || !engine_active) && any_matches(self.engine_on@, event, modifiers) {
            Some(SpecialKeyMatch::EngineOn)
        } else if engine_enabled && any_matches(self.engine_off@, event, modifiers) {
            Some(SpecialKeyMatch::EngineOff)
        } else if ime_keys && any_matches(self.ime_on@, event, modifiers) {
            Some(SpecialKeyMatch::ImeOn)
        } else if ime_keys && any_matches(self.ime_off@, event, modifiers) {
            Some(SpecialKeyMatch::ImeOff)
        } else if ime_keys && any_matches(self.ime_toggle@, event, modifiers) {
            Some(SpecialKeyMatch::ImeToggle)
        } else {
            None
        }
    }

    #[must_use]
    pub fn match_event(
        &self,
        event: &RawKeyEvent,
        modifiers: ModifierState,
        engine_enabled: bool,
        engine_active: bool,
        suppress_ime_combos: bool,
    ) -> (r: Option<SpecialKeyMatch>)
        ensures
            r == self.matched(
                *event,
                modifiers,
                engine_enabled,
                engine_active,
                suppress_ime_combos,
            ),
    {
        if (!engine_enabled || !engine_active) && any_combo_matches(
            &self.engine_on,
            event,
            modifiers,
        ) {
            return Some(SpecialKeyMatch::EngineOn);
        }
        if engine_enabled && any_combo_matches(&self.engine_off, event, modifiers) {
            return Some(SpecialKeyMatch::EngineOff);
        }
        if event.ime_relevance.sync_direction.is_none() && !suppress_ime_combos {
            if any_combo_matches(&self.ime_on, event, modifiers) {
                return Some(SpecialKeyMatch::ImeOn);
            }
            if any_combo_matches(&self.ime_off, event, modifiers) {
                return Some(SpecialKeyMatch::ImeOff);
            }
            if any_combo_matches(&self.ime_toggle, event, modifiers) {
                return Some(SpecialKeyMatch::ImeToggle);
            }
        }
        None
    }
}

/// The effect that asks for the IME to be opened or closed.
pub open spec fn set_open(open: bool, origin: SetOpenOrigin) -> EffectView {
    EffectView::Ime(ImeEffect::SetOpen { open, origin })
}

pub open spec fn state_changed(enabled: bool, send_ime_key: bool) -> EffectView {
    EffectView::Ui(UiEffect::EngineStateChanged { enabled, send_ime_key })
}

/// A physical press of a thumb key without any modifier.
pub open spec fn bare_thumb(event: RawKeyEvent, m: ModifierState) -> bool {
    &&& !event.injected
    &&& event.key_classification is LeftThumb || event.key_classification is RightThumb
    &&& !m.os_modifier_held()
    &&& !m.shift
}

/// The engine with its collections as sequences.
pub ghost struct EngineView {
    pub fsm: NicolaFsm,
    pub special_keys: SpecialKeyCombos,
    pub ime_toggle_auto: Seq<ParsedKeyCombo>,
    pub ime_on_auto: Seq<ParsedKeyCombo>,
    pub ime_off_auto: Seq<ParsedKeyCombo>,
    pub lifecycle: LifecycleView,
    /// Activation as of the last change between active and inactive.
    pub prev: ActivationState,
    pub solo_off_notify: bool,
}

impl EngineView {
    /// An engine that has seen no event yet.
    pub open spec fn fresh(fsm: NicolaFsm, special_keys: SpecialKeyCombos) -> EngineView {
        EngineView {
            fsm,
            special_keys,
            ime_toggle_auto: Seq::empty(),
            ime_on_auto: Seq::empty(),
            ime_off_auto: Seq::empty(),
            lifecycle: LifecycleView::nothing(),
            prev: ActivationState::Inactive(InactiveReason::UserDisabled),
            solo_off_notify: false,
        }
    }

    // ---- Activation ----

    /// The first condition that fails, in this order, makes the engine inactive.
    pub open spec fn state(self, ctx: InputContext) -> ActivationState {
        if !self.fsm.enabled {
            ActivationState::Inactive(InactiveReason::UserDisabled)
        } else if !ctx.is_japanese_ime {
            ActivationState::Inactive(InactiveReason::NotJapaneseIme)
        } else if !ctx.ime_on {
            ActivationState::Inactive(InactiveReason::ImeOff)
        } else if !ctx.input_mode.romaji_capable() {
            ActivationState::Inactive(InactiveReason::NotRomajiInput)
        } else {
            ActivationState::Active
        }
    }

    pub open spec fn active(self, ctx: InputContext) -> bool {
        self.state(ctx) is Active
    }

    /// Goes over to `new_state`. A change between active and inactive is announced, and the
    /// IME follows it, except where the user has chosen a mode without romaji: that mode is
    /// left alone.
    pub open spec fn transition(self, new_state: ActivationState, origin: SetOpenOrigin) -> (
        EngineView,
        Seq<EffectView>,
    ) {
        let now_active = new_state is Active;
        if self.prev is Active == now_active {
            (self, Seq::empty())
        } else if new_state == ActivationState::Inactive(InactiveReason::NotRomajiInput) {
            (EngineView { prev: new_state, ..self }, seq![state_changed(false, false)])
        } else {
            (
                EngineView { prev: new_state, ..self },
                seq![set_open(now_active, origin), state_changed(now_active, true)],
            )
        }
    }

    /// Follows the environment. On the way to inactive the pending keys are flushed and no
    /// key-up is owed any more.
    pub open spec fn refreshed(self, ctx: InputContext) -> (EngineView, Seq<EffectView>) {
        let new_state = self.state(ctx);
        if self.prev is Active && !(new_state is Active) {
            let flush = self.fsm.flush_step(ComposingHint::Unknown);
            let (v, effects) = (EngineView {
                fsm: flush.fsm,
                lifecycle: self.lifecycle.flushed(),
                ..self
            }).transition(new_state, SetOpenOrigin::ActivationSync);
            (v, fsm_adapter::response_effects(flush.response()) + effects)
        } else {
            self.transition(new_state, SetOpenOrigin::ActivationSync)
        }
    }

    /// The user wants the IME open or closed. The activation moves with it at once, so that
    /// the next refresh does not announce the change again.
    pub open spec fn with_open(self, ctx: InputContext, open: bool) -> (
        EngineView,
        Seq<EffectView>,
    ) {
        let new_state = self.state(InputContext { ime_on: open, ..ctx });
        let (v, effects) = self.transition(new_state, SetOpenOrigin::ExplicitUserAction);
        if self.prev is Active == new_state is Active {
            (v, effects.push(set_open(open, SetOpenOrigin::ExplicitUserAction)))
        } else {
            (v, effects)
        }
    }

    /// The user switched the engine, which took it from `old_active` to `new_active`.
    pub open spec fn after_switch(self, old_active: bool, new_active: bool) -> (
        EngineView,
        Seq<EffectView>,
    ) {
        if old_active == new_active {
            (self, Seq::empty())
        } else {
            (EngineView { prev: user_state(old_active), ..self }).transition(
                user_state(new_active),
                SetOpenOrigin::ExplicitUserAction,
            )
        }
    }

    /// The user wants the engine on but the environment keeps it inactive: the IME is to be
    /// opened in any case.
    pub open spec fn recovering(self, ctx: InputContext) -> (EngineView, Seq<EffectView>) {
        let target = self.state(InputContext { ime_on: true, ..ctx });
        let (v, effects) = self.transition(target, SetOpenOrigin::ExplicitUserAction);
        if effects.len() == 0 {
            (v, seq![set_open(true, SetOpenOrigin::ExplicitUserAction)])
        } else {
            (v, effects)
        }
    }

    pub open spec fn forced_on(self, ctx: InputContext) -> (EngineView, DecisionView) {
        let step = self.fsm.set_enabled_step(true);
        let on = EngineView { fsm: step.fsm, ..self };
        let (v, effects) = if on.active(ctx) {
            on.after_switch(self.active(ctx), true)
        } else {
            on.recovering(ctx)
        };
        (v, fsm_adapter::response_decision(step.response()).and_effects(effects))
    }

    pub open spec fn switched_off(self, ctx: InputContext) -> (EngineView, DecisionView) {
        let step = self.fsm.set_enabled_step(false);
        let off = EngineView { fsm: step.fsm, ..self };
        let (v, effects) = off.after_switch(self.active(ctx), off.active(ctx));
        (v, fsm_adapter::response_decision(step.response()).and_effects(effects))
    }

    // ---- Special keys ----

    /// A bare thumb key is left to the state machine while the engine is active.
    pub open spec fn suppresses_ime_combos(self, ctx: InputContext, event: RawKeyEvent) -> bool {
        self.active(ctx) && bare_thumb(event, ctx.modifiers)
    }

    /// The automatically detected keys count beside the configured ones, but never for an
    /// injected event or a key that the platform layer already follows.
    pub open spec fn auto_match(self, ctx: InputContext, event: RawKeyEvent) -> Option<
        SpecialKeyMatch,
    > {
        if event.injected || event.ime_relevance.sync_direction is Some {
            None
        } else if any_matches(self.ime_on_auto, event, ctx.modifiers) {
            Some(SpecialKeyMatch::ImeOn)
        } else if any_matches(self.ime_off_auto, event, ctx.modifiers) {
            Some(SpecialKeyMatch::ImeOff)
        } else if any_matches(self.ime_toggle_auto, event, ctx.modifiers) {
            Some(SpecialKeyMatch::ImeToggle)
        } else {
            None
        }
    }

    pub open spec fn special_match(self, ctx: InputContext, event: RawKeyEvent) -> Option<
        SpecialKeyMatch,
    > {
        let suppress = self.suppresses_ime_combos(ctx, event);
        match self.special_keys.matched(
            event,
            ctx.modifiers,
            self.fsm.enabled,
            self.active(ctx),
            suppress,
        ) {
            Some(m) => Some(m),
            None => if suppress {
                None
            } else {
                self.auto_match(ctx, event)
            },
        }
    }

    pub open spec fn apply(self, m: SpecialKeyMatch, ctx: InputContext) -> (
        EngineView,
        DecisionView,
    ) {
        match m {
            SpecialKeyMatch::EngineOn => self.forced_on(ctx),
            SpecialKeyMatch::EngineOff => self.switched_off(ctx),
            SpecialKeyMatch::ImeOn => self.open_decision(ctx, true),
            SpecialKeyMatch::ImeOff => self.open_decision(ctx, false),
            SpecialKeyMatch::ImeToggle => self.open_decision(ctx, !ctx.ime_on),
        }
    }

    pub open spec fn open_decision(self, ctx: InputContext, open: bool) -> (
        EngineView,
        DecisionView,
    ) {
        let (v, effects) = self.with_open(ctx, open);
        (v, DecisionView::Consume(effects))
    }

    // ---- Requests of the state machine ----

    /// A request to open or close the IME is carried out with the decision `d`.
    pub open spec fn open_request(self, ctx: InputContext, d: DecisionView) -> (
        EngineView,
        DecisionView,
    ) {
        match self.fsm.ime_open_requested {
            None => (self, d),
            Some(action) => {
                let (v, effects) = self.without_open_request().with_open(
                    ctx,
                    action.target_spec(ctx.ime_on),
                );
                (v, d.and_effects(effects))
            },
        }
    }

    pub open spec fn without_open_request(self) -> EngineView {
        EngineView { fsm: NicolaFsm { ime_open_requested: None, ..self.fsm }, ..self }
    }

    /// A request to switch the engine off replaces the decision `d`; otherwise a request of
    /// the IME goes with it.
    pub open spec fn requests(self, ctx: InputContext, d: DecisionView) -> (
        EngineView,
        DecisionView,
    ) {
        if self.fsm.engine_off_requested {
            (EngineView {
                fsm: NicolaFsm { engine_off_requested: false, ..self.fsm },
                solo_off_notify: true,
                ..self
            }).apply(SpecialKeyMatch::EngineOff, ctx)
        } else {
            self.open_request(ctx, d)
        }
    }

    /// The notification of an emergency stop has been handed out.
    pub open spec fn notification_taken(self) -> EngineView {
        EngineView { solo_off_notify: false, ..self }
    }

    // ---- Entry points ----

    /// A key event that reaches the state machine, after the effects `first`.
    pub open spec fn machine_input(
        self,
        event: RawKeyEvent,
        ctx: InputContext,
        first: Seq<EffectView>,
    ) -> (EngineView, DecisionView) {
        let step = self.fsm.event_step(event, PhysicalKeyState::of_context(ctx));
        let (v, d) = (EngineView { fsm: step.fsm, ..self }).requests(
            ctx,
            fsm_adapter::response_decision(step.response()).after_effects(first),
        );
        if event.event_type is KeyDown && d.is_consumed() {
            (EngineView { lifecycle: v.lifecycle.key_down_consumed(event), ..v }, d)
        } else {
            (v, d)
        }
    }

    pub open spec fn key_down_input(self, event: RawKeyEvent, ctx: InputContext) -> (
        EngineView,
        DecisionView,
    ) {
        if self.lifecycle.is_passed(event.vk_code) {
            let (v, effects) = self.refreshed(ctx);
            (v, DecisionView::passed(effects))
        } else {
            match self.special_match(ctx, event) {
                Some(m) => {
                    let (v, d) = self.apply(m, ctx);
                    if d.is_consumed() {
                        (EngineView { lifecycle: v.lifecycle.key_down_consumed(event), ..v }, d)
                    } else {
                        (v, d)
                    }
                },
                None => self.plain_input(event, ctx),
            }
        }
    }

    /// An event that is no special key.
    pub open spec fn plain_input(self, event: RawKeyEvent, ctx: InputContext) -> (
        EngineView,
        DecisionView,
    ) {
        let (v, effects) = self.refreshed(ctx);
        if v.active(ctx) {
            v.machine_input(event, ctx, effects)
        } else if event.event_type is KeyDown {
            (
                EngineView { lifecycle: v.lifecycle.key_down_passed(event.vk_code), ..v },
                DecisionView::passed(effects),
            )
        } else {
            (v, DecisionView::passed(effects))
        }
    }

    pub open spec fn input(self, event: RawKeyEvent, ctx: InputContext) -> (
        EngineView,
        DecisionView,
    ) {
        if event.event_type is KeyDown {
            self.key_down_input(event, ctx)
        } else {
            let released = EngineView { lifecycle: self.lifecycle.key_up(event.vk_code), ..self };
            match self.lifecycle.key_up_disposition(event.vk_code) {
                KeyUpDisposition::Consume => (released, DecisionView::Consume(Seq::empty())),
                KeyUpDisposition::PassThrough => (released, DecisionView::PassThrough),
                KeyUpDisposition::Unknown => released.plain_input(event, ctx),
            }
        }
    }

    pub open spec fn timeout(self, timer_id: usize, ctx: InputContext) -> (
        EngineView,
        DecisionView,
    ) {
        if self.active(ctx) {
            let step = self.fsm.timeout_step(
                timer_id,
                PhysicalKeyState::of_context(ctx),
                ctx.composing,
            );
            (EngineView { fsm: step.fsm, ..self }).requests(
                ctx,
                fsm_adapter::response_decision(step.response()),
            )
        } else {
            self.flushed()
        }
    }

    pub open spec fn flushed(self) -> (EngineView, DecisionView) {
        let step = self.fsm.flush_step(ComposingHint::Unknown);
        (
            EngineView { fsm: step.fsm, ..self },
            fsm_adapter::response_decision(step.response()),
        )
    }

    /// The user switched the engine by a command.
    pub open spec fn toggled(self, ctx: InputContext) -> (EngineView, DecisionView) {
        let step = self.fsm.set_enabled_step(!self.fsm.enabled);
        let switched = EngineView { fsm: step.fsm, ..self };
        let (v, effects) = if step.fsm.enabled && !switched.active(ctx) {
            switched.recovering(ctx)
        } else {
            switched.after_switch(self.active(ctx), switched.active(ctx))
        };
        (
            v.without_open_request(),
            fsm_adapter::response_decision(step.response()).and_effects(effects),
        )
    }

    /// The focus moved to another application: what is pending is flushed and the key-ups
    /// that are owed are sent before the environment is looked at.
    pub open spec fn focus_changed(self, ctx: InputContext) -> (EngineView, DecisionView) {
        let flush = self.fsm.flush_step(ComposingHint::Unknown);
        let (v, effects) = (EngineView {
            fsm: flush.fsm,
            lifecycle: self.lifecycle.flushed(),
            ..self
        }).refreshed(ctx);
        (
            v,
            DecisionView::PassThroughWith(
                fsm_adapter::response_effects(flush.response()) + reinjections(
                    self.lifecycle.owed_key_ups(),
                ) + effects,
            ),
        )
    }

    pub open spec fn command(self, cmd: EngineCommand, ctx: InputContext) -> (
        EngineView,
        DecisionView,
    ) {
        match cmd {
            EngineCommand::ToggleEngine => self.toggled(ctx),
            EngineCommand::InvalidateContext(_) => self.flushed(),
            EngineCommand::SwapLayout(layout) => {
                let step = self.fsm.swap_layout_step(layout);
                (
                    (EngineView { fsm: step.fsm, ..self }).without_open_request(),
                    fsm_adapter::response_decision(step.response()),
                )
            },
            EngineCommand::ReloadKeys { special } => (
                EngineView { special_keys: special, ..self },
                DecisionView::PassThrough,
            ),
            EngineCommand::UpdateFsmParams { threshold_ms, confirm_mode, speculative_delay_ms } => (
                EngineView {
                    fsm: NicolaFsm {
                        threshold_us: (threshold_ms * 1000) as u64,
                        confirm_mode,
                        speculative_delay_us: (speculative_delay_ms * 1000) as u64,
                        ..self.fsm
                    },
                    ..self
                },
                DecisionView::PassThrough,
            ),
            EngineCommand::SetNgramModel(model) => (
                EngineView {
                    fsm: NicolaFsm { ngram_model: Some(model), ..self.fsm },
                    ..self
                },
                DecisionView::PassThrough,
            ),
            EngineCommand::RefreshState => {
                let (v, effects) = self.refreshed(ctx);
                (v, DecisionView::passed(effects))
            },
            EngineCommand::FocusChanged => self.focus_changed(ctx),
            EngineCommand::ForceEngineOn => self.forced_on(ctx),
        }
    }
}

/// Activation as far as the user's switch alone decides it.
pub open spec fn user_state(active: bool) -> ActivationState {
    if active {
        ActivationState::Active
    } else {
        ActivationState::Inactive(InactiveReason::UserDisabled)
    }
}

pub open spec fn reinjections(events: Seq<RawKeyEvent>) -> Seq<EffectView> {
    events.map_values(|e: RawKeyEvent| EffectView::ReinjectKey(e))
}

fn user_activation(active: bool) -> (r: ActivationState)
    ensures
        r == user_state(active),
{
    if active {
        ActivationState::Active
    } else {
        ActivationState::Inactive(InactiveReason::UserDisabled)
    }
}

/// The engine.
#[derive(Debug)]
pub struct Engine {
    adapter: FsmAdapter,
    special_keys: SpecialKeyCombos,
    /// Detected keys that toggle the IME, beside the configured ones.
    ime_toggle_auto: Vec<ParsedKeyCombo>,
    /// Detected keys that open the IME.
    ime_on_auto: Vec<ParsedKeyCombo>,
    /// Detected keys that close the IME.
    ime_off_auto: Vec<ParsedKeyCombo>,
    lifecycle: KeyLifecycle,
    /// Activation as of the last change between active and inactive.
    prev_activation: ActivationState,
    /// Repeated taps have switched the engine off, and nobody was told yet.
    solo_off_notify: bool,
}

impl View for Engine {
    type V = EngineView;

    closed spec fn view(&self) -> EngineView {
        EngineView {
            fsm: self.adapter@,
            special_keys: self.special_keys,
            ime_toggle_auto: self.ime_toggle_auto@,
            ime_on_auto: self.ime_on_auto@,
            ime_off_auto: self.ime_off_auto@,
            lifecycle: self.lifecycle@,
            prev: self.prev_activation,
            solo_off_notify: self.solo_off_notify,
        }
    }
}

impl Engine {
    /// No key is tracked twice.
    pub closed spec fn wf(&self) -> bool {
        self.lifecycle.wf()
    }

    /// What well-formedness says of the tracked keys.
    pub proof fn lemma_wf(&self)
        requires
            self.wf(),
        ensures
            self@.lifecycle.wf(),
    {
        self.lifecycle.lemma_wf();
    }

    #[must_use]
    pub fn new(fsm: NicolaFsm, special_keys: SpecialKeyCombos) -> (r: Self)
        ensures
            r.wf(),
            r@ == EngineView::fresh(fsm, special_keys),
    {
        Engine {
            adapter: FsmAdapter::new(fsm),
            special_keys,
            ime_toggle_auto: Vec::new(),
            ime_on_auto: Vec::new(),
            ime_off_auto: Vec::new(),
            lifecycle: KeyLifecycle::new(),
            prev_activation: ActivationState::Inactive(InactiveReason::UserDisabled),
            solo_off_notify: false,
        }
    }

    // ---- Settings ----

    /// Replaces the detected keys that toggle the IME.
    pub fn set_ime_toggle_auto_keys(&mut self, keys: Vec<ParsedKeyCombo>)
        requires
            old(self).wf(),
        ensures
            final(self).wf(),
            final(self)@ == (EngineView { ime_toggle_auto: keys@, ..old(self)@ }),
    {
        self.ime_toggle_auto = keys;
    }

    /// Replaces the detected keys that open the IME.
    pub fn set_ime_on_auto_keys(&mut self, keys: Vec<ParsedKeyCombo>)
        requires
            old(self).wf(),
        ensures
            final(self).wf(),
            final(self)@ == (EngineView { ime_on_auto: keys@, ..old(self)@ }),
    {
        self.ime_on_auto = keys;
    }

    /// Replaces the detected keys that close the IME.
    pub fn set_ime_off_auto_keys(&mut self, keys: Vec<ParsedKeyCombo>)
        requires
            old(self).wf(),
        ensures
            final(self).wf(),
            final(self)@ == (EngineView { ime_off_auto: keys@, ..old(self)@ }),
    {
        self.ime_off_auto = keys;
    }

    /// Sets the key whose repeated taps switch the engine off. `VkCode(0)` is no key.
    pub fn set_engine_off_solo_repeat_vk(&mut self, vk: VkCode)
        requires
            old(self).wf(),
        ensures
            final(self).wf(),
            final(self)@ == (EngineView {
                fsm: NicolaFsm { engine_off_solo_repeat_vk: vk, ..old(self)@.fsm },
                ..old(self)@
            }),
    {
        self.adapter.set_engine_off_solo_repeat_vk(vk);
    }

    /// Sets how a thumb key on the space bar behaves when tapped alone.
    pub fn set_space_thumb_config(&mut self, space_thumb_vk: Option<VkCode>, config: TextKeyConfig)
        requires
            old(self).wf(),
        ensures
            final(self).wf(),
            final(self)@ == (EngineView {
                fsm: NicolaFsm { space_thumb_vk, space_thumb: config, ..old(self)@.fsm },
                ..old(self)@
            }),
    {
        self.adapter.set_space_thumb_config(space_thumb_vk, config);
    }

    /// Sets what a tap of the muhenkan and henkan keys alone does.
    pub fn set_thumb_key_solo_tap_config(
        &mut self,
        muhenkan_vk: Option<VkCode>,
        muhenkan: ModeKeyConfig,
        henkan_vk: Option<VkCode>,
        henkan: ModeKeyConfig,
    )
        requires
            old(self).wf(),
        ensures
            final(self).wf(),
            final(self)@ == (EngineView {
                fsm: NicolaFsm { muhenkan_vk, muhenkan, henkan_vk, henkan, ..old(self)@.fsm },
                ..old(self)@
            }),
    {
        self.adapter.set_thumb_key_solo_tap_config(muhenkan_vk, muhenkan, henkan_vk, henkan);
    }

    /// Sets the function key that a tap of the muhenkan key alone is turned into.
    pub fn set_muhenkan_solo_tap_dedicated_fn_key(&mut self, vk: Option<VkCode>)
        requires
            old(self).wf(),
        ensures
            final(self).wf(),
            final(self)@ == (EngineView {
                fsm: NicolaFsm { muhenkan_dedicated_fn_key: vk, ..old(self)@.fsm },
                ..old(self)@
            }),
    {
        self.adapter.set_muhenkan_solo_tap_dedicated_fn_key(vk);
    }

    /// Sets what a tap of the muhenkan key alone asks of the IME.
    pub fn set_muhenkan_delegate_to_open_axis(&mut self, action: Option<ShadowImeAction>)
        requires
            old(self).wf(),
        ensures
            final(self).wf(),
            final(self)@ == (EngineView {
                fsm: NicolaFsm { muhenkan_delegate: action, ..old(self)@.fsm },
                ..old(self)@
            }),
    {
        self.adapter.set_muhenkan_delegate_to_open_axis(action);
    }

    /// Sets what a tap of the henkan key alone asks of the IME.
    pub fn set_henkan_delegate_to_open_axis(&mut self, action: Option<ShadowImeAction>)
        requires
            old(self).wf(),
        ensures
            final(self).wf(),
            final(self)@ == (EngineView {
                fsm: NicolaFsm { henkan_delegate: action, ..old(self)@.fsm },
                ..old(self)@
            }),
    {
        self.adapter.set_henkan_delegate_to_open_axis(action);
    }

    /// Sets how a thumb key on the enter key behaves when tapped alone.
    pub fn set_enter_thumb_config(&mut self, enter_thumb_vk: Option<VkCode>, config: TextKeyConfig)
        requires
            old(self).wf(),
        ensures
            final(self).wf(),
            final(self)@ == (EngineView {
                fsm: NicolaFsm { enter_thumb_vk, enter_thumb: config, ..old(self)@.fsm },
                ..old(self)@
            }),
    {
        self.adapter.set_enter_thumb_config(enter_thumb_vk, config);
    }

    /// Puts the faces of a thumb key together with the little-finger shift in use.
    pub fn set_thumb_shift_faces_enabled(&mut self, enabled: bool)
        requires
            old(self).wf(),
        ensures
            final(self).wf(),
            final(self)@ == (EngineView {
                fsm: NicolaFsm { thumb_shift_faces_enabled: enabled, ..old(self)@.fsm },
                ..old(self)@
            }),
    {
        self.adapter.set_thumb_shift_faces_enabled(enabled);
    }

    /// Sets whether the thumb keys are the very keys that switch the IME.
    pub fn set_thumb_keys_are_ime_switch(&mut self, yes: bool)
        requires
            old(self).wf(),
        ensures
            final(self).wf(),
            final(self)@ == (EngineView {
                fsm: NicolaFsm { thumb_keys_are_ime_switch: yes, ..old(self)@.fsm },
                ..old(self)@
            }),
    {
        self.adapter.set_thumb_keys_are_ime_switch(yes);
    }

    // ---- Activation ----

    /// Whether the engine is active in this environment, and if not, why.
    #[must_use]
    pub fn compute_state(&self, ctx: &InputContext) -> (r: ActivationState)
        ensures
            r == self@.state(*ctx),
    {
        if !self.adapter.is_enabled() {
            return ActivationState::Inactive(InactiveReason::UserDisabled);
        }
        if !ctx.is_japanese_ime {
            return ActivationState::Inactive(InactiveReason::NotJapaneseIme);
        }
        if !ctx.ime_on {
            return ActivationState::Inactive(InactiveReason::ImeOff);
        }
        if !ctx.input_mode.is_romaji_capable() {
            return ActivationState::Inactive(InactiveReason::NotRomajiInput);
        }
        ActivationState::Active
    }

    #[must_use]
    pub fn compute_active(&self, ctx: &InputContext) -> (r: bool)
        ensures
            r == self@.active(*ctx),
    {
        self.compute_state(ctx).is_active()
    }

    /// Follows the environment and returns the effects of a change.
    pub fn check_active_transition(&mut self, ctx: &InputContext) -> (effects: EffectVec)
        requires
            old(self).wf(),
        ensures
            final(self).wf(),
            final(self)@ == old(self)@.refreshed(*ctx).0,
            decision::effect_views(effects@) == old(self)@.refreshed(*ctx).1,
    {
        let new_state = self.compute_state(ctx);
        let was_active = self.prev_activation.is_active();
        let now_active = new_state.is_active();
        if was_active && !now_active {
            let mut effects = self.adapter.flush_to_effects(
                new_state.to_context_change(),
                ComposingHint::Unknown,
            );
            let _ = self.lifecycle.flush_pending_key_ups();
            let more = self.transition_activation(new_state, SetOpenOrigin::ActivationSync);
            decision::extend_effects(&mut effects, more);
            effects
        } else {
            self.transition_activation(new_state, SetOpenOrigin::ActivationSync)
        }
    }

    /// Goes over to `new_state` and returns the effects of a change between active and inactive.
    pub fn transition_activation(&mut self, new_state: ActivationState, origin: SetOpenOrigin) -> (effects:
        EffectVec)
        requires
            old(self).wf(),
        ensures
            final(self).wf(),
            final(self)@ == old(self)@.transition(new_state, origin).0,
            decision::effect_views(effects@) == old(self)@.transition(new_state, origin).1,
    {
        let was_active = self.prev_activation.is_active();
        let now_active = new_state.is_active();
        let mut effects: EffectVec = Vec::new();
        assert(decision::effect_views(effects@) =~= Seq::empty());
        if was_active != now_active {
            let suppress_set_open = matches!(
                new_state,
                ActivationState::Inactive(InactiveReason::NotRomajiInput)
            );
            if !suppress_set_open {
                decision::push_effect_to(
                    &mut effects,
                    Effect::Ime(ImeEffect::SetOpen { open: now_active, origin }),
                );
            }
            decision::push_effect_to(
                &mut effects,
                Effect::Ui(
                    UiEffect::EngineStateChanged {
                        enabled: now_active,
                        send_ime_key: !suppress_set_open,
                    },
                ),
            );
            self.prev_activation = new_state;
            assert(decision::effect_views(effects@) =~= old(self)@.transition(
                new_state,
                origin,
            ).1);
        }
        effects
    }

    // ---- Entry points ----

    /// Handles a key event.
    pub fn on_input(&mut self, event: RawKeyEvent, ctx: &InputContext) -> (d: Decision)
        requires
            old(self).wf(),
        ensures
            final(self).wf(),
            final(self)@ == old(self)@.input(event, *ctx).0,
            d@ == old(self)@.input(event, *ctx).1,
    {
        let is_key_down = matches!(event.event_type, KeyEventType::KeyDown);
        if !is_key_down {
            match self.lifecycle.on_key_up(event.vk_code) {
                KeyUpDisposition::Consume => {
                    return Decision::consumed();
                },
                KeyUpDisposition::PassThrough => {
                    return Decision::pass_through();
                },
                KeyUpDisposition::Unknown => {},
            }
        }
        // The treatment of a physical press does not change half-way: repeats of a key that
        // went through keep going through. The environment is still followed.
        if is_key_down && self.lifecycle.is_passed_while_inactive(event.vk_code) {
            let effects = self.check_active_transition(ctx);
            return Decision::passed(effects);
        }
        if is_key_down {
            if let Some(decision) = self.check_special_keys(ctx, &event) {
                if decision.is_consumed() {
                    self.lifecycle.on_key_down_consumed(&event);
                }
                return decision;
            }
        }
        let transition_effects = self.check_active_transition(ctx);
        if !self.compute_active(ctx) {
            if is_key_down {
                self.lifecycle.on_key_down_passed_while_inactive(event.vk_code);
            }
            return Decision::passed(transition_effects);
        }
        let phys = PhysicalKeyState::from_ctx(ctx);
        let mut decision = self.adapter.on_event(event, &phys);
        decision.prepend_effects(transition_effects);
        let decision = self.carry_out_requests(ctx, decision);
        if is_key_down && decision.is_consumed() {
            self.lifecycle.on_key_down_consumed(&event);
        }
        decision
    }

    /// Handles the expiry of a timer. Without an active engine the context is lost, and what
    /// is pending is flushed.
    pub fn on_timeout(&mut self, timer_id: usize, ctx: &InputContext) -> (d: Decision)
        requires
            old(self).wf(),
        ensures
            final(self).wf(),
            final(self)@ == old(self)@.timeout(timer_id, *ctx).0,
            d@ == old(self)@.timeout(timer_id, *ctx).1,
    {
        let phys = PhysicalKeyState::from_ctx(ctx);
        if !self.compute_active(ctx) {
            return self.adapter.flush(ContextChange::ImeOff, ComposingHint::Unknown);
        }
        let decision = self.adapter.on_timeout(timer_id, &phys, ctx.composing);
        self.carry_out_requests(ctx, decision)
    }

    /// Carries out what the state machine requested.
    fn carry_out_requests(&mut self, ctx: &InputContext, decision: Decision) -> (d: Decision)
        requires
            old(self).wf(),
        ensures
            final(self).wf(),
            final(self)@ == old(self)@.requests(*ctx, decision@).0,
            d@ == old(self)@.requests(*ctx, decision@).1,
    {
        if self.adapter.take_engine_off_requested() {
            self.solo_off_notify = true;
            return self.apply_special_key_match(&SpecialKeyMatch::EngineOff, ctx);
        }
        self.apply_ime_open_request(decision, ctx)
    }

    /// Adds the effects of a request to open or close the IME to the decision.
    fn apply_ime_open_request(&mut self, decision: Decision, ctx: &InputContext) -> (d: Decision)
        requires
            old(self).wf(),
        ensures
            final(self).wf(),
            final(self)@ == old(self)@.open_request(*ctx, decision@).0,
            d@ == old(self)@.open_request(*ctx, decision@).1,
    {
        match self.adapter.take_ime_open_requested() {
            None => decision,
            Some(action) => {
                let effects = self.ime_set_open_effects(ctx, action.target(ctx.ime_on));
                decision.with_effects(effects)
            },
        }
    }

    /// Drops a request to open or close the IME. A flush by a command may resolve a pending
    /// thumb key that the user did not tap; the request must not surface at a later key.
    fn discard_ime_open_request(&mut self)
        requires
            old(self).wf(),
        ensures
            final(self).wf(),
            final(self)@ == old(self)@.without_open_request(),
    {
        let _ = self.adapter.take_ime_open_requested();
    }

    /// Repeated taps have switched the engine off since the last call.
    pub fn take_solo_off_notification(&mut self) -> (r: bool)
        requires
            old(self).wf(),
        ensures
            final(self).wf(),
            r == old(self)@.solo_off_notify,
            final(self)@ == old(self)@.notification_taken(),
    {
        let r = self.solo_off_notify;
        self.solo_off_notify = false;
        r
    }

    /// Handles a command.
    pub fn on_command(&mut self, cmd: EngineCommand, ctx: &InputContext) -> (d: Decision)
        requires
            old(self).wf(),
        ensures
            final(self).wf(),
            final(self)@ == old(self)@.command(cmd, *ctx).0,
            d@ == old(self)@.command(cmd, *ctx).1,
    {
        match cmd {
            EngineCommand::ToggleEngine => {
                let old_active = self.compute_active(ctx);
                let (user_enabled, decision) = self.adapter.toggle_enabled();
                let new_active = self.compute_active(ctx);
                let effects = if user_enabled && !new_active {
                    self.apply_engine_on_with_ime_recovery(ctx)
                } else {
                    self.apply_active_transition(old_active, new_active)
                };
                self.discard_ime_open_request();
                decision.with_effects(effects)
            },
            EngineCommand::InvalidateContext(reason) => {
                self.adapter.flush(reason, ComposingHint::Unknown)
            },
            EngineCommand::SwapLayout(layout) => {
                let decision = self.adapter.swap_layout(layout);
                self.discard_ime_open_request();
                decision
            },
            EngineCommand::ReloadKeys { special } => {
                self.special_keys = special;
                Decision::pass_through()
            },
            EngineCommand::UpdateFsmParams { threshold_ms, confirm_mode, speculative_delay_ms } => {
                self.adapter.set_threshold_ms(threshold_ms);
                self.adapter.set_confirm_mode(confirm_mode, speculative_delay_ms);
                Decision::pass_through()
            },
            EngineCommand::SetNgramModel(model) => {
                self.adapter.set_ngram_model(model);
                Decision::pass_through()
            },
            EngineCommand::RefreshState => {
                let effects = self.check_active_transition(ctx);
                Decision::passed(effects)
            },
            EngineCommand::FocusChanged => self.handle_focus_changed(ctx),
            EngineCommand::ForceEngineOn => self.force_enable_and_activate(ctx),
        }
    }

    fn handle_focus_changed(&mut self, ctx: &InputContext) -> (d: Decision)
        requires
            old(self).wf(),
        ensures
            final(self).wf(),
            final(self)@ == old(self)@.focus_changed(*ctx).0,
            d@ == old(self)@.focus_changed(*ctx).1,
    {
        let mut effects = self.adapter.flush_to_effects(
            ContextChange::FocusChanged,
            ComposingHint::Unknown,
        );
        let ups = self.lifecycle.flush_pending_key_ups();
        let ghost flush_effects = decision::effect_views(effects@);
        let mut i: usize = 0;
        while i < ups.len()
            invariant
                i <= ups@.len(),
                decision::effect_views(effects@) == flush_effects + reinjections(
                    ups@.subrange(0, i as int),
                ),
            decreases ups@.len() - i,
        {
            decision::push_effect_to(&mut effects, Effect::Input(InputEffect::ReinjectKey(ups[i])));
            assert(reinjections(ups@.subrange(0, i + 1)) =~= reinjections(
                ups@.subrange(0, i as int),
            ).push(EffectView::ReinjectKey(ups@[i as int])));
            assert(decision::effect_views(effects@) =~= flush_effects + reinjections(
                ups@.subrange(0, i + 1),
            ));
            i += 1;
        }
        assert(ups@.subrange(0, i as int) =~= ups@);
        let transition_effects = self.check_active_transition(ctx);
        decision::extend_effects(&mut effects, transition_effects);
        Decision::pass_through_with(effects)
    }

    /// The user has enabled the engine.
    #[must_use]
    pub fn is_user_enabled(&self) -> (r: bool)
        ensures
            r == self@.fsm.enabled,
    {
        self.adapter.is_enabled()
    }

    /// Label of the state machine's state. Key codes appear only where `key_content`, the
    /// value of [`diagnostics::KEY_CONTENT_ENV`], opts in.
    #[must_use]
    pub fn debug_state_label(&self, key_content: Option<&str>) -> (r: String)
        ensures
            r@ == self@.fsm.state.label(
                diagnostics::opted_in(diagnostics::str_option_view(key_content)),
            ),
    {
        self.adapter.debug_state_label(key_content)
    }

    /// Sets the user's switch directly, without effects.
    pub fn set_user_enabled(&mut self, enabled: bool)
        requires
            old(self).wf(),
        ensures
            final(self).wf(),
            final(self)@ == (EngineView {
                fsm: old(self)@.fsm.set_enabled_step(enabled).fsm,
                ..old(self)@
            }),
    {
        let _ = self.adapter.set_enabled(enabled);
    }

    /// Sets the remembered activation directly.
    pub fn set_prev_active(&mut self, active: bool)
        requires
            old(self).wf(),
        ensures
            final(self).wf(),
            final(self)@ == (EngineView { prev: user_state(active), ..old(self)@ }),
    {
        self.prev_activation = user_activation(active);
    }

    /// The effects of the user's switch having changed the activation.
    fn apply_active_transition(&mut self, old_active: bool, new_active: bool) -> (effects: EffectVec)
        requires
            old(self).wf(),
        ensures
            final(self).wf(),
            final(self)@ == old(self)@.after_switch(old_active, new_active).0,
            decision::effect_views(effects@) == old(self)@.after_switch(old_active, new_active).1,
    {
        if old_active != new_active {
            self.prev_activation = user_activation(old_active);
            self.transition_activation(
                user_activation(new_active),
                SetOpenOrigin::ExplicitUserAction,
            )
        } else {
            let effects: EffectVec = Vec::new();
            assert(decision::effect_views(effects@) =~= Seq::empty());
            effects
        }
    }

    /// The effects of enabling the engine while the environment keeps it inactive.
    fn apply_engine_on_with_ime_recovery(&mut self, ctx: &InputContext) -> (effects: EffectVec)
        requires
            old(self).wf(),
        ensures
            final(self).wf(),
            final(self)@ == old(self)@.recovering(*ctx).0,
            decision::effect_views(effects@) == old(self)@.recovering(*ctx).1,
    {
        let pseudo_ctx = InputContext { ime_on: true, ..*ctx };
        let target_state = self.compute_state(&pseudo_ctx);
        let mut effects = self.transition_activation(
            target_state,
            SetOpenOrigin::ExplicitUserAction,
        );
        if effects.is_empty() {
            decision::push_effect_to(
                &mut effects,
                Effect::Ime(
                    ImeEffect::SetOpen { open: true, origin: SetOpenOrigin::ExplicitUserAction },
                ),
            );
            assert(decision::effect_views(effects@) =~= seq![
                set_open(true, SetOpenOrigin::ExplicitUserAction),
            ]);
        }
        effects
    }

    /// The effects of the user's wish to open or close the IME.
    pub fn ime_set_open_effects(&mut self, ctx: &InputContext, open: bool) -> (effects: EffectVec)
        requires
            old(self).wf(),
        ensures
            final(self).wf(),
            final(self)@ == old(self)@.with_open(*ctx, open).0,
            decision::effect_views(effects@) == old(self)@.with_open(*ctx, open).1,
    {
        let pseudo_ctx = InputContext { ime_on: open, ..*ctx };
        let new_state = self.compute_state(&pseudo_ctx);
        let was_active = self.prev_activation.is_active();
        let now_active = new_state.is_active();
        let mut effects = self.transition_activation(new_state, SetOpenOrigin::ExplicitUserAction);
        if was_active == now_active {
            decision::push_effect_to(
                &mut effects,
                Effect::Ime(
                    ImeEffect::SetOpen { open, origin: SetOpenOrigin::ExplicitUserAction },
                ),
            );
        }
        effects
    }

    fn build_ime_set_open_decision(&mut self, ctx: &InputContext, open: bool) -> (d: Decision)
        requires
            old(self).wf(),
        ensures
            final(self).wf(),
            final(self)@ == old(self)@.open_decision(*ctx, open).0,
            d@ == old(self)@.open_decision(*ctx, open).1,
    {
        let effects = self.ime_set_open_effects(ctx, open);
        Decision::consumed_with(effects)
    }

    // ---- Special keys ----

    /// The event is a combination that closes the IME. Nothing changes.
    #[must_use]
    pub fn matches_ime_off(&self, ctx: &InputContext, event: &RawKeyEvent) -> (r: bool)
        ensures
            r == (self@.special_match(*ctx, *event) == Some(SpecialKeyMatch::ImeOff)),
    {
        matches!(self.match_special_keys(ctx, event), Some(SpecialKeyMatch::ImeOff))
    }

    /// Which special combination the event is. Nothing changes.
    #[must_use]
    pub fn match_special_keys(&self, ctx: &InputContext, event: &RawKeyEvent) -> (r: Option<
        SpecialKeyMatch,
    >)
        ensures
            r == self@.special_match(*ctx, *event),
    {
        let engine_active = self.compute_active(ctx);
        let suppress_ime_combos = engine_active && Self::is_bare_thumb(event, ctx.modifiers);
        let configured = self.special_keys.match_event(
            event,
            ctx.modifiers,
            self.adapter.is_enabled(),
            engine_active,
            suppress_ime_combos,
        );
        if configured.is_some() || suppress_ime_combos {
            return configured;
        }
        let on_off = self.match_ime_on_off_auto(ctx, event);
        if on_off.is_some() {
            return on_off;
        }
        self.match_ime_toggle_auto(ctx, event)
    }

    /// A physical press of a thumb key without any modifier. Injected events never count, so
    /// that keys sent on purpose by other tools still reach the configured combinations.
    #[must_use]
    pub fn is_bare_thumb(event: &RawKeyEvent, m: ModifierState) -> (r: bool)
        ensures
            r == bare_thumb(*event, m),
    {
        !event.injected && matches!(
            event.key_classification,
            KeyClassification::LeftThumb | KeyClassification::RightThumb
        ) && !m.is_os_modifier_held() && !m.shift
    }

    fn match_ime_on_off_auto(&self, ctx: &InputContext, event: &RawKeyEvent) -> (r: Option<
        SpecialKeyMatch,
    >)
        ensures
            r == (match self@.auto_match(*ctx, *event) {
                Some(SpecialKeyMatch::ImeToggle) => None,
                other => other,
            }),
    {
        if event.injected || event.ime_relevance.sync_direction.is_some() {
            return None;
        }
        if any_combo_matches(&self.ime_on_auto, event, ctx.modifiers) {
            return Some(SpecialKeyMatch::ImeOn);
        }
        if any_combo_matches(&self.ime_off_auto, event, ctx.modifiers) {
            return Some(SpecialKeyMatch::ImeOff);
        }
        None
    }

    fn match_ime_toggle_auto(&self, ctx: &InputContext, event: &RawKeyEvent) -> (r: Option<
        SpecialKeyMatch,
    >)
        ensures
            r == (if !event.injected && event.ime_relevance.sync_direction is None && any_matches(
                self@.ime_toggle_auto,
                *event,
                ctx.modifiers,
            ) {
                Some(SpecialKeyMatch::ImeToggle)
            } else {
                None
            }),
    {
        if event.injected || event.ime_relevance.sync_direction.is_some() {
            return None;
        }
        if any_combo_matches(&self.ime_toggle_auto, event, ctx.modifiers) {
            Some(SpecialKeyMatch::ImeToggle)
        } else {
            None
        }
    }

    /// Enables the engine whatever its state, opening the IME where that is needed.
    fn force_enable_and_activate(&mut self, ctx: &InputContext) -> (d: Decision)
        requires
            old(self).wf(),
        ensures
            final(self).wf(),
            final(self)@ == old(self)@.forced_on(*ctx).0,
            d@ == old(self)@.forced_on(*ctx).1,
    {
        let old_active = self.compute_active(ctx);
        let (_, decision) = self.adapter.set_enabled(true);
        let new_active = self.compute_active(ctx);
        let effects = if new_active {
            self.apply_active_transition(old_active, new_active)
        } else {
            self.apply_engine_on_with_ime_recovery(ctx)
        };
        decision.with_effects(effects)
    }

    fn apply_special_key_match(&mut self, m: &SpecialKeyMatch, ctx: &InputContext) -> (d: Decision)
        requires
            old(self).wf(),
        ensures
            final(self).wf(),
            final(self)@ == old(self)@.apply(*m, *ctx).0,
            d@ == old(self)@.apply(*m, *ctx).1,
    {
        match m {
            SpecialKeyMatch::EngineOn => self.force_enable_and_activate(ctx),
            SpecialKeyMatch::EngineOff => {
                let old_active = self.compute_active(ctx);
                let (_, decision) = self.adapter.set_enabled(false);
                let new_active = self.compute_active(ctx);
                let effects = self.apply_active_transition(old_active, new_active);
                decision.with_effects(effects)
            },
            SpecialKeyMatch::ImeOn => self.build_ime_set_open_decision(ctx, true),
            SpecialKeyMatch::ImeOff => self.build_ime_set_open_decision(ctx, false),
            SpecialKeyMatch::ImeToggle => self.build_ime_set_open_decision(ctx, !ctx.ime_on),
        }
    }

    fn check_special_keys(&mut self, ctx: &InputContext, event: &RawKeyEvent) -> (r: Option<
        Decision,
    >)
        requires
            old(self).wf(),
        ensures
            final(self).wf(),
            match old(self)@.special_match(*ctx, *event) {
                Some(m) => {
                    &&& r matches Some(d) && d@ == old(self)@.apply(m, *ctx).1
                    &&& final(self)@ == old(self)@.apply(m, *ctx).0
                },
                None => r is None && final(self)@ == old(self)@,
            },
    {
        match self.match_special_keys(ctx, event) {
            Some(m) => Some(self.apply_special_key_match(&m, ctx)),
            None => None,
        }
    }
}

} // verus!
