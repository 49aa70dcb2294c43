//! Between the state machine and the engine: responses become effects and decisions.

use timed_fsm::{Response, TimerCommand};
use vstd::prelude::*;

use crate::config::ConfirmMode;
use crate::diagnostics;
use crate::engine::decision;
use crate::engine::decision::{
    Decision, DecisionView, Effect, EffectVec, EffectView, InputEffect, TimerEffect,
};
use crate::engine::fsm_types::{ComposingHint, ModeKeyConfig, TextKeyConfig};
use crate::engine::input_tracker::PhysicalKeyState;
use crate::engine::nicola_fsm;
use crate::engine::nicola_fsm::{NicolaFsm, ResponseView};
use crate::ngram::NgramModel;
use crate::types::{ContextChange, KeyAction, RawKeyEvent, ShadowImeAction, VkCode};
use crate::yab::YabLayout;

verus! {

pub open spec fn timer_effect(command: TimerCommand<usize>) -> TimerEffect {
    match command {
        TimerCommand::Set { id, duration } => TimerEffect::Start { id, duration },
        TimerCommand::Kill { id } => TimerEffect::Kill(id),
    }
}

pub open spec fn timer_effects(commands: Seq<TimerCommand<usize>>) -> Seq<EffectView> {
    commands.map_values(|c: TimerCommand<usize>| EffectView::Timer(timer_effect(c)))
}

/// The timer commands in order, then the keys to send, if there are any.
pub open spec fn response_effects(r: ResponseView) -> Seq<EffectView> {
    if r.actions.len() == 0 {
        timer_effects(r.timers)
    } else {
        timer_effects(r.timers).push(EffectView::SendKeys(r.actions))
    }
}

pub open spec fn response_decision(r: ResponseView) -> DecisionView {
    if r.consumed {
        DecisionView::Consume(response_effects(r))
    } else {
        DecisionView::passed(response_effects(r))
    }
}

/// The state machine, answering in decisions.
#[derive(Debug)]
pub struct FsmAdapter {
    fsm: NicolaFsm,
}

impl View for FsmAdapter {
    type V = NicolaFsm;

    closed spec fn view(&self) -> NicolaFsm {
        self.fsm
    }
}

impl FsmAdapter {
    #[must_use]
    pub fn new(fsm: NicolaFsm) -> (r: Self)
        ensures
            r@ == fsm,
    {
        FsmAdapter { fsm }
    }

    pub fn on_event(&mut self, event: RawKeyEvent, phys: &PhysicalKeyState) -> (d: Decision)
        ensures
            final(self)@ == old(self)@.event_step(event, *phys).fsm,
            d@ == response_decision(old(self)@.event_step(event, *phys).response()),
    {
        let resp = self.fsm.on_event(event, phys);
        Self::response_to_decision(resp)
    }

    pub fn on_timeout(&mut self, timer_id: usize, phys: &PhysicalKeyState, composing: bool) -> (d:
        Decision)
        ensures
            final(self)@ == old(self)@.timeout_step(timer_id, *phys, composing).fsm,
            d@ == response_decision(
                old(self)@.timeout_step(timer_id, *phys, composing).response(),
            ),
    {
        let resp = self.fsm.on_timeout(timer_id, phys, composing);
        Self::response_to_decision(resp)
    }

    /// Flushes what is pending.
    pub fn flush(&mut self, reason: ContextChange, composing: ComposingHint) -> (d: Decision)
        ensures
            final(self)@ == old(self)@.flush_step(composing).fsm,
            d@ == response_decision(old(self)@.flush_step(composing).response()),
    {
        let resp = self.fsm.flush_pending(reason, composing);
        Self::response_to_decision(resp)
    }

    /// Flushes what is pending and returns the effects alone.
    pub fn flush_to_effects(&mut self, reason: ContextChange, composing: ComposingHint) -> (e:
        EffectVec)
        ensures
            final(self)@ == old(self)@.flush_step(composing).fsm,
            decision::effect_views(e@) == response_effects(
                old(self)@.flush_step(composing).response(),
            ),
    {
        let resp = self.fsm.flush_pending(reason, composing);
        Self::response_to_effects(resp)
    }

    pub fn toggle_enabled(&mut self) -> (r: (bool, Decision))
        ensures
            r.0 == !old(self)@.enabled,
            final(self)@ == old(self)@.set_enabled_step(!old(self)@.enabled).fsm,
            r.1@ == response_decision(
                old(self)@.set_enabled_step(!old(self)@.enabled).response(),
            ),
    {
        let (enabled, resp) = self.fsm.toggle_enabled();
        (enabled, Self::response_to_decision(resp))
    }

    pub fn set_enabled(&mut self, enabled: bool) -> (r: (bool, Decision))
        ensures
            r.0 == enabled,
            final(self)@ == old(self)@.set_enabled_step(enabled).fsm,
            r.1@ == response_decision(old(self)@.set_enabled_step(enabled).response()),
    {
        let (actual, resp) = self.fsm.set_enabled(enabled);
        (actual, Self::response_to_decision(resp))
    }

    pub fn swap_layout(&mut self, layout: YabLayout) -> (d: Decision)
        ensures
            final(self)@ == old(self)@.swap_layout_step(layout).fsm,
            d@ == response_decision(old(self)@.swap_layout_step(layout).response()),
    {
        let resp = self.fsm.swap_layout(layout);
        Self::response_to_decision(resp)
    }

    pub fn set_threshold_ms(&mut self, ms: u32)
        ensures
            final(self)@ == (NicolaFsm { threshold_us: (ms * 1000) as u64, ..old(self)@ }),
    {
        self.fsm.set_threshold_ms(ms);
    }

    pub fn set_confirm_mode(&mut self, mode: ConfirmMode, delay_ms: u32)
        ensures
            final(self)@ == (NicolaFsm {
                confirm_mode: mode,
                speculative_delay_us: (delay_ms * 1000) as u64,
                ..old(self)@
            }),
    {
        self.fsm.set_confirm_mode(mode, delay_ms);
    }

    pub fn set_ngram_model(&mut self, model: NgramModel)
        ensures
            final(self)@ == (NicolaFsm { ngram_model: Some(model), ..old(self)@ }),
    {
        self.fsm.set_ngram_model(model);
    }

    pub fn set_engine_off_solo_repeat_vk(&mut self, vk: VkCode)
        ensures
            final(self)@ == (NicolaFsm { engine_off_solo_repeat_vk: vk, ..old(self)@ }),
    {
        self.fsm.set_engine_off_solo_repeat_vk(vk);
    }

    pub fn set_space_thumb_config(&mut self, space_thumb_vk: Option<VkCode>, config: TextKeyConfig)
        ensures
            final(self)@ == (NicolaFsm { space_thumb_vk, space_thumb: config, ..old(self)@ }),
    {
        self.fsm.set_space_thumb_config(space_thumb_vk, config);
    }

    pub fn set_thumb_key_solo_tap_config(
        &mut self,
        muhenkan_vk: Option<VkCode>,
        muhenkan: ModeKeyConfig,
        henkan_vk: Option<VkCode>,
        henkan: ModeKeyConfig,
    )
        ensures
            final(self)@ == (NicolaFsm {
                muhenkan_vk,
                muhenkan,
                henkan_vk,
                henkan,
                ..old(self)@
            }),
    {
        self.fsm.set_thumb_key_solo_tap_config(muhenkan_vk, muhenkan, henkan_vk, henkan);
    }

    pub fn set_muhenkan_solo_tap_dedicated_fn_key(&mut self, vk: Option<VkCode>)
        ensures
            final(self)@ == (NicolaFsm { muhenkan_dedicated_fn_key: vk, ..old(self)@ }),
    {
        self.fsm.set_muhenkan_solo_tap_dedicated_fn_key(vk);
    }

    pub fn set_enter_thumb_config(&mut self, enter_thumb_vk: Option<VkCode>, config: TextKeyConfig)
        ensures
            final(self)@ == (NicolaFsm { enter_thumb_vk, enter_thumb: config, ..old(self)@ }),
    {
        self.fsm.set_enter_thumb_config(enter_thumb_vk, config);
    }

    pub fn set_thumb_shift_faces_enabled(&mut self, enabled: bool)
        ensures
            final(self)@ == (NicolaFsm { thumb_shift_faces_enabled: enabled, ..old(self)@ }),
    {
        self.fsm.set_thumb_shift_faces_enabled(enabled);
    }

    pub fn set_thumb_keys_are_ime_switch(&mut self, yes: bool)
        ensures
            final(self)@ == (NicolaFsm { thumb_keys_are_ime_switch: yes, ..old(self)@ }),
    {
        self.fsm.set_thumb_keys_are_ime_switch(yes);
    }

    /// Takes the request to switch the engine off; it is handed out once.
    pub fn take_engine_off_requested(&mut self) -> (r: bool)
        ensures
            r == old(self)@.engine_off_requested,
            final(self)@ == (NicolaFsm { engine_off_requested: false, ..old(self)@ }),
    {
        self.fsm.take_engine_off_requested()
    }

    pub fn set_muhenkan_delegate_to_open_axis(&mut self, action: Option<ShadowImeAction>)
        ensures
            final(self)@ == (NicolaFsm { muhenkan_delegate: action, ..old(self)@ }),
    {
        self.fsm.set_muhenkan_delegate_to_open_axis(action);
    }

    pub fn set_henkan_delegate_to_open_axis(&mut self, action: Option<ShadowImeAction>)
        ensures
            final(self)@ == (NicolaFsm { henkan_delegate: action, ..old(self)@ }),
    {
        self.fsm.set_henkan_delegate_to_open_axis(action);
    }

    /// Takes the request to open or close the IME; it is handed out once.
    pub fn take_ime_open_requested(&mut self) -> (r: Option<ShadowImeAction>)
        ensures
            r == old(self)@.ime_open_requested,
            final(self)@ == (NicolaFsm { ime_open_requested: None, ..old(self)@ }),
    {
        self.fsm.take_ime_open_requested()
    }

    #[must_use]
    pub fn is_enabled(&self) -> (r: bool)
        ensures
            r == self@.enabled,
    {
        self.fsm.is_enabled()
    }

    /// Label of the machine's state. Key codes appear only where `key_content`, the value of
    /// [`diagnostics::KEY_CONTENT_ENV`], opts in.
    #[must_use]
    pub fn debug_state_label(&self, key_content: Option<&str>) -> (r: String)
        ensures
            r@ == self@.state.label(
                diagnostics::opted_in(diagnostics::str_option_view(key_content)),
            ),
    {
        self.fsm.state.debug_label(key_content)
    }

    /// The effects of a response, whether or not it was consumed.
    #[must_use]
    pub fn response_to_effects(resp: Response<KeyAction, usize>) -> (effects: EffectVec)
        ensures
            decision::effect_views(effects@) == response_effects(nicola_fsm::response_view(resp)),
    {
        let mut effects: EffectVec = Vec::new();
        let mut i: usize = 0;
        while i < resp.timers.len()
            invariant
                i <= resp.timers@.len(),
                decision::effect_views(effects@) == timer_effects(
                    resp.timers@.subrange(0, i as int),
                ),
            decreases resp.timers@.len() - i,
        {
            let effect = match &resp.timers[i] {
                TimerCommand::Set { id, duration } => TimerEffect::Start {
                    id: *id,
                    duration: *duration,
                },
                TimerCommand::Kill { id } => TimerEffect::Kill(*id),
            };
            let ghost before = effects@;
            effects.push(Effect::Timer(effect));
            assert(decision::effect_views(effects@) =~= decision::effect_views(before).push(
                EffectView::Timer(timer_effect(resp.timers@[i as int])),
            ));
            assert(timer_effects(resp.timers@.subrange(0, i + 1)) =~= timer_effects(
                resp.timers@.subrange(0, i as int),
            ).push(EffectView::Timer(timer_effect(resp.timers@[i as int]))));
            i += 1;
        }
        assert(resp.timers@.subrange(0, i as int) =~= resp.timers@);
        if !resp.actions.is_empty() {
            let ghost before = effects@;
            let ghost keys = resp.actions@;
            effects.push(Effect::Input(InputEffect::SendKeys(resp.actions)));
            assert(decision::effect_views(effects@) =~= decision::effect_views(before).push(
                EffectView::SendKeys(keys),
            ));
        }
        effects
    }

    /// The decision of a response.
    #[must_use]
    pub fn response_to_decision(resp: Response<KeyAction, usize>) -> (d: Decision)
        ensures
            d@ == response_decision(nicola_fsm::response_view(resp)),
    {
        let consumed = resp.consumed;
        let effects = Self::response_to_effects(resp);
        if consumed {
            Decision::consumed_with(effects)
        } else {
            Decision::passed(effects)
        }
    }
}

} // verus!
