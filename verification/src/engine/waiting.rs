//! How long keys wait, what the machine remembers and what it is set to: laws.

use timed_fsm::TimerCommand;
use vstd::prelude::*;

use crate::config::ConfirmMode;
use crate::engine::decision::{
    ActivationState, DecisionView, EffectView, EngineCommand, InactiveReason, InputContext,
    SpecialKeyCombos, TimerEffect,
};
use crate::engine::engine::EngineView;
use crate::engine::fsm_adapter;
use crate::engine::fsm_types::{
    ComposingHint, EngineState, Face, GuardAction, ModeKeyConfig, PendingKey, PendingThumbData,
    ThumbSide, TimerIntent, TIMER_PENDING, TIMER_SPECULATIVE,
};
use crate::engine::input_tracker::PhysicalKeyState;
use crate::engine::key_lifecycle::LifecycleView;
use crate::engine::nicola_fsm::{NicolaFsm, ResponseView};
use crate::engine::special_keys;
use crate::engine::strokes;
use crate::ngram::{Forecast, NgramModel};
use crate::timing;
use crate::types::{ContextChange, KeyAction, RawKeyEvent, ShadowImeAction, Timestamp, VkCode};
use crate::yab::YabLayout;

verus! {

// ---- Timers ----

/// A waiting key stops both timers and starts the one that it waits for, for its own time; the second
/// phase starts the long timer for the rest. An idle machine runs none.
pub proof fn law_timers_run_for_their_time(threshold_us: u64, delay_us: u64, remaining_us: u64)
    ensures
        ({
            let stop_both = seq![
                TimerCommand::<usize>::Kill { id: TIMER_PENDING },
                TimerCommand::<usize>::Kill { id: TIMER_SPECULATIVE },
            ];
            &&& TimerIntent::CancelAll.commands_spec(threshold_us, delay_us) == stop_both
            &&& TimerIntent::Pending.commands_spec(threshold_us, delay_us) == stop_both.push(
                TimerCommand::Set { id: TIMER_PENDING, duration: timing::micros(threshold_us) },
            )
            &&& TimerIntent::SpeculativeWait.commands_spec(threshold_us, delay_us)
                == stop_both.push(
                TimerCommand::Set { id: TIMER_SPECULATIVE, duration: timing::micros(delay_us) },
            )
            &&& (TimerIntent::Phase2Transition { remaining_us }).commands_spec(
                threshold_us,
                delay_us,
            ) == seq![
                TimerCommand::<usize>::Kill { id: TIMER_SPECULATIVE },
                TimerCommand::Set { id: TIMER_PENDING, duration: timing::micros(remaining_us) },
            ]
            &&& TimerIntent::Keep.commands_spec(threshold_us, delay_us).len() == 0
            &&& TIMER_PENDING != TIMER_SPECULATIVE
        }),
{
    let stop_both = seq![
        TimerCommand::<usize>::Kill { id: TIMER_PENDING },
        TimerCommand::<usize>::Kill { id: TIMER_SPECULATIVE },
    ];
    assert(TimerIntent::Pending.commands_spec(threshold_us, delay_us) =~= stop_both.push(
        TimerCommand::Set { id: TIMER_PENDING, duration: timing::micros(threshold_us) },
    ));
    assert(TimerIntent::SpeculativeWait.commands_spec(threshold_us, delay_us) =~= stop_both.push(
        TimerCommand::Set { id: TIMER_SPECULATIVE, duration: timing::micros(delay_us) },
    ));
}

/// An answer becomes a decision: consumed where the machine consumed, with an effect for each timer
/// command in order and one for the keys behind them, where there are any.
pub proof fn law_answers_become_decisions(r: ResponseView, i: int)
    ensures
        ({
            let d = fsm_adapter::response_decision(r);
            let n = r.timers.len();
            &&& d.is_consumed() == r.consumed
            &&& d.effects().len() == n + (if r.actions.len() > 0 {
                1nat
            } else {
                0
            })
            &&& r.actions.len() > 0 ==> d.effects().last() == EffectView::SendKeys(r.actions)
            &&& 0 <= i < n ==> (match r.timers[i] {
                TimerCommand::Set { id, duration } => d.effects()[i] == EffectView::Timer(
                    TimerEffect::Start { id, duration },
                ),
                TimerCommand::Kill { id } => d.effects()[i] == EffectView::Timer(
                    TimerEffect::Kill(id),
                ),
            })
        }),
{
}

// ---- How long a character waits ----

/// Where typing goes on without a pause, or statistics speak for a thumb key, a waiting character waits
/// for the whole window; otherwise its first phase is short. Only statistics move the window.
pub proof fn law_how_long_a_character_waits(
    fsm: NicolaFsm,
    e: RawKeyEvent,
    phys: PhysicalKeyState,
)
    requires
        fsm.enabled,
        fsm.state is Idle,
        strokes::types_character(e, phys),
        strokes::no_thumb_is_held(fsm, phys),
        !phys.modifiers.shift,
        strokes::plain(fsm.layout, e.physical_pos) is Some,
    ensures
        ({
            let step = fsm.event_step(e, phys);
            let paused = match fsm.last_char_at {
                Some(at) => e.timestamp - at > fsm.threshold_us,
                None => true,
            };
            &&& fsm.confirm_mode is AdaptiveTiming && paused ==> step.timer is SpeculativeWait
            &&& fsm.confirm_mode is AdaptiveTiming && !paused ==> step.timer is Pending
            &&& fsm.confirm_mode is NgramPredictive ==> (step.timer is Pending <==> fsm.forecast(
                e.physical_pos,
            ) is Thumb)
            &&& step.fsm.last_char_at == Some(e.timestamp)
            &&& !(fsm.confirm_mode is NgramPredictive) || fsm.ngram_model is None
                ==> step.fsm.window_us == fsm.threshold_us
            &&& fsm.ngram_model is Some ==> step.fsm.window_us == (
            fsm.ngram_model->0).window_spec(fsm.threshold_us, fsm.forecast(e.physical_pos))
        }),
{
}

/// The character that an action sends.
pub open spec fn character_of(action: Option<KeyAction>) -> Option<char> {
    match action {
        Some(KeyAction::Char(c)) => Some(c),
        _ => None,
    }
}

/// Statistics are asked about the kana of the three faces after the kana that was sent last, and only
/// in the mode that goes by them.
pub proof fn law_statistics_are_asked(fsm: NicolaFsm, model: NgramModel, e: RawKeyEvent)
    requires
        fsm.ngram_model == Some(model),
        e.physical_pos is Some,
    ensures
        ({
            let p = e.physical_pos->0;
            fsm.forecast(e.physical_pos) == (if fsm.confirm_mode is NgramPredictive {
                model.forecast_spec(
                    fsm.last_kana,
                    character_of(fsm.layout.normal.action_at(p)),
                    character_of(fsm.layout.left_thumb.action_at(p)),
                    character_of(fsm.layout.right_thumb.action_at(p)),
                )
            } else {
                Forecast::Unknown
            })
        }),
        fsm.forecast(None) is Unknown || fsm.confirm_mode is NgramPredictive,
{
}

// ---- What is remembered ----

/// The character that was sent last is remembered: by the last action, where anything was sent, and
/// not at all once the context is lost.
pub proof fn law_last_character_is_remembered(
    fsm: NicolaFsm,
    timer_id: usize,
    phys: PhysicalKeyState,
    composing: bool,
    hint: ComposingHint,
)
    requires
        fsm.state is Idle || fsm.state is PendingChar || fsm.state is SpeculativeChar,
    ensures
        ({
            let step = fsm.timeout_step(timer_id, phys, composing);
            &&& step.actions.len() > 0 ==> step.fsm.last_kana == character_of(
                Some(step.actions.last()),
            )
            &&& step.actions.len() == 0 ==> step.fsm.last_kana == fsm.last_kana
            &&& fsm.flush_step(hint).fsm.last_kana is None
        }),
{
}

// ---- Releases ----

/// The release of a key that was sent on speculation makes it final, and sends nothing. A release
/// means nothing to an idle machine.
pub proof fn law_release_ends_speculation(
    fsm: NicolaFsm,
    k: PendingKey,
    up: RawKeyEvent,
    phys: PhysicalKeyState,
)
    requires
        fsm.enabled,
        up.event_type is KeyUp,
        fsm.state == EngineState::SpeculativeChar(k) || fsm.state is Idle,
    ensures
        ({
            let step = fsm.event_step(up, phys);
            &&& step.actions == Seq::<KeyAction>::empty()
            &&& fsm.state is SpeculativeChar && up.vk_code == k.vk_code ==> step.consumed
                && step.fsm.state is Idle && step.timer is CancelAll
            &&& fsm.state is SpeculativeChar && up.vk_code != k.vk_code ==> !step.consumed
                && step.fsm == fsm && step.timer is Keep
            &&& fsm.state is Idle ==> !step.consumed && step.fsm == fsm && step.timer is Keep
        }),
{
}

/// Of two keys that wait together, the release of any third key changes nothing.
pub proof fn law_other_releases_change_nothing(
    fsm: NicolaFsm,
    k: PendingKey,
    t: PendingThumbData,
    released: Option<Timestamp>,
    up: RawKeyEvent,
    phys: PhysicalKeyState,
)
    requires
        fsm.enabled,
        fsm.state == (EngineState::PendingCharThumb {
            char_key: k,
            thumb: t,
            char1_released_at: released,
        }),
        up.event_type is KeyUp,
        up.vk_code != k.vk_code,
        up.vk_code != t.vk_code,
    ensures
        fsm.event_step(up, phys).fsm == fsm,
        !fsm.event_step(up, phys).consumed,
        fsm.event_step(up, phys).actions == Seq::<KeyAction>::empty(),
{
}

// ---- Text keys ----

/// A space or enter key that is a thumb key goes through while shift is held and it is set to, and its
/// press makes no stroke any more. Without shift, or where it is not set to, it waits as any thumb key.
pub proof fn law_text_key_with_shift(
    fsm: NicolaFsm,
    e: RawKeyEvent,
    phys: PhysicalKeyState,
)
    requires
        fsm.enabled,
        fsm.state is Idle,
        strokes::is_typing(e, phys),
        e.key_classification is LeftThumb || e.key_classification is RightThumb,
    ensures
        ({
            let step = fsm.event_step(e, phys);
            let literal = phys.modifiers.shift && (fsm.space_thumb_vk == Some(e.vk_code)
                && fsm.space_thumb.shift_literal || fsm.enter_thumb_vk == Some(e.vk_code)
                && fsm.enter_thumb.shift_literal);
            &&& step.actions == Seq::<KeyAction>::empty()
            &&& step.consumed == !literal
            &&& literal ==> step.fsm.state is Idle && step.timer is Keep
            &&& literal && e.key_classification is LeftThumb ==> step.fsm.left_thumb_consumed
                == phys.left_thumb_down && step.fsm.right_thumb_consumed
                == fsm.right_thumb_consumed
            &&& literal && e.key_classification is RightThumb ==> step.fsm.right_thumb_consumed
                == phys.right_thumb_down && step.fsm.left_thumb_consumed == fsm.left_thumb_consumed
            &&& !literal ==> step.timer is Pending && (step.fsm.state matches
                EngineState::PendingThumb(t) && strokes::thumb_of(t, e))
        }),
{
}

// ---- Settings ----

/// A machine starts enabled and idle, with its times in microseconds, no request and no history.
pub proof fn law_machine_starts_idle(
    layout: YabLayout,
    left: VkCode,
    right: VkCode,
    threshold_ms: u32,
    mode: ConfirmMode,
    delay_ms: u32,
)
    ensures
        ({
            let fsm = NicolaFsm::fresh(layout, left, right, threshold_ms, mode, delay_ms);
            &&& fsm.enabled && fsm.state is Idle
            &&& fsm.layout == layout && fsm.left_thumb_vk == left && fsm.right_thumb_vk == right
            &&& fsm.threshold_us == threshold_ms * 1000
            &&& fsm.speculative_delay_us == delay_ms * 1000
            &&& fsm.confirm_mode == mode
            &&& fsm.ngram_model is None && fsm.last_kana is None && fsm.last_char_at is None
            &&& fsm.left_thumb_consumed is None && fsm.right_thumb_consumed is None
            &&& !fsm.engine_off_requested && fsm.ime_open_requested is None
            &&& fsm.solo_repeats == 0
            &&& fsm.thumb_shift_faces_enabled && !fsm.thumb_keys_are_ime_switch
        }),
{
}

/// The face of a stroke is that of the thumb key and the shift that are held, and tells the thumb key.
pub proof fn law_faces_tell_their_keys(thumb: Option<ThumbSide>, shift: bool)
    ensures
        Face::resolve_spec(thumb, shift).thumb_side_spec() == thumb,
        Face::resolve_spec(None, false) == Face::Normal,
        Face::resolve_spec(None, true) == Face::Shift,
        Face::resolve_spec(Some(ThumbSide::Left), false) == Face::LeftThumb,
        Face::resolve_spec(Some(ThumbSide::Right), false) == Face::RightThumb,
        Face::resolve_spec(Some(ThumbSide::Left), true) == Face::LeftThumbShift,
        Face::resolve_spec(Some(ThumbSide::Right), true) == Face::RightThumbShift,
{
}

/// A mode key acts by one setting during a composition and by the other without one.
pub proof fn law_mode_keys_heed_the_composition(idle: GuardAction, composing: GuardAction)
    ensures
        (ModeKeyConfig { idle, composing }).for_composing_spec(true) == composing,
        (ModeKeyConfig { idle, composing }).for_composing_spec(false) == idle,
{
}

// ---- Commands ----

/// A change of the times or of the keys reaches the engine at once, in microseconds, and changes
/// nothing else. It goes without effects.
pub proof fn law_settings_reach_the_engine(
    v: EngineView,
    threshold_ms: u32,
    mode: ConfirmMode,
    delay_ms: u32,
    special: SpecialKeyCombos,
    model: NgramModel,
    ctx: InputContext,
)
    ensures
        ({
            let (w, d) = v.command(
                EngineCommand::UpdateFsmParams {
                    threshold_ms,
                    confirm_mode: mode,
                    speculative_delay_ms: delay_ms,
                },
                ctx,
            );
            &&& d == DecisionView::PassThrough
            &&& w.fsm.threshold_us == threshold_ms * 1000
            &&& w.fsm.speculative_delay_us == delay_ms * 1000
            &&& w.fsm.confirm_mode == mode
            &&& w.fsm.state == v.fsm.state && w.fsm.enabled == v.fsm.enabled && w.fsm.layout
                == v.fsm.layout
            &&& w.special_keys == v.special_keys && w.lifecycle == v.lifecycle && w.prev == v.prev
        }),
        v.command(EngineCommand::ReloadKeys { special }, ctx) == (
            EngineView { special_keys: special, ..v },
            DecisionView::PassThrough,
        ),
        v.command(EngineCommand::SetNgramModel(model), ctx).0.fsm.ngram_model == Some(model),
        v.command(EngineCommand::SetNgramModel(model), ctx).1 == DecisionView::PassThrough,
{
}

/// A new layout is in place at once, and what waits goes out by the old one.
pub proof fn law_new_layout_is_in_place(v: EngineView, layout: YabLayout, ctx: InputContext)
    ensures
        v.command(EngineCommand::SwapLayout(layout), ctx).0.fsm.layout == layout,
        v.command(EngineCommand::SwapLayout(layout), ctx).0.fsm.state is Idle,
        v.command(EngineCommand::SwapLayout(layout), ctx).0.fsm.enabled == v.fsm.enabled,
        v.command(EngineCommand::SwapLayout(layout), ctx).1 is Consume,
{
}

/// The key-ups that are owed for consumed keys are those of the same keys, in the order in which they
/// went down.
pub proof fn law_owed_key_ups(keys: LifecycleView, i: int)
    requires
        0 <= i < keys.active.len(),
    ensures
        keys.owed_key_ups().len() == keys.active.len(),
        keys.owed_key_ups()[i].event_type is KeyUp,
        keys.owed_key_ups()[i].vk_code == keys.active[i].vk_code,
        keys.owed_key_ups()[i].scan_code == keys.active[i].scan_code,
        keys.owed_key_ups()[i].timestamp == keys.active[i].timestamp,
{
}

/// A request that a tap makes of the IME is passed on behind what the tap sends, and is forgotten.
pub proof fn law_tap_request_is_passed_on(v: EngineView, ctx: InputContext, d: DecisionView)
    requires
        !v.fsm.engine_off_requested,
        v.fsm.ime_open_requested is Some,
        v.fsm.ime_open_requested == Some(ShadowImeAction::TurnOff) || !(v.prev is Active)
            || v.active(InputContext { ime_on: true, ..ctx }),
    ensures
        ({
            let (w, e) = v.requests(ctx, d);
            let open = match v.fsm.ime_open_requested->0 {
                ShadowImeAction::TurnOn => true,
                ShadowImeAction::TurnOff => false,
                ShadowImeAction::Toggle => !ctx.ime_on,
            };
            let n = d.effects().len() as int;
            &&& w.fsm.ime_open_requested is None
            &&& e.is_consumed() == d.is_consumed()
            &&& e.effects().len() > n
            &&& e.effects().subrange(0, n) == d.effects()
            &&& special_keys::asks(e.effects()[n], open)
        }),
{
    let e = v.requests(ctx, d).1;
    let n = d.effects().len() as int;
    assert(e.effects().subrange(0, n) =~= d.effects());
}

/// A request to stop switches an active engine off and closes the IME; it is forgotten and announced
/// once.
pub proof fn law_stop_request_switches_off(v: EngineView, ctx: InputContext, d: DecisionView)
    requires
        v.fsm.engine_off_requested,
        v.fsm.enabled,
    ensures
        ({
            let (w, e) = v.requests(ctx, d);
            &&& !w.fsm.enabled
            &&& v.fsm.state is Idle ==> !w.fsm.engine_off_requested
            &&& w.solo_off_notify
            &&& !w.notification_taken().solo_off_notify
            &&& v.active(ctx) ==> special_keys::announces(e.effects(), false)
        }),
{
}

/// A timer of an inactive engine only flushes what waits.
pub proof fn law_timer_of_an_inactive_engine_flushes(
    v: EngineView,
    k: PendingKey,
    timer_id: usize,
    ctx: InputContext,
)
    requires
        !v.active(ctx),
        v.fsm.state == EngineState::PendingChar(k),
        strokes::plain(v.fsm.layout, k.pos) is Some,
    ensures
        v.timeout(timer_id, ctx).0.fsm.state is Idle,
        v.timeout(timer_id, ctx).1.effects().last() == EffectView::SendKeys(
            seq![strokes::plain(v.fsm.layout, k.pos)->0],
        ),
{
}

/// What leaving the active state means to the context.
pub proof fn law_reasons_of_a_change()
    ensures
        ActivationState::Inactive(InactiveReason::UserDisabled).context_change_spec()
            == ContextChange::EngineDisabled,
        ActivationState::Inactive(InactiveReason::ImeOff).context_change_spec()
            == ContextChange::ImeOff,
        ActivationState::Inactive(InactiveReason::NotJapaneseIme).context_change_spec()
            == ContextChange::InputLanguageChanged,
        ActivationState::Inactive(InactiveReason::NotRomajiInput).context_change_spec()
            == ContextChange::InputLanguageChanged,
{
}

/// A decision keeps what it is when effects are added before or behind it, and they are added in order.
pub proof fn law_effects_are_added_in_order(d: DecisionView, first: Seq<EffectView>, more: Seq<EffectView>)
    ensures
        d.after_effects(first).effects() == first + d.effects(),
        d.and_effects(more).effects() == d.effects() + more,
        d.after_effects(first).is_consumed() == d.is_consumed(),
        d.and_effects(more).is_consumed() == d.is_consumed(),
        DecisionView::passed(more).effects() == more,
        !DecisionView::passed(more).is_consumed(),
{
    assert(d.after_effects(first).effects() =~= first + d.effects());
    assert(d.and_effects(more).effects() =~= d.effects() + more);
    assert(DecisionView::passed(more).effects() =~= more);
}

} // verus!
