//! What holds of the engine and its state machine across calls.

use vstd::prelude::*;

use crate::config::ConfirmMode;
use crate::engine::decision::{
    ActivationState, DecisionView, EffectView, EngineCommand, InactiveReason, InputContext,
    SetOpenOrigin,
};
use crate::engine::engine;
use crate::engine::engine::{EngineView, SpecialKeyMatch};
use crate::engine::fsm_adapter;
use crate::engine::fsm_types::{
    ClassifiedEvent, ComposingHint, EngineState, Face, PendingKey, PendingThumbData,
};
use crate::engine::input_tracker::PhysicalKeyState;
use crate::engine::key_lifecycle;
use crate::engine::key_lifecycle::LifecycleView;
use crate::engine::nicola_fsm;
use crate::engine::nicola_fsm::{NicolaFsm, ResponseView};
use crate::types::{KeyAction, RawKeyEvent, SpecialKey, Timestamp, VkCode};
use crate::yab::YabLayout;

verus! {

// ---- The state machine ----

/// A flush leaves the machine idle, so that a second one sends nothing.
pub proof fn law_flush_sends_once(fsm: NicolaFsm, hint: ComposingHint, again: ComposingHint)
    ensures
        fsm.flush_step(hint).fsm.state is Idle,
        fsm.flush_step(hint).fsm.flush_step(again).actions == Seq::<KeyAction>::empty(),
        fsm.flush_step(hint).fsm.flush_step(again).fsm == fsm.flush_step(hint).fsm,
{
}

/// An idle machine flushes to the two timer stops and nothing else.
pub proof fn law_idle_flush_stops_both_timers(fsm: NicolaFsm, hint: ComposingHint)
    requires
        fsm.state is Idle,
    ensures
        fsm.flush_step(hint).consumed,
        fsm.flush_step(hint).actions.len() == 0,
        fsm_adapter::response_effects(fsm.flush_step(hint).response()).len() == 2,
{
}

proof fn lemma_settling_keeps_the_switch(fsm: NicolaFsm, hint: ComposingHint, shift: bool)
    ensures
        fsm.settled(hint, shift).0.enabled == fsm.enabled,
{
}

proof fn lemma_idle_keys_keep_the_switch(
    fsm: NicolaFsm,
    ev: ClassifiedEvent,
    phys: PhysicalKeyState,
)
    ensures
        fsm.idle_down(ev, phys).fsm.enabled == fsm.enabled,
{
}

proof fn lemma_key_downs_keep_the_switch(
    fsm: NicolaFsm,
    ev: ClassifiedEvent,
    phys: PhysicalKeyState,
)
    ensures
        fsm.key_down(ev, phys).fsm.enabled == fsm.enabled,
{
    let hint = ComposingHint::Trusted(phys.composing);
    lemma_settling_keeps_the_switch(fsm, hint, phys.modifiers.shift);
    lemma_idle_keys_keep_the_switch(fsm.settled(hint, phys.modifiers.shift).0, ev, phys);
}

/// Only the switch changes whether the machine is enabled.
pub proof fn law_events_keep_the_switch(
    fsm: NicolaFsm,
    event: RawKeyEvent,
    phys: PhysicalKeyState,
    timer_id: usize,
    composing: bool,
    hint: ComposingHint,
    layout: YabLayout,
)
    ensures
        fsm.event_step(event, phys).fsm.enabled == fsm.enabled,
        fsm.timeout_step(timer_id, phys, composing).fsm.enabled == fsm.enabled,
        fsm.flush_step(hint).fsm.enabled == fsm.enabled,
        fsm.swap_layout_step(layout).fsm.enabled == fsm.enabled,
{
    let ev = nicola_fsm::classified(event);
    lemma_key_downs_keep_the_switch(fsm, ev, phys);
    lemma_key_downs_keep_the_switch(NicolaFsm { solo_repeats: 0, ..fsm }, ev, phys);
    lemma_settling_keeps_the_switch(
        fsm,
        ComposingHint::Trusted(phys.composing),
        phys.modifiers.shift,
    );
    lemma_settling_keeps_the_switch(
        fsm,
        ComposingHint::Trusted(composing),
        phys.modifiers.shift,
    );
    lemma_settling_keeps_the_switch(fsm, hint, false);
    lemma_settling_keeps_the_switch(fsm, ComposingHint::Unknown, false);
}

/// A disabled machine lets every key through and does not change.
pub proof fn law_disabled_machine_is_transparent(
    fsm: NicolaFsm,
    event: RawKeyEvent,
    phys: PhysicalKeyState,
)
    requires
        !fsm.enabled,
    ensures
        fsm.event_step(event, phys).fsm == fsm,
        fsm_adapter::response_decision(fsm.event_step(event, phys).response())
            == DecisionView::PassThrough,
{
    assert(fsm_adapter::response_effects(fsm.event_step(event, phys).response()) =~= Seq::empty());
}

/// Where the context of a pending thumb key is lost, its raw key is not sent, unless the thumb
/// keys are the keys that switch the IME.
pub proof fn law_lost_context_sends_no_raw_thumb_key(fsm: NicolaFsm, t: PendingThumbData)
    requires
        fsm.state == EngineState::PendingThumb(t),
        !fsm.thumb_keys_are_ime_switch,
    ensures
        fsm.flush_step(ComposingHint::Unknown).actions.len() == 0,
{
}

/// A stroke of a character key and a thumb key sends the same, whichever goes down first.
pub proof fn law_order_of_a_stroke_does_not_matter(
    fsm: NicolaFsm,
    c: ClassifiedEvent,
    t: ClassifiedEvent,
    phys: PhysicalKeyState,
    hint: ComposingHint,
)
    requires
        fsm.state is Idle,
        fsm.confirm_mode is Wait,
        c.key_class is Char,
        t.key_class is LeftThumb || t.key_class is RightThumb,
        fsm.on_face(Face::Normal, c.pos) is Some,
        fsm.within(c.timestamp, t.timestamp),
        fsm.within(t.timestamp, c.timestamp),
        !phys.modifiers.shift,
        fsm.active_thumb(phys) is None,
    ensures
        ({
            let sent = nicola_fsm::action_list(
                fsm.chord(c.pos, PendingThumbData::from_event_spec(t).side_spec(), false),
            );
            &&& fsm.key_down(c, phys).fsm.key_down(t, phys).fsm.settled(hint, false).1 == sent
            &&& fsm.key_down(t, phys).fsm.key_down(c, phys).actions == sent
        }),
{
    let side = PendingThumbData::from_event_spec(t).side_spec();
    let sent = nicola_fsm::action_list(fsm.chord(c.pos, side, false));
    let first = fsm.key_down(c, phys);
    assert(first.fsm == fsm.by_confirm_mode(c).fsm);
    let both = first.fsm.key_down(t, phys).fsm;
    assert(both.layout == fsm.layout);
    assert(both.chord(c.pos, side, false) == fsm.chord(c.pos, side, false));
    let thumb = fsm.key_down(t, phys).fsm;
    assert(thumb.layout == fsm.layout);
    assert(thumb.chord(c.pos, side, false) == fsm.chord(c.pos, side, false));
}

/// Of two character keys around a thumb key, the one that is nearer in time makes the stroke with
/// it; the other goes out by itself. Where the second is not nearer, the first has the thumb key.
pub proof fn law_nearer_key_has_the_thumb(
    fsm: NicolaFsm,
    c: PendingKey,
    t: PendingThumbData,
    ev: ClassifiedEvent,
    phys: PhysicalKeyState,
)
    requires
        fsm.state == (EngineState::PendingCharThumb {
            char_key: c,
            thumb: t,
            char1_released_at: None,
        }),
        ev.key_class is Char,
    ensures
        ({
            let shift = phys.modifiers.shift;
            let of_first = nicola_fsm::action_list(fsm.chord(c.pos, t.side_spec(), shift));
            let of_second = nicola_fsm::action_list(fsm.chord(ev.pos, t.side_spec(), shift));
            let alone = nicola_fsm::action_list(fsm.on_face(Face::Normal, c.pos));
            let actions = fsm.key_down(ev, phys).actions;
            if ev.timestamp - t.timestamp < t.timestamp - c.timestamp {
                actions == alone + of_second
            } else {
                &&& of_first.len() <= actions.len()
                &&& actions.subrange(0, of_first.len() as int) == of_first
            }
        }),
{
    let of_first = nicola_fsm::action_list(
        fsm.chord(c.pos, t.side_spec(), phys.modifiers.shift),
    );
    let actions = fsm.key_down(ev, phys).actions;
    if !(ev.timestamp - t.timestamp < t.timestamp - c.timestamp) {
        assert(actions.subrange(0, of_first.len() as int) =~= of_first);
    }
}

/// A character key and a thumb key that were down together make a stroke; where the character key was
/// released after less time together than it was down before, they are two keys, each by itself.
pub proof fn law_scant_overlap_makes_two_strokes(
    fsm: NicolaFsm,
    c: PendingKey,
    t: PendingThumbData,
    released: Option<Timestamp>,
    hint: ComposingHint,
    shift: bool,
)
    requires
        fsm.state == (EngineState::PendingCharThumb {
            char_key: c,
            thumb: t,
            char1_released_at: released,
        }),
    ensures
        ({
            let scant = released matches Some(at) && at - t.timestamp < t.timestamp - c.timestamp;
            let idle = NicolaFsm { state: EngineState::Idle, ..fsm };
            fsm.settled(hint, shift).1 == (if scant {
                nicola_fsm::action_list(fsm.on_face(Face::Normal, c.pos)) + idle.solo(t, hint).1
            } else {
                nicola_fsm::action_list(fsm.chord(c.pos, t.side_spec(), shift))
            })
        }),
{
}

/// The waiting mode sends nothing when a character key goes down; the two phases send it after
/// their delay, and the speculative mode at once. The adaptive mode waits while typing goes on, and
/// the predictive one where a thumb face is the likelier one; otherwise both have two phases.
pub proof fn law_confirm_mode_decides_what_goes_out_at_once(fsm: NicolaFsm, ev: ClassifiedEvent)
    requires
        fsm.on_face(Face::Normal, ev.pos) is Some,
    ensures
        ({
            let step = fsm.by_confirm_mode(ev);
            let sent = nicola_fsm::action_list(fsm.on_face(Face::Normal, ev.pos));
            let none = Seq::<KeyAction>::empty();
            match fsm.confirm_mode {
                ConfirmMode::Speculative => step.actions == sent,
                ConfirmMode::TwoPhase => step.actions == none && step.timer is SpeculativeWait,
                ConfirmMode::Wait => step.actions == none && step.timer is Pending,
                ConfirmMode::AdaptiveTiming => {
                    &&& step.actions == none
                    &&& if fsm.continuous(ev) {
                        step.timer is Pending
                    } else {
                        step.timer is SpeculativeWait
                    }
                },
                ConfirmMode::NgramPredictive => {
                    &&& step.actions == none
                    &&& if fsm.forecast(ev.pos) is Thumb {
                        step.timer is Pending
                    } else {
                        step.timer is SpeculativeWait
                    }
                },
            }
        }),
{
}

/// Without statistics the predictive mode treats a character key as the two phases do.
pub proof fn law_prediction_falls_back_to_two_phases(fsm: NicolaFsm, ev: ClassifiedEvent)
    requires
        fsm.confirm_mode is NgramPredictive,
        fsm.ngram_model is None,
    ensures
        ({
            let step = fsm.by_confirm_mode(ev);
            let two_phase = NicolaFsm { confirm_mode: ConfirmMode::TwoPhase, ..fsm };
            let other = two_phase.by_confirm_mode(ev);
            &&& step.response() == other.response()
            &&& step.fsm.state == other.fsm.state
            &&& step.fsm.window_us == other.fsm.window_us
        }),
{
}

/// Only the predictive mode moves the window of a character key away from the threshold.
pub proof fn law_other_modes_keep_the_threshold(fsm: NicolaFsm, ev: ClassifiedEvent)
    requires
        !(fsm.confirm_mode is NgramPredictive),
    ensures
        fsm.by_confirm_mode(ev).fsm.window() == fsm.threshold_us,
{
}

/// A space or enter key that serves as a thumb key is text while shift is held, where it is set to
/// be: its key-down goes through, after what is pending, and starts no stroke. Nothing but the
/// repeat count and the note that the press makes no stroke changes in an idle machine.
pub proof fn law_shift_makes_a_text_key_literal(
    fsm: NicolaFsm,
    event: RawKeyEvent,
    phys: PhysicalKeyState,
)
    requires
        fsm.enabled,
        event.event_type is KeyDown,
        !NicolaFsm::bypasses(nicola_fsm::classified(event), phys),
        fsm.literal_press(nicola_fsm::classified(event), phys),
    ensures
        ({
            let ev = nicola_fsm::classified(event);
            let step = fsm.event_step(event, phys);
            let left = ev.key_class is LeftThumb;
            &&& !step.consumed
            &&& step.fsm.state is Idle
            &&& step.actions == fsm.settled(
                ComposingHint::Trusted(phys.composing),
                phys.modifiers.shift,
            ).1
            &&& step.fsm.active_thumb(phys) matches Some((side, _)) ==> (side is Left) != left
            &&& fsm.state is Idle ==> {
                &&& fsm_adapter::response_decision(step.response()) == DecisionView::PassThrough
                &&& step.fsm == (NicolaFsm { solo_repeats: step.fsm.solo_repeats, ..fsm }).press_spent(
                    ev,
                    phys,
                )
            }
        }),
{
    let ev = nicola_fsm::classified(event);
    let counted = if ev.vk_code == fsm.engine_off_solo_repeat_vk {
        fsm
    } else {
        NicolaFsm { solo_repeats: 0, ..fsm }
    };
    lemma_literal_event(fsm, event, phys);
    lemma_literal_press(counted, ev, phys);
    lemma_settling_ignores_the_repeat_count(
        fsm,
        0,
        ComposingHint::Trusted(phys.composing),
        phys.modifiers.shift,
    );
}

proof fn lemma_literal_event(fsm: NicolaFsm, event: RawKeyEvent, phys: PhysicalKeyState)
    requires
        fsm.enabled,
        event.event_type is KeyDown,
        !NicolaFsm::bypasses(nicola_fsm::classified(event), phys),
        fsm.literal_press(nicola_fsm::classified(event), phys),
    ensures
        fsm.event_step(event, phys) == ({
            let ev = nicola_fsm::classified(event);
            (if ev.vk_code == fsm.engine_off_solo_repeat_vk {
                fsm
            } else {
                NicolaFsm { solo_repeats: 0, ..fsm }
            }).press_literally(ev, phys)
        }).remembered(),
{
}

/// What a literal press answers, and what it leaves behind.
proof fn lemma_literal_press(fsm: NicolaFsm, ev: ClassifiedEvent, phys: PhysicalKeyState)
    requires
        ev.key_class is LeftThumb || ev.key_class is RightThumb,
    ensures
        ({
            let step = fsm.press_literally(ev, phys).remembered();
            &&& !step.consumed
            &&& step.fsm.state is Idle
            &&& step.actions == fsm.settled(
                ComposingHint::Trusted(phys.composing),
                phys.modifiers.shift,
            ).1
            &&& step.fsm.active_thumb(phys) matches Some((side, _)) ==> (side is Left)
                != ev.key_class is LeftThumb
            &&& fsm.state is Idle ==> {
                &&& step.fsm == fsm.press_spent(ev, phys)
                &&& fsm_adapter::response_decision(step.response()) == DecisionView::PassThrough
            }
        }),
{
    let hint = ComposingHint::Trusted(phys.composing);
    lemma_settling_ignores_the_repeat_count(fsm, 0, hint, phys.modifiers.shift);
    let step = fsm.press_literally(ev, phys).remembered();
    if fsm.state is Idle {
        assert(fsm.settled(hint, phys.modifiers.shift).1 =~= Seq::empty());
        assert(fsm.settled(hint, phys.modifiers.shift).0 == fsm);
        assert(fsm_adapter::response_effects(step.response()) =~= Seq::empty());
    }
}

proof fn lemma_settling_ignores_the_repeat_count(
    fsm: NicolaFsm,
    repeats: u32,
    hint: ComposingHint,
    shift: bool,
)
    ensures
        (NicolaFsm { solo_repeats: repeats, ..fsm }).settled(hint, shift).1 == fsm.settled(
            hint,
            shift,
        ).1,
        fsm.settled(hint, shift).0.state is Idle,
        (NicolaFsm { solo_repeats: repeats, ..fsm }).settled(hint, shift).0.state is Idle,
{
    let other = NicolaFsm { solo_repeats: repeats, ..fsm };
    match fsm.state {
        EngineState::PendingChar(k) => {
            assert(other.on_face(Face::Normal, k.pos) == fsm.on_face(Face::Normal, k.pos));
        },
        EngineState::PendingThumb(t) => {
            assert(other.delegated(t.vk_code) == fsm.delegated(t.vk_code));
            assert(other.solo_tap(t, hint) == fsm.solo_tap(t, hint));
        },
        EngineState::PendingCharThumb { char_key, thumb, char1_released_at: _ } => {
            assert(other.on_face(Face::Normal, char_key.pos) == fsm.on_face(
                Face::Normal,
                char_key.pos,
            ));
            assert(other.delegated(thumb.vk_code) == fsm.delegated(thumb.vk_code));
            assert(other.solo_tap(thumb, hint) == fsm.solo_tap(thumb, hint));
            assert(other.chord(char_key.pos, thumb.side_spec(), shift) == fsm.chord(
                char_key.pos,
                thumb.side_spec(),
                shift,
            ));
        },
        _ => {},
    }
}

/// What was sent on speculation is taken back where a thumb key makes it a stroke.
pub proof fn law_speculation_is_taken_back(
    fsm: NicolaFsm,
    k: PendingKey,
    t: ClassifiedEvent,
    phys: PhysicalKeyState,
)
    requires
        fsm.state == EngineState::SpeculativeChar(k),
        t.key_class is LeftThumb || t.key_class is RightThumb,
        fsm.within(k.timestamp, t.timestamp),
        !fsm.literal_press(t, phys),
    ensures
        fsm.key_down(t, phys).actions == seq![KeyAction::SpecialKey(SpecialKey::Backspace)]
            + nicola_fsm::action_list(
            fsm.chord(
                k.pos,
                PendingThumbData::from_event_spec(t).side_spec(),
                phys.modifiers.shift,
            ),
        ),
{
}

// ---- Effects ----

/// The effects of a response are timers and keys: they never touch the IME or the display.
proof fn lemma_response_effects(r: ResponseView, i: int)
    requires
        0 <= i < fsm_adapter::response_effects(r).len(),
    ensures
        fsm_adapter::response_effects(r)[i] is Timer || fsm_adapter::response_effects(
            r,
        )[i] is SendKeys,
{
}

// ---- Activation ----

/// A change between active and inactive is announced with the request to the IME, except that a
/// mode without romaji is announced alone; going over to the same state again announces nothing.
pub proof fn law_transition_is_announced_once(
    v: EngineView,
    new_state: ActivationState,
    origin: SetOpenOrigin,
    again: SetOpenOrigin,
)
    ensures
        ({
            let now = new_state is Active;
            let (after, effects) = v.transition(new_state, origin);
            &&& after.prev is Active == now
            &&& v.prev is Active == now ==> effects == Seq::<EffectView>::empty() && after == v
            &&& v.prev is Active != now ==> effects == (if new_state == ActivationState::Inactive(
                InactiveReason::NotRomajiInput,
            ) {
                seq![engine::state_changed(false, false)]
            } else {
                seq![engine::set_open(now, origin), engine::state_changed(now, true)]
            })
            &&& after.transition(new_state, again) == (after, Seq::<EffectView>::empty())
        }),
{
}

/// Looking at the same environment twice announces a change once.
pub proof fn law_refresh_announces_once(v: EngineView, ctx: InputContext)
    ensures
        v.refreshed(ctx).0.refreshed(ctx) == (v.refreshed(ctx).0, Seq::<EffectView>::empty()),
{
}

/// After the user's wish to open or close the IME the engine's own follow-up stays silent: once
/// the environment shows the wish, a refresh announces nothing.
pub proof fn law_open_wish_is_not_echoed(v: EngineView, ctx: InputContext, open: bool)
    ensures
        ({
            let after = v.with_open(ctx, open).0;
            after.refreshed(InputContext { ime_on: open, ..ctx }) == (
                after,
                Seq::<EffectView>::empty(),
            )
        }),
{
}

/// Where the user closes the IME, or opens it and the engine can become active, there is exactly one
/// request to the IME, and it is the user's own. The refresh that follows adds none.
pub proof fn law_open_wish_is_asked_for_once(v: EngineView, ctx: InputContext, open: bool)
    requires
        !open || v.active(InputContext { ime_on: true, ..ctx }),
    ensures
        ({
            let (after, effects) = v.with_open(ctx, open);
            &&& effects.len() > 0
            &&& effects[0] == engine::set_open(open, SetOpenOrigin::ExplicitUserAction)
            &&& forall|i: int| 1 <= i < effects.len() ==> !(#[trigger] effects[i] is Ime)
            &&& after.refreshed(InputContext { ime_on: open, ..ctx }).1 == Seq::<
                EffectView,
            >::empty()
        }),
{
    law_open_wish_is_not_echoed(v, ctx, open);
}

/// A wish to open or close the IME always reaches the platform layer, exactly once, except that
/// closing is left out where the mode without romaji is kept.
pub proof fn law_open_wish_is_passed_on(v: EngineView, ctx: InputContext, open: bool)
    requires
        v.state(InputContext { ime_on: open, ..ctx }) != ActivationState::Inactive(
            InactiveReason::NotRomajiInput,
        ) || !(v.prev is Active),
    ensures
        ({
            let new_active = v.state(InputContext { ime_on: open, ..ctx }) is Active;
            let effects = v.with_open(ctx, open).1;
            let wanted = if v.prev is Active == new_active {
                open
            } else {
                new_active
            };
            &&& effects.len() > 0
            &&& effects[0] == engine::set_open(
                wanted,
                SetOpenOrigin::ExplicitUserAction,
            )
            &&& forall|i: int| 1 <= i < effects.len() ==> !(#[trigger] effects[i] is Ime)
        }),
{
}

/// When the IME goes to a mode without romaji, the IME itself is left alone.
pub proof fn law_mode_without_romaji_is_kept(v: EngineView, ctx: InputContext, i: int)
    requires
        v.state(ctx) == ActivationState::Inactive(InactiveReason::NotRomajiInput),
        0 <= i < v.refreshed(ctx).1.len(),
    ensures
        !(v.refreshed(ctx).1[i] is Ime),
{
    if v.prev is Active {
        let flush = v.fsm.flush_step(ComposingHint::Unknown);
        let head = fsm_adapter::response_effects(flush.response());
        if i < head.len() {
            lemma_response_effects(flush.response(), i);
            assert(v.refreshed(ctx).1[i] == head[i]);
        } else {
            assert(v.refreshed(ctx).1[i] == engine::state_changed(false, false));
        }
    }
}

/// The switch does what it says, whatever the environment.
pub proof fn law_switch_reaches_the_machine(v: EngineView, ctx: InputContext)
    ensures
        v.forced_on(ctx).0.fsm.enabled,
        !v.switched_off(ctx).0.fsm.enabled,
        v.toggled(ctx).0.fsm.enabled == !v.fsm.enabled,
{
}

/// No request of the IME outlives a toggle of the engine or a change of the layout.
pub proof fn law_commands_leave_no_open_request(
    v: EngineView,
    ctx: InputContext,
    layout: YabLayout,
)
    ensures
        v.command(EngineCommand::ToggleEngine, ctx).0.fsm.ime_open_requested is None,
        v.command(EngineCommand::SwapLayout(layout), ctx).0.fsm.ime_open_requested is None,
{
}

// ---- Special keys ----

/// The engine-on keys do nothing to an engine that is enabled and active.
pub proof fn law_running_engine_ignores_engine_on(
    v: EngineView,
    ctx: InputContext,
    event: RawKeyEvent,
)
    requires
        v.active(ctx),
    ensures
        v.special_match(ctx, event) != Some(SpecialKeyMatch::EngineOn),
{
}

/// The engine-on keys work whenever the engine is not active, for whatever reason.
pub proof fn law_engine_on_always_recovers(v: EngineView, ctx: InputContext, event: RawKeyEvent)
    requires
        !v.active(ctx),
        engine::any_matches(v.special_keys.engine_on@, event, ctx.modifiers),
    ensures
        v.special_match(ctx, event) == Some(SpecialKeyMatch::EngineOn),
{
}

/// While the engine is active a bare thumb key is never taken for an IME key.
pub proof fn law_bare_thumb_key_is_left_to_the_machine(
    v: EngineView,
    ctx: InputContext,
    event: RawKeyEvent,
)
    requires
        v.active(ctx),
        engine::bare_thumb(event, ctx.modifiers),
    ensures
        v.special_match(ctx, event) is None || v.special_match(ctx, event) == Some(
            SpecialKeyMatch::EngineOff,
        ),
{
}

/// A key that the platform layer already follows is never taken for an IME key.
pub proof fn law_followed_keys_are_not_acted_on(
    v: EngineView,
    ctx: InputContext,
    event: RawKeyEvent,
)
    requires
        event.ime_relevance.sync_direction is Some,
    ensures
        match v.special_match(ctx, event) {
            None | Some(SpecialKeyMatch::EngineOn) | Some(SpecialKeyMatch::EngineOff) => true,
            _ => false,
        },
{
}

/// The detected keys never act on an injected event.
pub proof fn law_injected_events_meet_configured_keys_only(
    v: EngineView,
    ctx: InputContext,
    event: RawKeyEvent,
)
    requires
        event.injected,
    ensures
        v.special_match(ctx, event) == v.special_keys.matched(
            event,
            ctx.modifiers,
            v.fsm.enabled,
            v.active(ctx),
            false,
        ),
{
}

// ---- Key-down and key-up ----

/// One call of the engine.
pub ghost enum EngineCall {
    Input(RawKeyEvent, InputContext),
    Timeout(usize, InputContext),
    Command(EngineCommand, InputContext),
}

pub open spec fn after_call(v: EngineView, call: EngineCall) -> EngineView {
    match call {
        EngineCall::Input(event, ctx) => v.input(event, ctx).0,
        EngineCall::Timeout(timer_id, ctx) => v.timeout(timer_id, ctx).0,
        EngineCall::Command(cmd, ctx) => v.command(cmd, ctx).0,
    }
}

/// The engine after the calls, one after the other.
pub open spec fn after_calls(v: EngineView, calls: Seq<EngineCall>) -> EngineView
    decreases calls.len(),
{
    if calls.len() == 0 {
        v
    } else {
        after_call(after_calls(v, calls.drop_last()), calls.last())
    }
}

/// Following this environment takes the engine from active to inactive.
pub open spec fn deactivates(v: EngineView, ctx: InputContext) -> bool {
    v.prev is Active && !v.active(ctx)
}

/// The call is no key-up of the key, no focus change and no deactivation; a repeat of the key reaches
/// an active engine.
pub open spec fn leaves_consumed_key(v: EngineView, call: EngineCall, vk: VkCode) -> bool {
    match call {
        EngineCall::Input(event, ctx) => {
            &&& !deactivates(v, ctx)
            &&& event.vk_code == vk ==> event.event_type is KeyDown && v.active(ctx)
        },
        EngineCall::Timeout(_, _) => true,
        EngineCall::Command(EngineCommand::FocusChanged, _) => false,
        EngineCall::Command(EngineCommand::RefreshState, ctx) => !deactivates(v, ctx),
        EngineCall::Command(_, _) => true,
    }
}

pub open spec fn all_leave_consumed_key(
    v: EngineView,
    calls: Seq<EngineCall>,
    vk: VkCode,
) -> bool {
    forall|n: int|
        0 <= n < calls.len() ==> leaves_consumed_key(
            after_calls(v, calls.take(n)),
            #[trigger] calls[n],
            vk,
        )
}

/// The call is no key-up of the key.
pub open spec fn leaves_passed_key(call: EngineCall, vk: VkCode) -> bool {
    match call {
        EngineCall::Input(event, _) => event.event_type is KeyDown || event.vk_code != vk,
        _ => true,
    }
}

/// The keys that are owed a key-up after the engine has followed the environment.
pub open spec fn keys_after_refresh(v: EngineView, ctx: InputContext) -> LifecycleView {
    if deactivates(v, ctx) {
        v.lifecycle.flushed()
    } else {
        v.lifecycle
    }
}

proof fn lemma_refresh(v: EngineView, ctx: InputContext)
    ensures
        ({
            let w = v.refreshed(ctx).0;
            &&& w.lifecycle == keys_after_refresh(v, ctx)
            &&& w.active(ctx) == v.active(ctx)
            &&& w.solo_off_notify == v.solo_off_notify
        }),
{
    lemma_settling_keeps_the_switch(v.fsm, ComposingHint::Unknown, false);
}

proof fn lemma_special_keys_leave_the_keys(v: EngineView, m: SpecialKeyMatch, ctx: InputContext)
    ensures
        v.apply(m, ctx).0.lifecycle == v.lifecycle,
        v.apply(m, ctx).0.solo_off_notify == v.solo_off_notify,
{
}

proof fn lemma_requests(v: EngineView, ctx: InputContext, d: DecisionView)
    ensures
        ({
            let w = v.requests(ctx, d).0;
            &&& w.lifecycle == v.lifecycle
            &&& w.solo_off_notify == (v.solo_off_notify || v.fsm.engine_off_requested)
            &&& v.fsm.engine_off_requested ==> !w.fsm.enabled
        }),
{
}

proof fn lemma_machine_input(
    v: EngineView,
    event: RawKeyEvent,
    ctx: InputContext,
    first: Seq<EffectView>,
)
    ensures
        ({
            let (w, d) = v.machine_input(event, ctx, first);
            let step = v.fsm.event_step(event, PhysicalKeyState::of_context(ctx));
            &&& w.lifecycle == (if event.event_type is KeyDown && d.is_consumed() {
                v.lifecycle.key_down_consumed(event)
            } else {
                v.lifecycle
            })
            &&& w.solo_off_notify == (v.solo_off_notify || step.fsm.engine_off_requested)
            &&& step.fsm.engine_off_requested ==> !w.fsm.enabled
        }),
{
    let step = v.fsm.event_step(event, PhysicalKeyState::of_context(ctx));
    lemma_requests(
        EngineView { fsm: step.fsm, ..v },
        ctx,
        fsm_adapter::response_decision(step.response()).after_effects(first),
    );
}

/// What an event does to the keys, and to the notification.
proof fn lemma_input(v: EngineView, event: RawKeyEvent, ctx: InputContext)
    ensures
        ({
            let (w, d) = v.input(event, ctx);
            let vk = event.vk_code;
            &&& event.event_type is KeyDown ==> {
                let base = keys_after_refresh(v, ctx);
                if v.lifecycle.is_passed(vk) {
                    w.lifecycle == base && !d.is_consumed()
                } else if v.special_match(ctx, event) is Some {
                    w.lifecycle == (if d.is_consumed() {
                        v.lifecycle.key_down_consumed(event)
                    } else {
                        v.lifecycle
                    })
                } else if v.active(ctx) {
                    w.lifecycle == (if d.is_consumed() {
                        base.key_down_consumed(event)
                    } else {
                        base
                    })
                } else {
                    w.lifecycle == base.key_down_passed(vk) && !d.is_consumed()
                }
            }
            &&& event.event_type is KeyUp ==> {
                let released = v.lifecycle.key_up(vk);
                if v.lifecycle.key_up_disposition(vk) is Unknown && deactivates(v, ctx) {
                    w.lifecycle == released.flushed()
                } else {
                    w.lifecycle == released
                }
            }
            &&& w.solo_off_notify == (v.solo_off_notify || stops_in_emergency(v, event, ctx))
            &&& stops_in_emergency(v, event, ctx) ==> !w.fsm.enabled
        }),
{
    let base = if event.event_type is KeyDown {
        v
    } else {
        EngineView { lifecycle: v.lifecycle.key_up(event.vk_code), ..v }
    };
    lemma_refresh(v, ctx);
    lemma_refresh(base, ctx);
    let (w, effects) = base.refreshed(ctx);
    lemma_machine_input(w, event, ctx, effects);
    if let Some(m) = v.special_match(ctx, event) {
        lemma_special_keys_leave_the_keys(v, m, ctx);
    }
}

proof fn lemma_timeout(v: EngineView, timer_id: usize, ctx: InputContext)
    ensures
        ({
            let w = v.timeout(timer_id, ctx).0;
            &&& w.lifecycle == v.lifecycle
            &&& w.solo_off_notify == (v.solo_off_notify || timer_stops_in_emergency(
                v,
                timer_id,
                ctx,
            ))
            &&& timer_stops_in_emergency(v, timer_id, ctx) ==> !w.fsm.enabled
        }),
{
    let step = v.fsm.timeout_step(timer_id, PhysicalKeyState::of_context(ctx), ctx.composing);
    lemma_requests(
        EngineView { fsm: step.fsm, ..v },
        ctx,
        fsm_adapter::response_decision(step.response()),
    );
}

proof fn lemma_command(v: EngineView, cmd: EngineCommand, ctx: InputContext)
    ensures
        ({
            let w = v.command(cmd, ctx).0;
            &&& w.lifecycle == (match cmd {
                EngineCommand::RefreshState => keys_after_refresh(v, ctx),
                EngineCommand::FocusChanged => v.lifecycle.flushed(),
                _ => v.lifecycle,
            })
            &&& w.solo_off_notify == v.solo_off_notify
        }),
{
    lemma_refresh(v, ctx);
    let flush = v.fsm.flush_step(ComposingHint::Unknown);
    let moved = EngineView { fsm: flush.fsm, lifecycle: v.lifecycle.flushed(), ..v };
    lemma_refresh(moved, ctx);
    assert(moved.lifecycle.flushed() == moved.lifecycle);
}

proof fn lemma_call_leaves_consumed_key(v: EngineView, call: EngineCall, vk: VkCode)
    requires
        v.lifecycle.key_up_disposition(vk) is Consume,
        leaves_consumed_key(v, call, vk),
    ensures
        after_call(v, call).lifecycle.key_up_disposition(vk) is Consume,
{
    match call {
        EngineCall::Input(event, ctx) => {
            lemma_input(v, event, ctx);
            key_lifecycle::law_key_up_follows_last_key_down(v.lifecycle, event, vk);
        },
        EngineCall::Timeout(timer_id, ctx) => {
            lemma_timeout(v, timer_id, ctx);
        },
        EngineCall::Command(cmd, ctx) => {
            lemma_command(v, cmd, ctx);
        },
    }
}

proof fn lemma_call_leaves_passed_key(v: EngineView, call: EngineCall, vk: VkCode)
    requires
        v.lifecycle.key_up_disposition(vk) is PassThrough,
        leaves_passed_key(call, vk),
    ensures
        after_call(v, call).lifecycle.key_up_disposition(vk) is PassThrough,
{
    key_lifecycle::law_flush_forgets_only_consumed_keys(v.lifecycle, vk);
    match call {
        EngineCall::Input(event, ctx) => {
            lemma_input(v, event, ctx);
            key_lifecycle::law_key_up_follows_last_key_down(v.lifecycle, event, vk);
            key_lifecycle::law_key_up_follows_last_key_down(v.lifecycle.flushed(), event, vk);
            key_lifecycle::law_flush_forgets_only_consumed_keys(
                v.lifecycle.key_up(event.vk_code),
                vk,
            );
        },
        EngineCall::Timeout(timer_id, ctx) => {
            lemma_timeout(v, timer_id, ctx);
        },
        EngineCall::Command(cmd, ctx) => {
            lemma_command(v, cmd, ctx);
        },
    }
}

proof fn lemma_calls_leave_consumed_key(v: EngineView, calls: Seq<EngineCall>, vk: VkCode)
    requires
        v.lifecycle.key_up_disposition(vk) is Consume,
        all_leave_consumed_key(v, calls, vk),
    ensures
        after_calls(v, calls).lifecycle.key_up_disposition(vk) is Consume,
    decreases calls.len(),
{
    if calls.len() > 0 {
        let n = calls.len() - 1;
        let before = calls.drop_last();
        assert(calls.take(n) =~= before);
        assert forall|i: int| 0 <= i < before.len() implies leaves_consumed_key(
            after_calls(v, before.take(i)),
            #[trigger] before[i],
            vk,
        ) by {
            assert(before.take(i) =~= calls.take(i));
            assert(before[i] == calls[i]);
        }
        lemma_calls_leave_consumed_key(v, before, vk);
        assert(leaves_consumed_key(after_calls(v, calls.take(n)), calls[n], vk));
        lemma_call_leaves_consumed_key(after_calls(v, before), calls.last(), vk);
    }
}

proof fn lemma_calls_leave_passed_key(v: EngineView, calls: Seq<EngineCall>, vk: VkCode)
    requires
        v.lifecycle.key_up_disposition(vk) is PassThrough,
        forall|n: int| 0 <= n < calls.len() ==> leaves_passed_key(#[trigger] calls[n], vk),
    ensures
        after_calls(v, calls).lifecycle.key_up_disposition(vk) is PassThrough,
    decreases calls.len(),
{
    if calls.len() > 0 {
        let before = calls.drop_last();
        assert forall|i: int| 0 <= i < before.len() implies leaves_passed_key(
            #[trigger] before[i],
            vk,
        ) by {
            assert(before[i] == calls[i]);
        }
        lemma_calls_leave_passed_key(v, before, vk);
        assert(leaves_passed_key(calls[calls.len() - 1], vk));
        lemma_call_leaves_passed_key(after_calls(v, before), calls.last(), vk);
    }
}

/// A key-up follows its key-down: where the key-down was consumed, the key-up is consumed and does
/// nothing else, in whatever environment it arrives and whatever calls come in between, as long as
/// none is a key-up of the key, a focus change or a deactivation.
pub proof fn law_consumed_key_down_owns_its_key_up(
    v: EngineView,
    down: RawKeyEvent,
    ctx: InputContext,
    calls: Seq<EngineCall>,
    up: RawKeyEvent,
    later: InputContext,
)
    requires
        down.event_type is KeyDown,
        up.event_type is KeyUp,
        up.vk_code == down.vk_code,
        v.input(down, ctx).1.is_consumed(),
        all_leave_consumed_key(v.input(down, ctx).0, calls, down.vk_code),
    ensures
        after_calls(v.input(down, ctx).0, calls).input(up, later).1 == DecisionView::Consume(
            Seq::empty(),
        ),
{
    let vk = down.vk_code;
    lemma_input(v, down, ctx);
    key_lifecycle::law_key_up_follows_last_key_down(v.lifecycle, down, vk);
    key_lifecycle::law_key_up_follows_last_key_down(keys_after_refresh(v, ctx), down, vk);
    lemma_calls_leave_consumed_key(v.input(down, ctx).0, calls, vk);
}

/// A key-down that goes through an inactive engine takes its key-up with it, in whatever environment
/// the key-up arrives and whatever calls come in between, as long as none is a key-up of the key.
pub proof fn law_passed_key_down_takes_its_key_up_along(
    v: EngineView,
    down: RawKeyEvent,
    ctx: InputContext,
    calls: Seq<EngineCall>,
    up: RawKeyEvent,
    later: InputContext,
)
    requires
        v.lifecycle.wf(),
        down.event_type is KeyDown,
        up.event_type is KeyUp,
        up.vk_code == down.vk_code,
        !v.active(ctx),
        v.special_match(ctx, down) is None,
        forall|n: int|
            0 <= n < calls.len() ==> leaves_passed_key(#[trigger] calls[n], down.vk_code),
    ensures
        !v.input(down, ctx).1.is_consumed(),
        after_calls(v.input(down, ctx).0, calls).input(up, later).1 == DecisionView::PassThrough,
{
    let vk = down.vk_code;
    lemma_input(v, down, ctx);
    key_lifecycle::law_key_up_follows_last_key_down(keys_after_refresh(v, ctx), down, vk);
    if v.lifecycle.is_passed(vk) {
        assert(!v.lifecycle.is_active(vk));
        key_lifecycle::law_flush_forgets_only_consumed_keys(v.lifecycle, vk);
    }
    lemma_calls_leave_passed_key(v.input(down, ctx).0, calls, vk);
}

/// A key that went through keeps going through while it is held, even if the engine has become
/// active in between.
pub proof fn law_repeats_keep_their_treatment(
    v: EngineView,
    repeat: RawKeyEvent,
    ctx: InputContext,
)
    requires
        repeat.event_type is KeyDown,
        v.lifecycle.is_passed(repeat.vk_code),
    ensures
        !v.input(repeat, ctx).1.is_consumed(),
        v.input(repeat, ctx).0.lifecycle.is_passed(repeat.vk_code),
{
}

// ---- The emergency stop ----

/// The event reaches the machine, and with it repeated taps switch the engine off.
pub open spec fn stops_in_emergency(v: EngineView, event: RawKeyEvent, ctx: InputContext) -> bool {
    let base = if event.event_type is KeyDown {
        v
    } else {
        EngineView { lifecycle: v.lifecycle.key_up(event.vk_code), ..v }
    };
    let w = base.refreshed(ctx).0;
    &&& if event.event_type is KeyDown {
        !v.lifecycle.is_passed(event.vk_code) && v.special_match(ctx, event) is None
    } else {
        v.lifecycle.key_up_disposition(event.vk_code) is Unknown
    }
    &&& w.active(ctx)
    &&& w.fsm.event_step(event, PhysicalKeyState::of_context(ctx)).fsm.engine_off_requested
}

/// A timer does so.
pub open spec fn timer_stops_in_emergency(v: EngineView, timer_id: usize, ctx: InputContext) -> bool {
    &&& v.active(ctx)
    &&& v.fsm.timeout_step(
        timer_id,
        PhysicalKeyState::of_context(ctx),
        ctx.composing,
    ).fsm.engine_off_requested
}

/// The notification of an emergency stop comes from such a stop alone, and stays until it is taken;
/// the stop disables the engine. No command and no combination of keys brings it.
pub proof fn law_notification_comes_from_an_emergency_stop(
    v: EngineView,
    event: RawKeyEvent,
    ctx: InputContext,
    timer_id: usize,
    cmd: EngineCommand,
)
    ensures
        v.input(event, ctx).0.solo_off_notify == (v.solo_off_notify || stops_in_emergency(
            v,
            event,
            ctx,
        )),
        v.timeout(timer_id, ctx).0.solo_off_notify == (v.solo_off_notify
            || timer_stops_in_emergency(v, timer_id, ctx)),
        v.command(cmd, ctx).0.solo_off_notify == v.solo_off_notify,
        stops_in_emergency(v, event, ctx) ==> !v.input(event, ctx).0.fsm.enabled,
        timer_stops_in_emergency(v, timer_id, ctx) ==> !v.timeout(timer_id, ctx).0.fsm.enabled,
        event.event_type is KeyDown && v.special_match(ctx, event) is Some ==> !stops_in_emergency(
            v,
            event,
            ctx,
        ),
        !v.notification_taken().solo_off_notify,
{
    lemma_input(v, event, ctx);
    lemma_timeout(v, timer_id, ctx);
    lemma_command(v, cmd, ctx);
}

// ---- Focus ----

/// After the focus has moved no key-up is owed any more.
pub proof fn law_focus_change_settles_all_keys(v: EngineView, ctx: InputContext)
    ensures
        v.focus_changed(ctx).0.lifecycle.active == Seq::<RawKeyEvent>::empty(),
        v.focus_changed(ctx).0.lifecycle.passed == v.lifecycle.passed,
{
}

} // verus!
