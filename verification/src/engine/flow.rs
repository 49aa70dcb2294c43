//! What the entry points of the engine announce, send and give back: laws.

use vstd::prelude::*;

use crate::engine::decision::{
    EffectView, EngineCommand, ImeEffect, InputContext, SetOpenOrigin, TimerEffect, UiEffect,
};
use crate::engine::engine::EngineView;
use crate::engine::fsm_types::{
    EngineState, PendingKey, PendingThumbData, TIMER_PENDING, TIMER_SPECULATIVE,
};
use crate::engine::input_tracker::PhysicalKeyState;
use crate::engine::special_keys;
use crate::engine::strokes;
use crate::types::{ContextChange, KeyAction, KeyEventType, RawKeyEvent};

verus! {

/// The first effects stop both timers and send one action.
pub open spec fn sends_first(effects: Seq<EffectView>, action: KeyAction) -> bool {
    &&& effects.len() >= 3
    &&& effects[0] == EffectView::Timer(TimerEffect::Kill(TIMER_PENDING))
    &&& effects[1] == EffectView::Timer(TimerEffect::Kill(TIMER_SPECULATIVE))
    &&& effects[2] == EffectView::SendKeys(seq![action])
}

/// One of the last two effects is the user's request to open the IME.
pub open spec fn asks_to_open_last(effects: Seq<EffectView>) -> bool {
    let n = effects.len() as int;
    n > 0 && (special_keys::asks(effects[n - 1], true) || n > 1 && special_keys::asks(
        effects[n - 2],
        true,
    ))
}

// ---- The switch ----

/// Switching an inactive engine on asks for the IME to be opened, by whichever way it is switched.
pub proof fn law_switching_on_opens_the_ime(v: EngineView, ctx: InputContext)
    requires
        !(v.prev is Active),
        !v.active(ctx),
    ensures
        asks_to_open_last(v.command(EngineCommand::ForceEngineOn, ctx).1.effects()),
        !v.fsm.enabled ==> asks_to_open_last(
            v.command(EngineCommand::ToggleEngine, ctx).1.effects(),
        ),
        v.command(EngineCommand::ForceEngineOn, ctx).0.fsm.enabled,
        !v.fsm.enabled ==> v.command(EngineCommand::ToggleEngine, ctx).0.fsm.enabled,
{
}

/// Toggling an active engine sends what waits, closes the IME and announces the change.
pub proof fn law_toggling_an_active_engine_closes_the_ime(
    v: EngineView,
    k: PendingKey,
    ctx: InputContext,
)
    requires
        v.active(ctx),
    ensures
        ({
            let (w, d) = v.command(EngineCommand::ToggleEngine, ctx);
            &&& !w.fsm.enabled
            &&& d is Consume
            &&& special_keys::announces(d.effects(), false)
            &&& v.fsm.state == EngineState::PendingChar(k) && strokes::plain(
                v.fsm.layout,
                k.pos,
            ) is Some ==> sends_first(d.effects(), strokes::plain(v.fsm.layout, k.pos)->0)
        }),
{
}

/// An engine-off key sends what waits before it stops the engine.
pub proof fn law_engine_off_key_sends_what_waits(
    v: EngineView,
    k: PendingKey,
    event: RawKeyEvent,
    ctx: InputContext,
)
    requires
        special_keys::is_new_key_down(v, event),
        v.active(ctx),
        special_keys::is_one_of(v.special_keys.engine_off@, event, ctx.modifiers),
        v.fsm.state == EngineState::PendingChar(k),
        strokes::plain(v.fsm.layout, k.pos) is Some,
    ensures
        sends_first(
            v.input(event, ctx).1.effects(),
            strokes::plain(v.fsm.layout, k.pos)->0,
        ),
{
    special_keys::law_place_in_the_list_does_not_matter(
        v.special_keys.engine_off@,
        event,
        ctx.modifiers,
    );
}

// ---- The environment ----

/// An engine that the environment makes inactive sends what waits first.
pub proof fn law_lost_environment_sends_what_waits(v: EngineView, k: PendingKey, ctx: InputContext)
    requires
        v.prev is Active,
        !v.active(ctx),
        v.fsm.state == EngineState::PendingChar(k),
        strokes::plain(v.fsm.layout, k.pos) is Some,
    ensures
        sends_first(v.refreshed(ctx).1, strokes::plain(v.fsm.layout, k.pos)->0),
        v.refreshed(ctx).0.fsm.state is Idle,
        v.refreshed(ctx).0.lifecycle.active.len() == 0,
{
}

/// What a change of the environment brings goes out with whatever looks at the environment: a refresh,
/// a key that goes through, and a key that an inactive engine is not concerned with.
pub proof fn law_changes_go_out_with_any_event(
    v: EngineView,
    event: RawKeyEvent,
    ctx: InputContext,
)
    ensures
        v.command(EngineCommand::RefreshState, ctx).1.effects() == v.refreshed(ctx).1,
        !v.command(EngineCommand::RefreshState, ctx).1.is_consumed(),
        event.event_type is KeyDown && v.lifecycle.passed.contains(event.vk_code) ==> v.input(
            event,
            ctx,
        ).1.effects() == v.refreshed(ctx).1 && !v.input(event, ctx).1.is_consumed(),
        special_keys::is_new_key_down(v, event) && v.special_match(ctx, event) is None && !v.active(
            ctx,
        ) ==> v.input(event, ctx).1.effects() == v.refreshed(ctx).1 && !v.input(
            event,
            ctx,
        ).1.is_consumed(),
{
    let effects = v.refreshed(ctx).1;
    assert(effects.len() == 0 ==> effects =~= Seq::empty());
    lemma_refresh_keeps_the_switch(v, ctx);
}

proof fn lemma_refresh_keeps_the_switch(v: EngineView, ctx: InputContext)
    ensures
        v.refreshed(ctx).0.active(ctx) == v.active(ctx),
{
}

/// A key that makes an engine active announces that before anything that the key itself brings.
pub proof fn law_activation_is_announced_before_the_key(
    v: EngineView,
    event: RawKeyEvent,
    ctx: InputContext,
)
    requires
        special_keys::is_new_key_down(v, event),
        v.special_match(ctx, event) is None,
        v.active(ctx),
        !(v.prev is Active),
        v.fsm.state is Idle,
        !v.fsm.engine_off_requested,
        v.fsm.ime_open_requested is None,
        strokes::types_character(event, PhysicalKeyState::of_context(ctx)),
    ensures
        ({
            let e = v.input(event, ctx).1.effects();
            &&& e.len() >= 2
            &&& e[0] == EffectView::Ime(
                ImeEffect::SetOpen { open: true, origin: SetOpenOrigin::ActivationSync },
            )
            &&& e[1] == EffectView::Ui(
                UiEffect::EngineStateChanged { enabled: true, send_ime_key: true },
            )
        }),
{
    let (w, effects) = v.refreshed(ctx);
    assert(w.fsm == v.fsm);
    lemma_typed_key_requests_nothing(v, event, ctx);
}

proof fn lemma_typed_key_requests_nothing(v: EngineView, event: RawKeyEvent, ctx: InputContext)
    requires
        v.fsm.enabled,
        v.fsm.state is Idle,
        !v.fsm.engine_off_requested,
        v.fsm.ime_open_requested is None,
        strokes::types_character(event, PhysicalKeyState::of_context(ctx)),
    ensures
        ({
            let fsm = v.fsm.event_step(event, PhysicalKeyState::of_context(ctx)).fsm;
            !fsm.engine_off_requested && fsm.ime_open_requested is None
        }),
{
}

/// A character key of an active engine is answered as the machine answers it, with the modifiers and
/// thumb keys that the context reports.
pub proof fn law_active_engine_answers_by_the_machine(
    v: EngineView,
    event: RawKeyEvent,
    ctx: InputContext,
)
    requires
        special_keys::is_new_key_down(v, event),
        v.special_match(ctx, event) is None,
        v.active(ctx),
        v.prev is Active,
        v.fsm.state is Idle,
        !v.fsm.engine_off_requested,
        v.fsm.ime_open_requested is None,
        strokes::types_character(event, PhysicalKeyState::of_context(ctx)),
    ensures
        ({
            let held = PhysicalKeyState {
                modifiers: ctx.modifiers,
                left_thumb_down: ctx.left_thumb_down,
                right_thumb_down: ctx.right_thumb_down,
                composing: ctx.composing,
            };
            let step = v.fsm.event_step(event, held);
            let (w, d) = v.input(event, ctx);
            &&& d.is_consumed() == step.consumed
            &&& step.actions.len() > 0 ==> d.effects().last() == EffectView::SendKeys(step.actions)
            &&& w.fsm == step.fsm
        }),
{
    let (w, effects) = v.refreshed(ctx);
    assert(w == v);
    lemma_typed_key_requests_nothing(v, event, ctx);
}

// ---- Focus ----

/// When the focus moves, what waits goes out first, then the key-up of each consumed key in order, and
/// what the environment brings last.
pub proof fn law_focus_change_gives_the_keys_back(
    v: EngineView,
    k: PendingKey,
    i: int,
    ctx: InputContext,
)
    requires
        v.fsm.state == EngineState::PendingChar(k),
        strokes::plain(v.fsm.layout, k.pos) is Some,
    ensures
        ({
            let (w, d) = v.command(EngineCommand::FocusChanged, ctx);
            let e = d.effects();
            let keys = v.lifecycle.active;
            &&& !d.is_consumed()
            &&& sends_first(e, strokes::plain(v.fsm.layout, k.pos)->0)
            &&& e.len() >= 3 + keys.len()
            &&& 0 <= i < keys.len() ==> e[3 + i] == EffectView::ReinjectKey(
                RawKeyEvent { event_type: KeyEventType::KeyUp, ..keys[i] },
            )
            &&& w.lifecycle.active.len() == 0
            &&& w.fsm.state is Idle
        }),
{
}

// ---- Timers ----

/// A thumb key whose time is up in an active engine is typed as it is, unless a composition goes on.
pub proof fn law_thumb_key_times_out(v: EngineView, t: PendingThumbData, ctx: InputContext)
    requires
        v.active(ctx),
        v.fsm.state == EngineState::PendingThumb(t),
        v.fsm.muhenkan_vk != Some(t.vk_code),
        v.fsm.henkan_vk != Some(t.vk_code),
        v.fsm.space_thumb_vk != Some(t.vk_code),
        v.fsm.enter_thumb_vk != Some(t.vk_code),
        v.fsm.engine_off_solo_repeat_vk != t.vk_code,
        !v.fsm.thumb_keys_are_ime_switch,
        !v.fsm.engine_off_requested,
        v.fsm.ime_open_requested is None,
        t.modifier_key is None,
    ensures
        ({
            let e = v.timeout(TIMER_PENDING, ctx).1.effects();
            &&& !ctx.composing ==> e.len() == 3 && e[2] == EffectView::SendKeys(
                seq![KeyAction::Key(t.vk_code), KeyAction::KeyUp(t.vk_code)],
            )
            &&& ctx.composing ==> e.len() == 2
            &&& v.timeout(TIMER_PENDING, ctx).0.fsm.state is Idle
        }),
{
}

/// A lost context sends what waits and changes nothing else of the engine's state.
pub proof fn law_lost_context_sends_what_waits(
    v: EngineView,
    k: PendingKey,
    reason: ContextChange,
    ctx: InputContext,
)
    requires
        v.fsm.state == EngineState::PendingChar(k),
        strokes::plain(v.fsm.layout, k.pos) is Some,
    ensures
        ({
            let (w, d) = v.command(EngineCommand::InvalidateContext(reason), ctx);
            &&& d is Consume
            &&& sends_first(d.effects(), strokes::plain(v.fsm.layout, k.pos)->0)
            &&& w.fsm.state is Idle
            &&& w.fsm.enabled == v.fsm.enabled
            &&& w.prev == v.prev
            &&& w.lifecycle == v.lifecycle
        }),
{
}

} // verus!
