//! What the special keys and the environment do to the engine: laws over key events.

use vstd::prelude::*;

use crate::config::ParsedKeyCombo;
use crate::engine::decision::{
    ActivationState, DecisionView, EffectView, ImeEffect, InactiveReason, InputContext,
    InputModeState, SetOpenOrigin, UiEffect,
};
use crate::engine::engine;
use crate::engine::engine::{EngineView, SpecialKeyMatch};
use crate::engine::input_tracker::PhysicalKeyState;
use crate::types::{ModifierState, RawKeyEvent, ShadowImeAction};

verus! {

/// The user's own request to open or close the IME.
pub open spec fn asks(effect: EffectView, open: bool) -> bool {
    effect == EffectView::Ime(
        ImeEffect::SetOpen { open, origin: SetOpenOrigin::ExplicitUserAction },
    )
}

/// The event is one of the combinations.
pub open spec fn is_one_of(
    combos: Seq<ParsedKeyCombo>,
    event: RawKeyEvent,
    held: ModifierState,
) -> bool {
    combos.contains(
        ParsedKeyCombo { ctrl: held.ctrl, shift: held.shift, alt: held.alt, vk: event.vk_code },
    )
}

/// A key-down that no earlier key-down of the same key has settled.
pub open spec fn is_new_key_down(v: EngineView, event: RawKeyEvent) -> bool {
    event.event_type is KeyDown && !v.lifecycle.passed.contains(event.vk_code)
}

/// The IME keys count: the platform layer does not follow the key, and it is no bare thumb key that
/// the active engine has a use for.
pub open spec fn ime_keys_count(v: EngineView, event: RawKeyEvent, ctx: InputContext) -> bool {
    &&& event.ime_relevance.sync_direction is None
    &&& !v.active(ctx) || event.injected || event.key_classification is Char
        || event.key_classification is Passthrough || ctx.modifiers.ctrl || ctx.modifiers.alt
        || ctx.modifiers.win || ctx.modifiers.shift
}

// ---- Combinations ----

/// A combination is the key together with exactly the Ctrl, Shift and Alt that are held: of all
/// combinations one is pressed.
pub proof fn law_one_combination_is_pressed(
    combo: ParsedKeyCombo,
    event: RawKeyEvent,
    held: ModifierState,
)
    ensures
        engine::combo_matches(combo, event, held) <==> combo == (ParsedKeyCombo {
            ctrl: held.ctrl,
            shift: held.shift,
            alt: held.alt,
            vk: event.vk_code,
        }),
{
}

/// Where a combination stands in its list does not matter.
pub proof fn law_place_in_the_list_does_not_matter(
    combos: Seq<ParsedKeyCombo>,
    event: RawKeyEvent,
    held: ModifierState,
)
    ensures
        engine::any_matches(combos, event, held) == is_one_of(combos, event, held),
{
    let pressed = ParsedKeyCombo {
        ctrl: held.ctrl,
        shift: held.shift,
        alt: held.alt,
        vk: event.vk_code,
    };
    if is_one_of(combos, event, held) {
        let i = choose|i: int| 0 <= i < combos.len() && combos[i] == pressed;
        assert(engine::combo_matches(combos[i], event, held));
    }
    if engine::any_matches(combos, event, held) {
        let i = choose|i: int|
            0 <= i < combos.len() && engine::combo_matches(#[trigger] combos[i], event, held);
        assert(combos[i] == pressed);
    }
}

// ---- IME keys ----

/// A key that is taken for the IME-off key closes the IME, whatever the environment: the key is
/// consumed, and the first effect is the user's own request.
pub proof fn law_ime_off_key_closes(v: EngineView, event: RawKeyEvent, ctx: InputContext)
    requires
        is_new_key_down(v, event),
        v.special_match(ctx, event) == Some(SpecialKeyMatch::ImeOff),
    ensures
        ({
            let (after, d) = v.input(event, ctx);
            &&& d is Consume
            &&& d.effects().len() > 0
            &&& asks(d.effects()[0], false)
            &&& forall|i: int| 1 <= i < d.effects().len() ==> !(#[trigger] d.effects()[i] is Ime)
            &&& !(after.prev is Active)
        }),
{
}

/// A key that is taken for the IME-on key opens the IME, except that it is left alone where that
/// takes the engine to a mode without romaji.
pub proof fn law_ime_on_key_opens(v: EngineView, event: RawKeyEvent, ctx: InputContext)
    requires
        is_new_key_down(v, event),
        v.special_match(ctx, event) == Some(SpecialKeyMatch::ImeOn),
        v.prev is Active ==> v.active(InputContext { ime_on: true, ..ctx }),
    ensures
        ({
            let (after, d) = v.input(event, ctx);
            &&& d is Consume
            &&& d.effects().len() > 0
            &&& asks(d.effects()[0], true)
            &&& forall|i: int| 1 <= i < d.effects().len() ==> !(#[trigger] d.effects()[i] is Ime)
            &&& after.prev is Active == v.active(InputContext { ime_on: true, ..ctx })
        }),
{
}

/// A key that is taken for the IME-toggle key closes an IME that is on and opens one that is off.
pub proof fn law_ime_toggle_key_turns_over(v: EngineView, event: RawKeyEvent, ctx: InputContext)
    requires
        is_new_key_down(v, event),
        v.special_match(ctx, event) == Some(SpecialKeyMatch::ImeToggle),
        ctx.ime_on || !(v.prev is Active) || v.active(InputContext { ime_on: true, ..ctx }),
    ensures
        ({
            let (after, d) = v.input(event, ctx);
            &&& d is Consume
            &&& d.effects().len() > 0
            &&& asks(d.effects()[0], !ctx.ime_on)
            &&& forall|i: int| 1 <= i < d.effects().len() ==> !(#[trigger] d.effects()[i] is Ime)
        }),
{
}

/// A configured IME-off key closes the IME, unless the combination is an engine key or an IME-on key
/// too.
pub proof fn law_configured_ime_off_key_closes(
    v: EngineView,
    event: RawKeyEvent,
    ctx: InputContext,
)
    requires
        is_new_key_down(v, event),
        ime_keys_count(v, event, ctx),
        is_one_of(v.special_keys.ime_off@, event, ctx.modifiers),
        !is_one_of(v.special_keys.engine_on@, event, ctx.modifiers),
        !is_one_of(v.special_keys.engine_off@, event, ctx.modifiers),
        !is_one_of(v.special_keys.ime_on@, event, ctx.modifiers),
    ensures
        v.special_match(ctx, event) == Some(SpecialKeyMatch::ImeOff),
        v.input(event, ctx).1 is Consume,
        v.input(event, ctx).1.effects().len() > 0,
        asks(v.input(event, ctx).1.effects()[0], false),
{
    lemma_lists(v, event, ctx);
    law_ime_off_key_closes(v, event, ctx);
}

/// A configured IME-on key opens the IME, unless the combination is an engine key too.
pub proof fn law_configured_ime_on_key_opens(v: EngineView, event: RawKeyEvent, ctx: InputContext)
    requires
        is_new_key_down(v, event),
        ime_keys_count(v, event, ctx),
        is_one_of(v.special_keys.ime_on@, event, ctx.modifiers),
        !is_one_of(v.special_keys.engine_on@, event, ctx.modifiers),
        !is_one_of(v.special_keys.engine_off@, event, ctx.modifiers),
        v.prev is Active ==> v.active(InputContext { ime_on: true, ..ctx }),
    ensures
        v.special_match(ctx, event) == Some(SpecialKeyMatch::ImeOn),
        v.input(event, ctx).1 is Consume,
        v.input(event, ctx).1.effects().len() > 0,
        asks(v.input(event, ctx).1.effects()[0], true),
{
    lemma_lists(v, event, ctx);
    law_ime_on_key_opens(v, event, ctx);
}

/// A configured IME-toggle key turns the IME over, unless the combination is another special key too.
pub proof fn law_configured_ime_toggle_key_turns_over(
    v: EngineView,
    event: RawKeyEvent,
    ctx: InputContext,
)
    requires
        is_new_key_down(v, event),
        ime_keys_count(v, event, ctx),
        is_one_of(v.special_keys.ime_toggle@, event, ctx.modifiers),
        !is_one_of(v.special_keys.engine_on@, event, ctx.modifiers),
        !is_one_of(v.special_keys.engine_off@, event, ctx.modifiers),
        !is_one_of(v.special_keys.ime_on@, event, ctx.modifiers),
        !is_one_of(v.special_keys.ime_off@, event, ctx.modifiers),
        ctx.ime_on || !(v.prev is Active) || v.active(InputContext { ime_on: true, ..ctx }),
    ensures
        v.special_match(ctx, event) == Some(SpecialKeyMatch::ImeToggle),
        v.input(event, ctx).1 is Consume,
        v.input(event, ctx).1.effects().len() > 0,
        asks(v.input(event, ctx).1.effects()[0], !ctx.ime_on),
{
    lemma_lists(v, event, ctx);
    law_ime_toggle_key_turns_over(v, event, ctx);
}

/// No configured combination is pressed.
pub open spec fn no_configured_key(v: EngineView, event: RawKeyEvent, held: ModifierState) -> bool {
    &&& !is_one_of(v.special_keys.engine_on@, event, held)
    &&& !is_one_of(v.special_keys.engine_off@, event, held)
    &&& !is_one_of(v.special_keys.ime_on@, event, held)
    &&& !is_one_of(v.special_keys.ime_off@, event, held)
    &&& !is_one_of(v.special_keys.ime_toggle@, event, held)
}

/// A detected key does what a configured one of its kind does, unless the event was injected. Where
/// none is pressed either, the event is no special key.
pub proof fn law_detected_keys_act_like_configured_ones(
    v: EngineView,
    event: RawKeyEvent,
    ctx: InputContext,
)
    requires
        no_configured_key(v, event, ctx.modifiers),
    ensures
        ({
            let m = v.special_match(ctx, event);
            let held = ctx.modifiers;
            let counts = !event.injected && ime_keys_count(v, event, ctx);
            &&& counts && is_one_of(v.ime_on_auto, event, held) ==> m == Some(
                SpecialKeyMatch::ImeOn,
            )
            &&& counts && is_one_of(v.ime_off_auto, event, held) && !is_one_of(
                v.ime_on_auto,
                event,
                held,
            ) ==> m == Some(SpecialKeyMatch::ImeOff)
            &&& counts && is_one_of(v.ime_toggle_auto, event, held) && !is_one_of(
                v.ime_on_auto,
                event,
                held,
            ) && !is_one_of(v.ime_off_auto, event, held) ==> m == Some(SpecialKeyMatch::ImeToggle)
            &&& !counts ==> m is None
            &&& !is_one_of(v.ime_on_auto, event, held) && !is_one_of(v.ime_off_auto, event, held)
                && !is_one_of(v.ime_toggle_auto, event, held) ==> m is None
        }),
{
    lemma_lists(v, event, ctx);
}

proof fn lemma_lists(v: EngineView, event: RawKeyEvent, ctx: InputContext)
    ensures
        ({
            let held = ctx.modifiers;
            let keys = v.special_keys;
            &&& engine::any_matches(keys.engine_on@, event, held) == is_one_of(
                keys.engine_on@,
                event,
                held,
            )
            &&& engine::any_matches(keys.engine_off@, event, held) == is_one_of(
                keys.engine_off@,
                event,
                held,
            )
            &&& engine::any_matches(keys.ime_on@, event, held) == is_one_of(
                keys.ime_on@,
                event,
                held,
            )
            &&& engine::any_matches(keys.ime_off@, event, held) == is_one_of(
                keys.ime_off@,
                event,
                held,
            )
            &&& engine::any_matches(keys.ime_toggle@, event, held) == is_one_of(
                keys.ime_toggle@,
                event,
                held,
            )
            &&& engine::any_matches(v.ime_on_auto, event, held) == is_one_of(
                v.ime_on_auto,
                event,
                held,
            )
            &&& engine::any_matches(v.ime_off_auto, event, held) == is_one_of(
                v.ime_off_auto,
                event,
                held,
            )
            &&& engine::any_matches(v.ime_toggle_auto, event, held) == is_one_of(
                v.ime_toggle_auto,
                event,
                held,
            )
        }),
{
    let held = ctx.modifiers;
    law_place_in_the_list_does_not_matter(v.special_keys.engine_on@, event, held);
    law_place_in_the_list_does_not_matter(v.special_keys.engine_off@, event, held);
    law_place_in_the_list_does_not_matter(v.special_keys.ime_on@, event, held);
    law_place_in_the_list_does_not_matter(v.special_keys.ime_off@, event, held);
    law_place_in_the_list_does_not_matter(v.special_keys.ime_toggle@, event, held);
    law_place_in_the_list_does_not_matter(v.ime_on_auto, event, held);
    law_place_in_the_list_does_not_matter(v.ime_off_auto, event, held);
    law_place_in_the_list_does_not_matter(v.ime_toggle_auto, event, held);
}

// ---- Engine keys ----

/// The last two effects close or open the IME for the user and announce the engine's new state.
pub open spec fn announces(effects: Seq<EffectView>, on: bool) -> bool {
    &&& effects.len() >= 2
    &&& asks(effects[effects.len() - 2], on)
    &&& effects[effects.len() - 1] == EffectView::Ui(
        UiEffect::EngineStateChanged { enabled: on, send_ime_key: true },
    )
}

/// An engine-off key stops an enabled engine. Where it was active, the IME is closed and the change
/// announced.
pub proof fn law_engine_off_key_stops(v: EngineView, event: RawKeyEvent, ctx: InputContext)
    requires
        is_new_key_down(v, event),
        v.fsm.enabled,
        is_one_of(v.special_keys.engine_off@, event, ctx.modifiers),
        v.active(ctx) || !is_one_of(v.special_keys.engine_on@, event, ctx.modifiers),
    ensures
        ({
            let (after, d) = v.input(event, ctx);
            &&& d is Consume
            &&& !after.fsm.enabled
            &&& !after.active(ctx)
            &&& v.active(ctx) ==> announces(d.effects(), false)
        }),
{
    lemma_lists(v, event, ctx);
    lemma_switched_off(v, ctx);
}

proof fn lemma_switched_off(v: EngineView, ctx: InputContext)
    requires
        v.fsm.enabled,
    ensures
        ({
            let (after, d) = v.switched_off(ctx);
            &&& d is Consume
            &&& !after.fsm.enabled
            &&& v.active(ctx) ==> announces(d.effects(), false)
        }),
{
}

/// An engine-on key starts an engine that is not active. Where the environment lets it work at once,
/// or would with the IME on, the IME is opened and the change announced.
pub proof fn law_engine_on_key_starts(v: EngineView, event: RawKeyEvent, ctx: InputContext)
    requires
        is_new_key_down(v, event),
        !v.active(ctx),
        is_one_of(v.special_keys.engine_on@, event, ctx.modifiers),
    ensures
        ({
            let (after, d) = v.input(event, ctx);
            &&& after.fsm.enabled
            &&& !(v.prev is Active) && ctx.is_japanese_ime && !(ctx.input_mode is ObservedKana)
                ==> announces(d.effects(), true) && after.prev is Active
            &&& d.effects().len() > 0
        }),
{
    lemma_lists(v, event, ctx);
    lemma_forced_on(v, ctx);
}

proof fn lemma_forced_on(v: EngineView, ctx: InputContext)
    requires
        !v.active(ctx),
    ensures
        ({
            let (after, d) = v.forced_on(ctx);
            &&& after.fsm.enabled
            &&& !(v.prev is Active) && ctx.is_japanese_ime && !(ctx.input_mode is ObservedKana)
                ==> announces(d.effects(), true) && after.prev is Active
            &&& d.effects().len() > 0
        }),
{
}

// ---- Activation ----

/// The engine works exactly where the user has enabled it and a Japanese IME is on that is not known
/// to take kana directly.
pub proof fn law_engine_works_with_a_japanese_ime_on(v: EngineView, ctx: InputContext)
    ensures
        v.active(ctx) <==> v.fsm.enabled && ctx.is_japanese_ime && ctx.ime_on && ctx.input_mode
            != InputModeState::ObservedKana,
        !v.fsm.enabled ==> v.state(ctx) == ActivationState::Inactive(InactiveReason::UserDisabled),
        v.fsm.enabled && !ctx.is_japanese_ime ==> v.state(ctx) == ActivationState::Inactive(
            InactiveReason::NotJapaneseIme,
        ),
        v.fsm.enabled && ctx.is_japanese_ime && !ctx.ime_on ==> v.state(ctx)
            == ActivationState::Inactive(InactiveReason::ImeOff),
{
}

/// A key that the engine has no part in goes through: an inactive engine that no change of the
/// environment concerns answers nothing, changes nothing but its record of the key, and passes on.
pub proof fn law_inactive_engine_is_transparent(
    v: EngineView,
    event: RawKeyEvent,
    ctx: InputContext,
)
    requires
        is_new_key_down(v, event),
        !v.active(ctx),
        !(v.prev is Active),
        v.special_match(ctx, event) is None,
    ensures
        v.input(event, ctx).1 == DecisionView::PassThrough,
        v.input(event, ctx).0.fsm == v.fsm,
        v.input(event, ctx).0.lifecycle.passed.contains(event.vk_code),
{
    let vk = event.vk_code;
    if !v.lifecycle.is_passed(vk) {
        let passed = v.lifecycle.key_down_passed(vk).passed;
        assert(passed.last() == vk);
        assert(passed[passed.len() - 1] == vk);
    }
}

/// An IME that is switched off under an active engine is asked to stay so by the engine itself, and
/// the change is announced; the same holds of an IME that goes on.
pub proof fn law_engine_follows_the_ime(v: EngineView, ctx: InputContext)
    requires
        v.fsm.enabled,
        ctx.is_japanese_ime,
        !(ctx.input_mode is ObservedKana),
        v.prev is Active != ctx.ime_on,
    ensures
        ({
            let (after, effects) = v.refreshed(ctx);
            let n = effects.len();
            &&& after.prev is Active == ctx.ime_on
            &&& n >= 2
            &&& effects[n - 2] == EffectView::Ime(
                ImeEffect::SetOpen { open: ctx.ime_on, origin: SetOpenOrigin::ActivationSync },
            )
            &&& effects[n - 1] == EffectView::Ui(
                UiEffect::EngineStateChanged { enabled: ctx.ime_on, send_ime_key: true },
            )
        }),
{
}

/// A request to turn the IME on or off leads there; a toggle leads away from where it is, and two of
/// them lead back.
pub proof fn law_open_requests_lead_where_they_say(ime_on: bool)
    ensures
        ShadowImeAction::TurnOn.target_spec(ime_on),
        !ShadowImeAction::TurnOff.target_spec(ime_on),
        ShadowImeAction::Toggle.target_spec(ime_on) != ime_on,
        ShadowImeAction::Toggle.target_spec(ShadowImeAction::Toggle.target_spec(ime_on)) == ime_on,
{
}

// ---- Held keys ----

/// A modifier key is held from its key-down until its key-up, and holds no other.
pub proof fn law_modifier_is_held_between_down_and_up(
    m: ModifierState,
    down: RawKeyEvent,
    up: RawKeyEvent,
)
    requires
        down.event_type is KeyDown,
        up.event_type is KeyUp,
        down.modifier_key is Some,
        up.modifier_key == down.modifier_key,
    ensures
        ({
            let a = m.updated(down);
            let b = a.updated(up);
            let key = down.modifier_key->0;
            &&& a.ctrl == (m.ctrl || key is Ctrl)
            &&& a.alt == (m.alt || key is Alt)
            &&& a.shift == (m.shift || key is Shift)
            &&& a.win == (m.win || key is Meta)
            &&& b.ctrl == (m.ctrl && !(key is Ctrl))
            &&& b.alt == (m.alt && !(key is Alt))
            &&& b.shift == (m.shift && !(key is Shift))
            &&& b.win == (m.win && !(key is Meta))
            &&& a.updated(down) == a
            &&& b.updated(up) == b
        }),
{
}

/// A thumb key is held since its first key-down, however often it repeats, until its key-up; the other
/// thumb key is not touched.
pub proof fn law_thumb_is_held_since_its_first_key_down(
    phys: PhysicalKeyState,
    down: RawKeyEvent,
    again: RawKeyEvent,
    up: RawKeyEvent,
)
    requires
        down.event_type is KeyDown,
        again.event_type is KeyDown,
        up.event_type is KeyUp,
        down.key_classification is LeftThumb || down.key_classification is RightThumb,
        again.key_classification == down.key_classification,
        up.key_classification == down.key_classification,
        down.key_classification is LeftThumb ==> phys.left_thumb_down is None,
        down.key_classification is RightThumb ==> phys.right_thumb_down is None,
    ensures
        ({
            let held = phys.after(down).after(again);
            let released = held.after(up);
            if down.key_classification is LeftThumb {
                &&& held.left_thumb_down == Some(down.timestamp)
                &&& held.right_thumb_down == phys.right_thumb_down
                &&& released.left_thumb_down is None
                &&& released.right_thumb_down == phys.right_thumb_down
            } else {
                &&& held.right_thumb_down == Some(down.timestamp)
                &&& held.left_thumb_down == phys.left_thumb_down
                &&& released.right_thumb_down is None
                &&& released.left_thumb_down == phys.left_thumb_down
            }
        }),
        phys.after(down).composing == phys.composing,
{
}

} // verus!
