//! What the program does with events, effects and held keys: laws.

use std::time::Duration;

use vstd::prelude::*;

use crate::engine::decision::{EffectView, ImeEffect, SetOpenOrigin, TimerEffect, UiEffect};
use crate::macos::app;
use crate::macos::app::{
    AppView, CgEvent, CgFlags, EventPlanView, FlushPlanView, HostActionView, HostState,
    MenuPlanView, TimerPlanView,
};
use crate::macos::event_loop::{MenuAction, TapAction};
use crate::macos::output;
use crate::timing;
use crate::types::{
    KeyAction, KeyEventType, ModifierKey, ModifierState, RawKeyEvent, ScanCode, SpecialKey, VkCode,
};

verus! {

// ---- Keys ----

/// The eisu and the kana key switch the IME, whether they go down or up, and no other action does.
pub proof fn law_switch_keys(vk: VkCode, c: char, sk: SpecialKey, s: String)
    ensures
        app::switches_ime(KeyAction::Key(vk)) <==> vk.0 == 0x66 || vk.0 == 0x68,
        app::switches_ime(KeyAction::KeyUp(vk)) <==> vk.0 == 0x66 || vk.0 == 0x68,
        !app::switches_ime(KeyAction::Char(c)),
        !app::switches_ime(KeyAction::SpecialKey(sk)),
        !app::switches_ime(KeyAction::Romaji(s)),
        !app::switches_ime(KeyAction::KeySequence(s)),
        !app::switches_ime(KeyAction::Suppress),
{
}

/// The kana key is expected to switch the IME on and the eisu key to switch it off; no other key is
/// expected to do anything.
pub proof fn law_switch_keys_are_expected_to_switch(a: AppView, keycode: u16, now: u64)
    ensures
        ({
            let after = a.expecting_from(keycode, now);
            &&& keycode == 0x68 ==> after.ime.pending is Some && after.ime.pending->0.expected
            &&& keycode == 0x66 ==> after.ime.pending is Some && !after.ime.pending->0.expected
            &&& keycode == 0x66 || keycode == 0x68 ==> after.ime.pending->0.started == now
                && after.ime.pending->0.confirmed is None && after.switch_recoveries == 0
            &&& keycode != 0x66 && keycode != 0x68 ==> after == a
        }),
{
}

/// Of the keys that a layout can send, enter and escape end a composition. Beside them the tab key and
/// the enter key of the keypad do.
pub proof fn law_keys_that_end_a_composition(sk: SpecialKey, keycode: u16)
    ensures
        app::ends_composition(output::special_keycode(sk)) <==> sk == SpecialKey::Enter || sk
            == SpecialKey::Escape,
        app::ends_composition(0x30),
        app::ends_composition(0x4C),
        app::ends_composition(keycode) ==> keycode == 0x30 || keycode == 0x4C || keycode
            == output::special_keycode(SpecialKey::Enter) || keycode == output::special_keycode(
            SpecialKey::Escape,
        ),
{
}

/// Only a key that goes down and goes through, and is no modifier, moves the focus: one that ends a
/// composition always, any other with Ctrl, Alt or Cmd. Shift alone moves nothing.
pub proof fn law_focus_moves_with_shortcuts(keycode: u16, held: ModifierState, is_modifier: bool)
    ensures
        !app::moves_focus(TapAction::Consume, keycode, KeyEventType::KeyDown, held, is_modifier),
        !app::moves_focus(TapAction::Pass, keycode, KeyEventType::KeyUp, held, is_modifier),
        !app::moves_focus(TapAction::Pass, keycode, KeyEventType::KeyDown, held, true),
        held.ctrl || held.alt || held.win ==> app::moves_focus(
            TapAction::Pass,
            keycode,
            KeyEventType::KeyDown,
            held,
            false,
        ),
        !held.ctrl && !held.alt && !held.win ==> app::moves_focus(
            TapAction::Pass,
            keycode,
            KeyEventType::KeyDown,
            held,
            false,
        ) == app::ends_composition(keycode),
{
}

/// A modifier key goes down where its own flag is set, whatever the other flags are.
pub proof fn law_flags_tell_the_direction(flags: CgFlags)
    ensures
        ({
            let way = |set: bool|
                if set {
                    KeyEventType::KeyDown
                } else {
                    KeyEventType::KeyUp
                };
            &&& app::modifier_direction(0x38, flags) == Some((ModifierKey::Shift, way(flags.shift)))
            &&& app::modifier_direction(0x3C, flags) == Some((ModifierKey::Shift, way(flags.shift)))
            &&& app::modifier_direction(0x3B, flags) == Some((ModifierKey::Ctrl, way(flags.control)))
            &&& app::modifier_direction(0x3E, flags) == Some((ModifierKey::Ctrl, way(flags.control)))
            &&& app::modifier_direction(0x3A, flags) == Some((ModifierKey::Alt, way(flags.alternate)))
            &&& app::modifier_direction(0x3D, flags) == Some((ModifierKey::Alt, way(flags.alternate)))
            &&& app::modifier_direction(0x37, flags) == Some((ModifierKey::Meta, way(flags.command)))
            &&& app::modifier_direction(0x36, flags) == Some((ModifierKey::Meta, way(flags.command)))
        }),
{
}

// ---- Events ----

/// A key that the program has not posted itself reaches the engine with its direction; anything else
/// that is no key goes on, and leaves the program as it is.
pub proof fn law_keys_reach_the_engine(a: AppView, ev: CgEvent, host: HostState)
    requires
        ev.user_data != output::INJECT_MARKER,
    ensures
        ev.kind is KeyDown ==> (a.event(ev, host).1 matches EventPlanView::Decided(_, t) && t
            == KeyEventType::KeyDown),
        ev.kind is KeyUp ==> (a.event(ev, host).1 matches EventPlanView::Decided(_, t) && t
            == KeyEventType::KeyUp),
        ev.kind is Other ==> a.event(ev, host) == (a, EventPlanView::Pass),
        ev.kind is FlagsChanged && app::modifier_direction(ev.keycode, ev.flags) is Some ==> (
        a.event(ev, host).1 matches EventPlanView::Decided(_, t) && t == (
        app::modifier_direction(ev.keycode, ev.flags)->0).1),
        ev.kind is FlagsChanged && app::modifier_direction(ev.keycode, ev.flags) is None
            ==> a.event(ev, host) == (a, EventPlanView::Pass),
{
}

/// What the engine is told of a key: its code, the direction, the time in microseconds, its class and
/// position, and the modifiers that are held.
pub proof fn law_events_are_told_as_they_are(
    a: AppView,
    ev: CgEvent,
    event_type: KeyEventType,
    host: HostState,
)
    ensures
        ({
            let raw = a.raw_event(ev, event_type, host);
            &&& raw.vk_code == VkCode(ev.keycode)
            &&& raw.scan_code == ScanCode(ev.keycode as u32)
            &&& raw.event_type == event_type
            &&& raw.timestamp * 1000 <= host.now < (raw.timestamp + 1) * 1000
            &&& raw.key_classification == a.thumbs.class_of(ev.keycode)
            &&& raw.physical_pos is Some <==> raw.key_classification is Char
            &&& raw.modifier_snapshot == a.phys.modifiers
            &&& !raw.injected
            &&& raw.ime_relevance.sync_direction is None
            &&& !raw.ime_relevance.is_ime_control
        }),
{
}

/// A key-down that ends a composition clears the hint, as an IME that is off does; any other key leaves
/// it.
pub proof fn law_composition_ends_with_its_keys(a: AppView, ev: CgEvent, host: HostState)
    requires
        ev.user_data != output::INJECT_MARKER,
        ev.kind is KeyDown,
    ensures
        ({
            let after = a.event(ev, host).0;
            &&& app::ends_composition(ev.keycode) ==> !after.output.composing_hint
            &&& a.ime_answer(host) == Some(false) ==> !after.output.composing_hint
            &&& !app::ends_composition(ev.keycode) && a.ime_answer(host) != Some(false)
                ==> after.output == a.output
            &&& after.deferred_keys == a.deferred_keys
        }),
{
}

/// The engine is told the state of the IME, one that cannot be told counting as on, and the keys that
/// are held.
pub proof fn law_context_is_what_is_seen(a: AppView, host: HostState)
    ensures
        ({
            let ctx = a.context(host);
            &&& a.ime_answer(host) matches Some(on) ==> ctx.ime_on == on
            &&& a.ime_answer(host) is None ==> ctx.ime_on
            &&& ctx.modifiers == a.phys.modifiers
            &&& ctx.left_thumb_down == a.phys.left_thumb_down
            &&& ctx.right_thumb_down == a.phys.right_thumb_down
            &&& !(ctx.input_mode is ObservedKana)
        }),
{
}

/// A key-down that goes through is reported, so that a switch can be expected of it.
pub proof fn law_passed_key_downs_are_reported(
    a: AppView,
    keycode: u16,
    event_type: KeyEventType,
    action: TapAction,
)
    ensures
        a.settled(keycode, event_type, action).1 == (if action == TapAction::Pass && event_type
            == KeyEventType::KeyDown {
            Some(keycode)
        } else {
            None
        }),
{
}

// ---- Effects ----

/// The user's request of the IME is carried out, and the engine's own is not: the IME is in that state
/// already.
pub proof fn law_only_the_user_switches_the_ime(a: AppView, open: bool, host: HostState)
    ensures
        a.effect(
            EffectView::Ime(ImeEffect::SetOpen { open, origin: SetOpenOrigin::ExplicitUserAction }),
            host,
        ) == (a, seq![HostActionView::SelectSource(open)]),
        a.effect(
            EffectView::Ime(ImeEffect::SetOpen { open, origin: SetOpenOrigin::ActivationSync }),
            host,
        ) == (a, Seq::<HostActionView>::empty()),
{
}

/// Timers are started and stopped as the engine asks, and its state is shown.
pub proof fn law_timers_and_state_are_handed_on(
    a: AppView,
    id: usize,
    duration: Duration,
    enabled: bool,
    send_ime_key: bool,
    host: HostState,
)
    ensures
        a.effect(EffectView::Timer(TimerEffect::Start { id, duration }), host) == (
            a,
            seq![HostActionView::StartTimer(id, duration)],
        ),
        a.effect(EffectView::Timer(TimerEffect::Kill(id)), host) == (
            a,
            seq![HostActionView::KillTimer(id)],
        ),
        a.effect(
            EffectView::Ui(UiEffect::EngineStateChanged { enabled, send_ime_key }),
            host,
        ) == (a, seq![HostActionView::ShowEnabled(enabled)]),
{
}

/// A key that is given back goes out with its direction; before a key-down a switch is expected of it.
pub proof fn law_keys_are_given_back(a: AppView, ev: RawKeyEvent, host: HostState)
    ensures
        ({
            let (after, actions) = a.effect(EffectView::ReinjectKey(ev), host);
            &&& after == a
            &&& actions.len() == (if ev.event_type is KeyDown {
                2nat
            } else {
                1
            })
            &&& actions.last() == HostActionView::Reinject(ev.vk_code, ev.event_type)
            &&& ev.event_type is KeyDown ==> actions[0] == HostActionView::ExpectFromKey(
                ev.vk_code.0,
            )
        }),
{
}

/// Where no switch is under way and nothing is held, keys go out at once and nothing is held.
pub proof fn law_keys_go_out_at_once(a: AppView, keys: Seq<KeyAction>, host: HostState)
    requires
        a.looked(host).ime.pending is None,
        a.deferred_keys.len() == 0,
        !app::any_switches_ime(keys),
    ensures
        a.effect(EffectView::SendKeys(keys), host).1 == seq![HostActionView::Send(keys)],
        a.effect(EffectView::SendKeys(keys), host).0.deferred_keys == a.deferred_keys,
{
}

/// The first keys that are held fix the process and the state of the IME that they wait for; later ones
/// change neither.
pub proof fn law_first_held_keys_fix_the_place(a: AppView, keys: Seq<KeyAction>, host: HostState)
    ensures
        ({
            let after = a.deferring(keys, host);
            &&& a.deferred_keys.len() == 0 ==> after.deferred_focus_pid == host.frontmost_pid
                && after.deferred_since == Some(host.now) && (after.deferred_expect_on is Some
                <==> a.ime.pending is Some) && (a.ime.pending is Some ==> after.deferred_expect_on
                == Some(a.ime.pending->0.expected))
            &&& a.deferred_keys.len() > 0 ==> after.deferred_focus_pid == a.deferred_focus_pid
                && after.deferred_since == a.deferred_since && after.deferred_expect_on
                == a.deferred_expect_on
        }),
{
}

/// Before actions go out, a switch is expected of each key that they press, in order, and of no other.
pub proof fn law_presses_are_expected_in_order(
    a: Seq<KeyAction>,
    b: Seq<KeyAction>,
    action: KeyAction,
)
    ensures
        app::expectations(a + b) == app::expectations(a) + app::expectations(b),
        app::expectations(seq![action]) == (match action {
            KeyAction::Key(vk) => seq![HostActionView::ExpectFromKey(vk.0)],
            _ => Seq::empty(),
        }),
    decreases b.len(),
{
    assert(seq![action].drop_last() =~= Seq::empty());
    assert(seq![action].last() == action);
    assert(app::expectations(Seq::empty()) =~= Seq::empty());
    assert(app::expectations(seq![action]) =~= (match action {
        KeyAction::Key(vk) => seq![HostActionView::ExpectFromKey(vk.0)],
        _ => Seq::empty(),
    }));
    if b.len() == 0 {
        assert(a + b =~= a);
        assert(app::expectations(a) + app::expectations(b) =~= app::expectations(a));
    } else {
        law_presses_are_expected_in_order(a, b.drop_last(), action);
        assert((a + b).drop_last() =~= a + b.drop_last());
        assert(app::expectations(a + b) =~= app::expectations(a) + app::expectations(b));
    }
}

// ---- Held keys ----

/// Held keys go out as soon as no switch is under way, the IME is in the state that they wait for and
/// the process in front is theirs.
pub proof fn law_held_keys_go_out(a: AppView, host: HostState)
    requires
        a.deferred_keys.len() > 0,
        a.looked(host).ime.pending is None,
        a.deferred_expect_on is None || a.looked(host).ime_answer(host) == a.deferred_expect_on,
        a.deferred_focus_pid is Some,
        host.frontmost_pid == a.deferred_focus_pid,
    ensures
        a.flush(host).1 == FlushPlanView::Send(a.output.actions_posted(a.deferred_keys).posts),
        a.flush(host).0.output.composing_hint == a.output.actions_posted(
            a.deferred_keys,
        ).composing,
        a.flush(host).0.deferred_keys.len() == 0,
{
}

/// Where the switch that held keys wait for was not observed, it is asked for again twice; then the
/// keys are dropped.
pub proof fn law_held_keys_ask_again_twice(a: AppView, host: HostState)
    requires
        a.deferred_keys.len() > 0,
        a.looked(host).ime.pending is None,
        a.deferred_expect_on is Some,
        a.looked(host).ime_answer(host) != a.deferred_expect_on,
    ensures
        a.deferred_switch_reasserts < 2 ==> a.flush(host).1 == FlushPlanView::Reassert(
            a.deferred_expect_on->0,
        ),
        a.deferred_switch_reasserts >= 2 ==> a.flush(host).1 == FlushPlanView::Discarded,
{
}

/// Asking again is counted and expected to work; where it is refused the keys are dropped.
pub proof fn law_refused_switch_drops_the_keys(a: AppView, open: bool, now: u64)
    requires
        a.wf(),
        a.deferred_switch_reasserts < 2,
    ensures
        ({
            let asked = a.reasserted(open, true, now);
            let refused = a.reasserted(open, false, now);
            &&& asked.deferred_keys == a.deferred_keys
            &&& asked.ime.pending is Some
            &&& asked.ime.pending->0.expected == open
            &&& asked.ime.pending->0.started == now
            &&& asked.deferred_switch_reasserts == a.deferred_switch_reasserts + 1
            &&& refused.deferred_keys.len() == 0
            &&& refused.deferred_expect_on is None
            &&& refused.deferred_focus_pid is None
            &&& refused.deferred_since is None
            &&& refused.ime == a.ime
        }),
{
}

/// A switch that failed while nothing is held is asked for again, twice.
pub proof fn law_failed_switch_is_asked_for_again(a: AppView, host: HostState, now: u64)
    requires
        a.wf(),
        a.deferred_keys.len() == 0,
        a.looked(host).ime.failed_switch is Some,
    ensures
        ({
            let (after, open) = a.recovery(host);
            &&& a.switch_recoveries < 2 ==> open == a.looked(host).ime.failed_switch
            &&& a.switch_recoveries >= 2 ==> open is None
            &&& a.switch_recoveries < 2 ==> after.recovered(open->0, true, now).switch_recoveries
                == a.switch_recoveries + 1
            &&& a.switch_recoveries < 2 ==> after.recovered(open->0, true, now).ime.pending is Some
                && after.recovered(open->0, true, now).ime.pending->0.expected == open->0
            &&& after.recovered(open->0, false, now) == after
        }),
{
}

/// The flush timer looks again after 20 milliseconds while a switch is under way, and lets the held keys
/// be looked at once it is over. Every other timer is the engine's.
pub proof fn law_timers(a: AppView, id: usize, host: HostState)
    ensures
        app::flush_timer() == HostActionView::StartTimer(
            app::FLUSH_TIMER_ID,
            timing::micros(20_000),
        ),
        a.timer(app::FLUSH_TIMER_ID, host).1 == (if a.looked(host).ime.pending is Some {
            TimerPlanView::Retry
        } else {
            TimerPlanView::Flush
        }),
        a.timer(app::FLUSH_TIMER_ID, host).0.engine == a.engine,
        id != app::FLUSH_TIMER_ID ==> a.timer(id, host).1 is Decided,
        app::FLUSH_TIMER_ID == usize::MAX,
        app::DEFER_CAP == 128,
{
}

/// The menu's entry for the engine turns it over, and that for the login item leaves the program as it
/// is.
pub proof fn law_menu(a: AppView, host: HostState)
    ensures
        a.menu(MenuAction::ToggleEngine, host).0.engine.fsm.enabled == !a.engine.fsm.enabled,
        a.menu(MenuAction::ToggleEngine, host).1 is Decided,
        a.menu(MenuAction::ToggleLoginItem, host) == (a, MenuPlanView::ToggleLoginItem),
{
}

} // verus!
