//! What holds of the program across calls.

use vstd::prelude::*;

use crate::engine::decision::EffectView;
use crate::macos::app;
use crate::macos::app::{
    AppView, CgEvent, CgEventKind, EventPlanView, FlushPlanView, HostActionView, HostState,
    DEFER_CAP, MAX_SWITCH_REASSERTS,
};
use crate::macos::event_loop::TapAction;
use crate::macos::hook;
use crate::macos::hook::{KEYCODE_EISU, KEYCODE_KANA};
use crate::macos::output::INJECT_MARKER;
use crate::types::{KeyAction, KeyEventType, VkCode};

verus! {

/// Held keys go out only once no switch is under way, the IME is in the state that they wait for,
/// and the process in front is known to be the one they were typed for. All of them go out, in
/// order, and none stays behind.
pub proof fn law_held_keys_go_out_fail_closed(a: AppView, host: HostState)
    ensures
        a.flush(host).1 matches FlushPlanView::Send(posts) ==> {
            &&& a.looked(host).ime.pending is None
            &&& a.deferred_expect_on is Some ==> a.looked(host).ime_answer(host)
                == a.deferred_expect_on
            &&& a.deferred_focus_pid is Some
            &&& a.deferred_focus_pid == host.frontmost_pid
            &&& posts == a.output.actions_posted(a.deferred_keys).posts
        },
        a.flush(host).1 is Send || a.flush(host).1 is Discarded ==> a.flush(host).0.deferred_keys
            == Seq::<KeyAction>::empty(),
        a.flush(host).1 is Nothing || a.flush(host).1 is Reassert ==> a.flush(host).0.deferred_keys
            == a.deferred_keys,
{
}

/// Where the process in front is another one, or is not known on either side, the held keys never
/// go out.
pub proof fn law_held_keys_do_not_change_place(a: AppView, host: HostState)
    requires
        a.deferred_focus_pid is None || host.frontmost_pid is None || a.deferred_focus_pid
            != host.frontmost_pid,
    ensures
        !(a.flush(host).1 is Send),
{
}

/// While a switch is under way no key goes out but those that switch the IME: the others are put
/// behind what is held already.
pub proof fn law_nothing_overtakes_a_switch(a: AppView, keys: Seq<KeyAction>, host: HostState)
    requires
        a.looked(host).ime.pending is Some || a.deferred_keys.len() > 0,
        !app::any_switches_ime(keys),
    ensures
        a.effect(EffectView::SendKeys(keys), host).1 == seq![app::flush_timer()],
        a.deferred_keys.len() + keys.len() <= DEFER_CAP ==> a.effect(
            EffectView::SendKeys(keys),
            host,
        ).0.deferred_keys == a.deferred_keys + keys,
        a.deferred_keys.len() + keys.len() > DEFER_CAP ==> a.effect(
            EffectView::SendKeys(keys),
            host,
        ).0.deferred_keys == a.deferred_keys,
{
}

/// A key that switches the IME is never held back: it goes out at once, or not at all.
pub proof fn law_switch_keys_are_not_held(a: AppView, keys: Seq<KeyAction>, host: HostState)
    requires
        app::any_switches_ime(keys),
    ensures
        a.effect(EffectView::SendKeys(keys), host).0 == a,
        app::superseded(a.phys, keys) ==> a.effect(EffectView::SendKeys(keys), host).1.len() == 0,
        !app::superseded(a.phys, keys) ==> a.effect(EffectView::SendKeys(keys), host).1.last()
            == HostActionView::Send(keys),
{
}

/// While both thumb keys are held, the switch of the one pressed first is dropped and that of the
/// one pressed last goes out.
pub proof fn law_later_thumb_key_wins(a: AppView, host: HostState)
    requires
        a.phys.left_thumb_down is Some,
        a.phys.right_thumb_down is Some,
        a.phys.left_thumb_down->0 != a.phys.right_thumb_down->0,
    ensures
        ({
            let eisu = seq![KeyAction::Key(VkCode(KEYCODE_EISU))];
            let kana = seq![KeyAction::Key(VkCode(KEYCODE_KANA))];
            let right_last = a.phys.right_thumb_down->0 > a.phys.left_thumb_down->0;
            let (first, last) = if right_last {
                (eisu, kana)
            } else {
                (kana, eisu)
            };
            &&& a.effect(EffectView::SendKeys(first), host).1.len() == 0
            &&& a.effect(EffectView::SendKeys(last), host).1.last() == HostActionView::Send(last)
        }),
{
    let eisu = seq![KeyAction::Key(VkCode(KEYCODE_EISU))];
    let kana = seq![KeyAction::Key(VkCode(KEYCODE_KANA))];
    let left_at = a.phys.left_thumb_down->0;
    let right_at = a.phys.right_thumb_down->0;
    assert(app::switches_ime(eisu[0]));
    assert(app::switches_ime(kana[0]));
    assert(app::overtaken(eisu[0], left_at, right_at) == (right_at > left_at));
    assert(app::overtaken(kana[0], left_at, right_at) == (left_at > right_at));
}

/// However the program is driven, the queue stays within its bound and a switch is asked for again
/// a bounded number of times.
pub proof fn law_bounds_are_kept(
    a: AppView,
    ev: CgEvent,
    effect: EffectView,
    keycode: u16,
    event_type: KeyEventType,
    action: TapAction,
    open: bool,
    selected: bool,
    host: HostState,
)
    requires
        a.wf(),
    ensures
        a.looked(host).wf(),
        a.event(ev, host).0.wf(),
        a.effect(effect, host).0.wf(),
        a.settled(keycode, event_type, action).0.wf(),
        a.expecting_from(keycode, host.now).wf(),
        a.flush(host).0.wf(),
        a.flush(host).1 is Reassert ==> a.flush(host).0.reasserted(open, selected, host.now).wf(),
        a.recovery(host).0.wf(),
        a.recovery(host).1 is Some ==> a.recovery(host).0.recovered(
            open,
            selected,
            host.now,
        ).wf(),
{
}

/// A switch that keys wait for is asked for again only so often: each time counts, and at the
/// limit the keys are sent or dropped.
pub proof fn law_reasserts_come_to_an_end(a: AppView, host: HostState, now: u64)
    requires
        a.wf(),
    ensures
        a.flush(host).1 matches FlushPlanView::Reassert(open) ==> {
            &&& a.deferred_switch_reasserts < MAX_SWITCH_REASSERTS
            &&& a.deferred_expect_on == Some(open)
            &&& a.flush(host).0.reasserted(open, true, now).deferred_switch_reasserts
                == a.deferred_switch_reasserts + 1
        },
        a.deferred_switch_reasserts == MAX_SWITCH_REASSERTS && a.looked(host).ime.pending is None
            && a.deferred_keys.len() > 0 ==> a.flush(host).1 is Send || a.flush(host).1 is Discarded,
{
}

/// A switch is recovered only where no keys wait for it, and then only so often until the user
/// presses a switch key again.
pub proof fn law_recoveries_come_to_an_end(a: AppView, host: HostState, keycode: u16)
    ensures
        a.recovery(host).1 is Some ==> a.deferred_keys.len() == 0 && a.switch_recoveries
            < MAX_SWITCH_REASSERTS,
        a.recovery(host).0.ime.failed_switch is None,
        hook::is_switch_key(keycode) ==> a.expecting_from(keycode, host.now).switch_recoveries == 0,
{
}

/// A click drops the held keys and ends the composition.
pub proof fn law_click_drops_held_keys(a: AppView, ev: CgEvent, host: HostState)
    requires
        ev.kind is MouseDown,
    ensures
        a.event(ev, host).0.deferred_keys == Seq::<KeyAction>::empty(),
        !a.event(ev, host).0.output.composing_hint,
        a.event(ev, host).1 == EventPlanView::Pass,
{
}

/// A key that goes through and may move the focus drops the held keys. Any other leaves them as
/// they are, a modifier key on its own among them.
pub proof fn law_moved_focus_drops_held_keys(
    a: AppView,
    keycode: u16,
    event_type: KeyEventType,
    action: TapAction,
)
    ensures
        ({
            let moved = app::moves_focus(
                action,
                keycode,
                event_type,
                a.phys.modifiers,
                hook::modifier_of(keycode) is Some,
            );
            let after = a.settled(keycode, event_type, action).0;
            &&& moved ==> after.deferred_keys == Seq::<KeyAction>::empty()
            &&& !moved ==> after == a
            &&& hook::modifier_of(keycode) is Some ==> after == a
        }),
{
}

/// Events that the program has posted itself do not reach the engine.
pub proof fn law_own_events_bypass_the_engine(a: AppView, ev: CgEvent, host: HostState)
    requires
        ev.user_data == INJECT_MARKER,
        ev.kind != CgEventKind::MouseDown,
    ensures
        a.event(ev, host).0 == a,
        a.event(ev, host).1 is Injected,
{
}

} // verus!
