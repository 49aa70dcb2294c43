//! What keys and strokes send: the laws of the state machine, over the faces of the layout.

use vstd::prelude::*;

use crate::engine::fsm_types::{
    ComposingHint, EngineState, PendingKey, PendingThumbData, ThumbSide, TimerIntent,
    TIMER_PENDING, TIMER_SPECULATIVE,
};
use crate::engine::input_tracker::PhysicalKeyState;
use crate::engine::nicola_fsm;
use crate::engine::nicola_fsm::{FsmStep, NicolaFsm};
use crate::scanmap::PhysicalPos;
use crate::types::{KeyAction, RawKeyEvent, SpecialKey, Timestamp, VkCode};
use crate::yab::YabLayout;

verus! {

/// A key-down that neither the OS nor the IME has a use for.
pub open spec fn is_typing(e: RawKeyEvent, phys: PhysicalKeyState) -> bool {
    &&& e.event_type is KeyDown
    &&& !(e.key_classification is Passthrough)
    &&& !e.ime_relevance.is_ime_control
    &&& !phys.modifiers.ctrl && !phys.modifiers.alt && !phys.modifiers.win
}

pub open spec fn types_character(e: RawKeyEvent, phys: PhysicalKeyState) -> bool {
    is_typing(e, phys) && e.key_classification is Char
}

/// A thumb key that is not about to be typed as text.
pub open spec fn types_thumb(fsm: NicolaFsm, e: RawKeyEvent, phys: PhysicalKeyState) -> bool {
    &&& is_typing(e, phys)
    &&& e.key_classification is LeftThumb || e.key_classification is RightThumb
    &&& phys.modifiers.shift ==> fsm.space_thumb_vk != Some(e.vk_code) && fsm.enter_thumb_vk
        != Some(e.vk_code)
}

/// The action of a position on the face without thumb keys.
pub open spec fn plain(layout: YabLayout, pos: Option<PhysicalPos>) -> Option<KeyAction> {
    match pos {
        Some(p) => layout.normal.action_at(p),
        None => None,
    }
}

/// The action of a position together with a thumb key: that of the thumb's face, or with shift that
/// of the face of both, where it is in use and holds the position.
pub open spec fn stroke_of(
    fsm: NicolaFsm,
    side: ThumbSide,
    shift: bool,
    pos: Option<PhysicalPos>,
) -> Option<KeyAction> {
    match pos {
        None => None,
        Some(p) => {
            let (thumb, both) = match side {
                ThumbSide::Left => (
                    fsm.layout.left_thumb.action_at(p),
                    fsm.layout.left_thumb_shift.action_at(p),
                ),
                ThumbSide::Right => (
                    fsm.layout.right_thumb.action_at(p),
                    fsm.layout.right_thumb_shift.action_at(p),
                ),
            };
            if shift && fsm.thumb_shift_faces_enabled && both is Some {
                both
            } else {
                thumb
            }
        },
    }
}

pub open spec fn side_of(e: RawKeyEvent) -> ThumbSide {
    if e.key_classification is LeftThumb {
        ThumbSide::Left
    } else {
        ThumbSide::Right
    }
}

/// At most one action.
pub open spec fn one(a: Option<KeyAction>) -> Seq<KeyAction> {
    match a {
        Some(x) => seq![x],
        None => Seq::empty(),
    }
}

/// The waiting character key is that of the event.
pub open spec fn key_of(k: PendingKey, e: RawKeyEvent) -> bool {
    k.vk_code == e.vk_code && k.scan_code == e.scan_code && k.pos == e.physical_pos && k.timestamp
        == e.timestamp
}

/// The waiting thumb key is that of the event.
pub open spec fn thumb_of(t: PendingThumbData, e: RawKeyEvent) -> bool {
    t.vk_code == e.vk_code && t.scan_code == e.scan_code && t.timestamp == e.timestamp
        && t.modifier_key == e.modifier_key && t.is_left == e.key_classification is LeftThumb
}

pub open spec fn idle(fsm: NicolaFsm) -> NicolaFsm {
    NicolaFsm { state: EngineState::Idle, ..fsm }
}

/// What the machine answers to an event, and what becomes of it.
#[verifier::opaque]
pub open spec fn answered(fsm: NicolaFsm, e: RawKeyEvent, phys: PhysicalKeyState) -> FsmStep {
    fsm.event_step(e, phys)
}

#[verifier::opaque]
spec fn down(f: NicolaFsm, e: RawKeyEvent, phys: PhysicalKeyState) -> FsmStep {
    f.key_down(nicola_fsm::classified(e), phys)
}

#[verifier::opaque]
spec fn looked_at_afresh(f: NicolaFsm, e: RawKeyEvent, phys: PhysicalKeyState) -> FsmStep {
    f.idle_down(nicola_fsm::classified(e), phys)
}

#[verifier::opaque]
spec fn counted(fsm: NicolaFsm, e: RawKeyEvent) -> NicolaFsm {
    if e.vk_code == fsm.engine_off_solo_repeat_vk {
        fsm
    } else {
        NicolaFsm { solo_repeats: 0, ..fsm }
    }
}

proof fn lemma_faces(fsm: NicolaFsm, side: ThumbSide, shift: bool, pos: Option<PhysicalPos>)
    ensures
        fsm.on_face(crate::engine::fsm_types::Face::Normal, pos) == plain(fsm.layout, pos),
        fsm.chord(pos, side, shift) == stroke_of(fsm, side, shift, pos),
{
}

/// A typed key reaches the machine's key-down, and remembering what was sent changes nothing of the
/// answer.
proof fn lemma_typing(fsm: NicolaFsm, e: RawKeyEvent, phys: PhysicalKeyState)
    requires
        fsm.enabled,
        is_typing(e, phys),
    ensures
        ({
            let step = answered(fsm, e, phys);
            let reply = down(counted(fsm, e), e, phys);
            &&& step.actions == reply.actions
            &&& step.consumed == reply.consumed
            &&& step.timer == reply.timer
            &&& step.fsm.state == reply.fsm.state
            &&& step.fsm.left_thumb_consumed == reply.fsm.left_thumb_consumed
            &&& step.fsm.right_thumb_consumed == reply.fsm.right_thumb_consumed
            &&& step.fsm.enabled == reply.fsm.enabled
            &&& step.fsm.layout == reply.fsm.layout
            &&& step.fsm.threshold_us == reply.fsm.threshold_us
            &&& step.fsm.window_us == reply.fsm.window_us
        }),
{
    reveal(answered);
    reveal(down);
    reveal(counted);
}

proof fn lemma_counted(fsm: NicolaFsm, e: RawKeyEvent)
    ensures
        ({
            let f = counted(fsm, e);
            &&& f == NicolaFsm { solo_repeats: f.solo_repeats, ..fsm }
            &&& idle(f) == counted(idle(fsm), e)
            &&& idle(f).state is Idle
        }),
{
    reveal(counted);
}

proof fn lemma_settled_character(fsm: NicolaFsm, k: PendingKey, hint: ComposingHint, shift: bool)
    requires
        fsm.state == EngineState::PendingChar(k),
    ensures
        fsm.settled(hint, shift) == (idle(fsm), one(plain(fsm.layout, k.pos))),
{
}

/// Where no stroke comes of a character key, what waits is settled and the key is looked at afresh.
proof fn lemma_goes_on(f: NicolaFsm, e: RawKeyEvent, phys: PhysicalKeyState)
    requires
        e.key_classification is Char,
        f.state is Idle || f.state is PendingChar || f.state is SpeculativeChar,
    ensures
        down(f, e, phys) == f.settle_and_go_on(nicola_fsm::classified(e), phys),
{
    reveal(down);
}

proof fn lemma_first_and_rest(f: NicolaFsm, e: RawKeyEvent, phys: PhysicalKeyState)
    ensures
        ({
            let (after, first) = f.settled(
                ComposingHint::Trusted(phys.composing),
                phys.modifiers.shift,
            );
            let step = f.settle_and_go_on(nicola_fsm::classified(e), phys);
            let rest = looked_at_afresh(after, e, phys);
            &&& step.actions == first + rest.actions
            &&& step.actions.subrange(0, first.len() as int) == first
            &&& first.len() == 0 ==> step.actions == rest.actions
            &&& step.consumed == (rest.consumed || first.len() > 0)
            &&& step.timer == rest.timer
            &&& step.fsm == rest.fsm
        }),
{
    reveal(looked_at_afresh);
    let (after, first) = f.settled(ComposingHint::Trusted(phys.composing), phys.modifiers.shift);
    let rest = looked_at_afresh(after, e, phys);
    assert((first + rest.actions).subrange(0, first.len() as int) =~= first);
    if first.len() == 0 {
        assert(first + rest.actions =~= rest.actions);
    }
}

proof fn lemma_next_down(f: NicolaFsm, e: RawKeyEvent, phys: PhysicalKeyState)
    requires
        e.key_classification is Char,
        f.state is Idle || f.state is PendingChar || f.state is SpeculativeChar,
    ensures
        ({
            let step = down(f, e, phys);
            let rest = looked_at_afresh(idle(f), e, phys);
            let first = match f.state {
                EngineState::PendingChar(k) => one(plain(f.layout, k.pos)),
                _ => Seq::empty(),
            };
            &&& step.actions == first + rest.actions
            &&& first.len() == 0 ==> step.actions == rest.actions
            &&& step.consumed == (rest.consumed || first.len() > 0)
            &&& step.timer == rest.timer
            &&& step.fsm == rest.fsm
        }),
{
    lemma_goes_on(f, e, phys);
    lemma_first_and_rest(f, e, phys);
}

/// A character key goes down where it makes no stroke.
proof fn lemma_next_character(fsm: NicolaFsm, e: RawKeyEvent, phys: PhysicalKeyState)
    requires
        fsm.enabled,
        types_character(e, phys),
        fsm.state is Idle || fsm.state is PendingChar || fsm.state is SpeculativeChar,
    ensures
        ({
            let step = answered(fsm, e, phys);
            let rest = looked_at_afresh(counted(idle(fsm), e), e, phys);
            let first = match fsm.state {
                EngineState::PendingChar(k) => one(plain(fsm.layout, k.pos)),
                _ => Seq::empty(),
            };
            &&& step.actions == first + rest.actions
            &&& first.len() == 0 ==> step.actions == rest.actions
            &&& step.consumed == (rest.consumed || first.len() > 0)
            &&& step.timer == rest.timer
            &&& step.fsm.state == rest.fsm.state
            &&& step.fsm.enabled == rest.fsm.enabled
            &&& step.fsm.layout == rest.fsm.layout
            &&& step.fsm.left_thumb_consumed == rest.fsm.left_thumb_consumed
            &&& step.fsm.right_thumb_consumed == rest.fsm.right_thumb_consumed
        }),
{
    lemma_counted(fsm, e);
    lemma_typing(fsm, e, phys);
    lemma_next_down(counted(fsm, e), e, phys);
}

// ---- A waiting character ----

/// No keystroke is lost: where a character key waits and another one goes down, the waiting one is
/// sent first, and the other is treated as in an idle machine.
pub proof fn law_waiting_character_is_sent_before_the_next(
    fsm: NicolaFsm,
    k: PendingKey,
    e: RawKeyEvent,
    phys: PhysicalKeyState,
)
    requires
        fsm.enabled,
        fsm.state == EngineState::PendingChar(k),
        plain(fsm.layout, k.pos) is Some,
        types_character(e, phys),
    ensures
        ({
            let step = answered(fsm, e, phys);
            let fresh = answered(idle(fsm), e, phys);
            &&& step.consumed
            &&& step.actions.len() >= 1
            &&& step.actions[0] == plain(fsm.layout, k.pos)->0
            &&& step.actions == seq![plain(fsm.layout, k.pos)->0] + fresh.actions
            &&& step.fsm.state == fresh.fsm.state
            &&& step.timer == fresh.timer
        }),
{
    lemma_next_character(fsm, e, phys);
    lemma_next_character(idle(fsm), e, phys);
    assert(idle(idle(fsm)) == idle(fsm));
}

/// What was sent on speculation is not sent again by the next character key.
pub proof fn law_speculated_character_is_not_sent_again(
    fsm: NicolaFsm,
    k: PendingKey,
    e: RawKeyEvent,
    phys: PhysicalKeyState,
)
    requires
        fsm.enabled,
        fsm.state == EngineState::SpeculativeChar(k),
        types_character(e, phys),
    ensures
        ({
            let step = answered(fsm, e, phys);
            let fresh = answered(idle(fsm), e, phys);
            &&& step.actions == fresh.actions
            &&& step.consumed == fresh.consumed
            &&& step.fsm.state == fresh.fsm.state
        }),
{
    lemma_next_character(fsm, e, phys);
    lemma_next_character(idle(fsm), e, phys);
    assert(idle(idle(fsm)) == idle(fsm));
}

/// A waiting character is sent when its time is up, and then nothing waits any more; what was sent on
/// speculation is final then.
pub proof fn law_time_settles_a_character(
    fsm: NicolaFsm,
    k: PendingKey,
    phys: PhysicalKeyState,
    composing: bool,
)
    requires
        fsm.state == EngineState::PendingChar(k) || fsm.state == EngineState::SpeculativeChar(k),
    ensures
        ({
            let step = fsm.timeout_step(TIMER_PENDING, phys, composing);
            &&& step.actions == (if fsm.state is PendingChar {
                one(plain(fsm.layout, k.pos))
            } else {
                Seq::empty()
            })
            &&& step.fsm.state is Idle
            &&& step.consumed
            &&& step.timer is CancelAll
        }),
{
}

/// The short timer sends a waiting character on speculation, and the rest of its window is still
/// waited for. Any other timer does nothing.
pub proof fn law_short_timer_sends_on_speculation(
    fsm: NicolaFsm,
    k: PendingKey,
    phys: PhysicalKeyState,
    composing: bool,
    other: usize,
)
    requires
        fsm.state == EngineState::PendingChar(k),
        other != TIMER_PENDING && other != TIMER_SPECULATIVE,
    ensures
        ({
            let step = fsm.timeout_step(TIMER_SPECULATIVE, phys, composing);
            &&& step.actions == one(plain(fsm.layout, k.pos))
            &&& step.fsm.state == EngineState::SpeculativeChar(k)
            &&& step.timer matches TimerIntent::Phase2Transition { remaining_us } && remaining_us
                == (if fsm.window_us > fsm.speculative_delay_us {
                fsm.window_us - fsm.speculative_delay_us
            } else {
                0
            })
        }),
        fsm.timeout_step(other, phys, composing).fsm == fsm,
        fsm.timeout_step(other, phys, composing).actions == Seq::<KeyAction>::empty(),
        fsm.timeout_step(other, phys, composing).timer is Keep,
{
}

/// The release of a waiting character key sends it; the release of another key changes nothing.
pub proof fn law_release_settles_a_character(
    fsm: NicolaFsm,
    k: PendingKey,
    e: RawKeyEvent,
    phys: PhysicalKeyState,
)
    requires
        fsm.enabled,
        fsm.state == EngineState::PendingChar(k),
        e.event_type is KeyUp,
    ensures
        ({
            let step = answered(fsm, e, phys);
            if e.vk_code == k.vk_code {
                &&& step.actions == one(plain(fsm.layout, k.pos))
                &&& step.consumed
                &&& step.fsm.state is Idle
                &&& step.timer is CancelAll
            } else {
                &&& step.actions == Seq::<KeyAction>::empty()
                &&& !step.consumed
                &&& step.fsm == fsm
                &&& step.timer is Keep
            }
        }),
{
    reveal(answered);
}

proof fn lemma_bypassing(fsm: NicolaFsm, e: RawKeyEvent, phys: PhysicalKeyState)
    requires
        fsm.enabled,
        e.event_type is KeyDown,
        !is_typing(e, phys),
    ensures
        ({
            let step = answered(fsm, e, phys);
            let down = fsm.bypass(nicola_fsm::classified(e), phys);
            &&& step == down.remembered()
            &&& step.actions == down.actions
            &&& step.consumed == down.consumed
            &&& step.timer == down.timer
            &&& step.fsm.state == down.fsm.state
        }),
{
    reveal(answered);
}

/// A key for the OS or the IME goes through, after the character that waits.
pub proof fn law_other_keys_go_through_after_a_character(
    fsm: NicolaFsm,
    e: RawKeyEvent,
    phys: PhysicalKeyState,
)
    requires
        fsm.enabled,
        e.event_type is KeyDown,
        !is_typing(e, phys),
        fsm.state is Idle || fsm.state is PendingChar || fsm.state is SpeculativeChar,
    ensures
        ({
            let step = answered(fsm, e, phys);
            &&& !step.consumed
            &&& step.fsm.state is Idle
            &&& step.actions == (match fsm.state {
                EngineState::PendingChar(k) => one(plain(fsm.layout, k.pos)),
                _ => Seq::empty(),
            })
            &&& if fsm.state is Idle {
                step.timer is Keep
            } else {
                step.timer is CancelAll
            }
        }),
{
    lemma_bypassing(fsm, e, phys);
}

/// A key for the OS or the IME goes through, after the thumb key that waits was settled.
pub proof fn law_other_keys_go_through_after_a_thumb_key(
    fsm: NicolaFsm,
    t: PendingThumbData,
    e: RawKeyEvent,
    phys: PhysicalKeyState,
)
    requires
        fsm.enabled,
        fsm.state == EngineState::PendingThumb(t),
        e.event_type is KeyDown,
        !is_typing(e, phys),
    ensures
        ({
            let step = answered(fsm, e, phys);
            &&& !step.consumed
            &&& step.fsm.state is Idle
            &&& step.actions == fsm.timeout_step(TIMER_PENDING, phys, phys.composing).actions
            &&& step.timer is CancelAll
        }),
{
    lemma_bypassing(fsm, e, phys);
}

/// A key for the OS or the IME goes through, after the stroke that waits.
pub proof fn law_other_keys_go_through_after_a_stroke(
    fsm: NicolaFsm,
    k: PendingKey,
    t: PendingThumbData,
    e: RawKeyEvent,
    phys: PhysicalKeyState,
)
    requires
        fsm.enabled,
        fsm.state == (EngineState::PendingCharThumb {
            char_key: k,
            thumb: t,
            char1_released_at: None,
        }),
        e.event_type is KeyDown,
        !is_typing(e, phys),
    ensures
        ({
            let step = answered(fsm, e, phys);
            let side = if t.is_left {
                ThumbSide::Left
            } else {
                ThumbSide::Right
            };
            &&& !step.consumed
            &&& step.fsm.state is Idle
            &&& step.actions == one(stroke_of(fsm, side, phys.modifiers.shift, k.pos))
            &&& step.timer is CancelAll
        }),
{
    lemma_bypassing(fsm, e, phys);
    lemma_faces(fsm, t.side_spec(), phys.modifiers.shift, k.pos);
}

/// A change of the context, of the switch or of the layout sends a waiting character, by the layout
/// that it was typed with.
pub proof fn law_flush_sends_a_waiting_character(
    fsm: NicolaFsm,
    k: PendingKey,
    hint: ComposingHint,
    layout: YabLayout,
)
    requires
        fsm.state == EngineState::PendingChar(k),
    ensures
        fsm.flush_step(hint).actions == one(plain(fsm.layout, k.pos)),
        fsm.set_enabled_step(!fsm.enabled).actions == one(plain(fsm.layout, k.pos)),
        fsm.swap_layout_step(layout).actions == one(plain(fsm.layout, k.pos)),
        fsm.swap_layout_step(layout).fsm.layout == layout,
        fsm.set_enabled_step(fsm.enabled).fsm == fsm,
        fsm.set_enabled_step(fsm.enabled).actions == Seq::<KeyAction>::empty(),
{
}

// ---- An idle machine ----

/// No held thumb key is left for a stroke.
pub open spec fn no_thumb_is_held(fsm: NicolaFsm, phys: PhysicalKeyState) -> bool {
    &&& phys.left_thumb_down is Some ==> phys.left_thumb_down == fsm.left_thumb_consumed
    &&& phys.right_thumb_down is Some ==> phys.right_thumb_down == fsm.right_thumb_consumed
}

/// A character key in an idle machine: with shift it sends its shift face at once; without, the
/// confirm mode says whether it waits, and for how long, or is sent at once. A key that the face does
/// not hold goes through.
pub proof fn law_character_in_an_idle_machine(
    fsm: NicolaFsm,
    e: RawKeyEvent,
    phys: PhysicalKeyState,
)
    requires
        fsm.enabled,
        fsm.state is Idle,
        types_character(e, phys),
        no_thumb_is_held(fsm, phys),
    ensures
        ({
            let step = answered(fsm, e, phys);
            let shifted = match e.physical_pos {
                Some(p) => fsm.layout.shift.action_at(p),
                None => None,
            };
            let here = plain(fsm.layout, e.physical_pos);
            if phys.modifiers.shift {
                &&& step.actions == one(shifted)
                &&& step.consumed == shifted is Some
                &&& step.fsm.state is Idle
            } else if here is None {
                &&& step.actions == Seq::<KeyAction>::empty()
                &&& !step.consumed
                &&& step.fsm.state is Idle
                &&& step.timer is Keep
            } else {
                &&& step.consumed
                &&& match step.fsm.state {
                    EngineState::PendingChar(k) => {
                        &&& key_of(k, e)
                        &&& !(fsm.confirm_mode is Speculative)
                        &&& step.actions == Seq::<KeyAction>::empty()
                        &&& step.timer is Pending || step.timer is SpeculativeWait
                        &&& fsm.confirm_mode is Wait ==> step.timer is Pending
                        &&& fsm.confirm_mode is TwoPhase ==> step.timer is SpeculativeWait
                    },
                    EngineState::SpeculativeChar(k) => {
                        &&& key_of(k, e)
                        &&& fsm.confirm_mode is Speculative
                        &&& step.actions == one(here)
                        &&& step.timer is Pending
                    },
                    _ => false,
                }
            }
        }),
{
    lemma_next_character(fsm, e, phys);
    lemma_counted(fsm, e);
    assert(idle(fsm) == fsm);
    reveal(looked_at_afresh);
}

/// A thumb key in an idle machine waits for the threshold.
pub proof fn law_thumb_key_in_an_idle_machine(fsm: NicolaFsm, e: RawKeyEvent, phys: PhysicalKeyState)
    requires
        fsm.enabled,
        fsm.state is Idle,
        types_thumb(fsm, e, phys),
    ensures
        ({
            let step = answered(fsm, e, phys);
            &&& step.consumed
            &&& step.actions == Seq::<KeyAction>::empty()
            &&& step.timer is Pending
            &&& step.fsm.state matches EngineState::PendingThumb(t) && thumb_of(t, e)
            &&& step.fsm.window() == fsm.threshold_us
        }),
{
    lemma_typing(fsm, e, phys);
    lemma_counted(fsm, e);
    reveal(down);
}

/// A thumb key that is held and has made no stroke yet makes one with a character key at once, and
/// only one. The left one comes first.
pub proof fn law_held_thumb_key_makes_a_stroke(
    fsm: NicolaFsm,
    e: RawKeyEvent,
    phys: PhysicalKeyState,
    side: ThumbSide,
    at: Timestamp,
)
    requires
        fsm.enabled,
        fsm.state is Idle,
        types_character(e, phys),
        side is Left ==> phys.left_thumb_down == Some(at) && fsm.left_thumb_consumed != Some(at),
        side is Right ==> phys.right_thumb_down == Some(at) && fsm.right_thumb_consumed != Some(at)
            && (phys.left_thumb_down is Some ==> phys.left_thumb_down == fsm.left_thumb_consumed),
        stroke_of(fsm, side, phys.modifiers.shift, e.physical_pos) is Some,
    ensures
        ({
            let step = answered(fsm, e, phys);
            &&& step.consumed
            &&& step.actions == one(stroke_of(fsm, side, phys.modifiers.shift, e.physical_pos))
            &&& step.fsm.state is Idle
            &&& side is Left ==> step.fsm.left_thumb_consumed == Some(at)
                && step.fsm.right_thumb_consumed == fsm.right_thumb_consumed
            &&& side is Right ==> step.fsm.right_thumb_consumed == Some(at)
                && step.fsm.left_thumb_consumed == fsm.left_thumb_consumed
        }),
{
    lemma_next_character(fsm, e, phys);
    lemma_counted(fsm, e);
    assert(idle(fsm) == fsm);
    let f = counted(fsm, e);
    lemma_faces(f, side, phys.modifiers.shift, e.physical_pos);
    assert(f.active_thumb(phys) == Some((side, at)));
    reveal(looked_at_afresh);
}

// ---- Running text ----

/// What a waiting character will send.
pub open spec fn waiting(fsm: NicolaFsm) -> Seq<KeyAction> {
    match fsm.state {
        EngineState::PendingChar(k) => one(plain(fsm.layout, k.pos)),
        _ => Seq::empty(),
    }
}

/// All that goes out while the keys go down one after the other, and the machine after the last.
pub open spec fn typed(fsm: NicolaFsm, keys: Seq<RawKeyEvent>, phys: PhysicalKeyState) -> (
    NicolaFsm,
    Seq<KeyAction>,
)
    decreases keys.len(),
{
    if keys.len() == 0 {
        (fsm, Seq::empty())
    } else {
        let (before, sent) = typed(fsm, keys.drop_last(), phys);
        let step = answered(before, keys.last(), phys);
        (step.fsm, sent + step.actions)
    }
}

/// The actions of the keys on the face without thumb keys, in their order.
pub open spec fn written(layout: YabLayout, keys: Seq<RawKeyEvent>) -> Seq<KeyAction>
    decreases keys.len(),
{
    if keys.len() == 0 {
        Seq::empty()
    } else {
        written(layout, keys.drop_last()) + one(plain(layout, keys.last().physical_pos))
    }
}

/// One character key adds one action to what was sent and what waits.
proof fn lemma_key_adds_one_action(fsm: NicolaFsm, e: RawKeyEvent, phys: PhysicalKeyState)
    requires
        fsm.enabled,
        fsm.state is Idle || fsm.state is PendingChar || fsm.state is SpeculativeChar,
        types_character(e, phys),
        !phys.modifiers.shift,
        no_thumb_is_held(fsm, phys),
        plain(fsm.layout, e.physical_pos) is Some,
    ensures
        ({
            let step = answered(fsm, e, phys);
            &&& step.actions + waiting(step.fsm) == waiting(fsm) + one(
                plain(fsm.layout, e.physical_pos),
            )
            &&& step.fsm.state is PendingChar || step.fsm.state is SpeculativeChar
            &&& step.fsm.enabled
            &&& step.fsm.layout == fsm.layout
            &&& no_thumb_is_held(step.fsm, phys)
        }),
{
    lemma_next_character(fsm, e, phys);
    lemma_counted(idle(fsm), e);
    let f = counted(idle(fsm), e);
    lemma_fresh_key_adds_one_action(f, e, phys);
    let step = answered(fsm, e, phys);
    let rest = looked_at_afresh(f, e, phys);
    assert(waiting(step.fsm) == waiting(rest.fsm));
    assert((waiting(fsm) + rest.actions) + waiting(rest.fsm) =~= waiting(fsm) + (rest.actions
        + waiting(rest.fsm)));
}

proof fn lemma_fresh_key_adds_one_action(f: NicolaFsm, e: RawKeyEvent, phys: PhysicalKeyState)
    requires
        f.enabled,
        f.state is Idle,
        types_character(e, phys),
        !phys.modifiers.shift,
        no_thumb_is_held(f, phys),
        plain(f.layout, e.physical_pos) is Some,
    ensures
        ({
            let step = looked_at_afresh(f, e, phys);
            &&& step.actions + waiting(step.fsm) == one(plain(f.layout, e.physical_pos))
            &&& step.fsm.state is PendingChar || step.fsm.state is SpeculativeChar
            &&& step.fsm.enabled
            &&& step.fsm.layout == f.layout
            &&& step.fsm.left_thumb_consumed == f.left_thumb_consumed
            &&& step.fsm.right_thumb_consumed == f.right_thumb_consumed
        }),
{
    reveal(looked_at_afresh);
    let step = looked_at_afresh(f, e, phys);
    let a = one(plain(f.layout, e.physical_pos));
    assert(a + Seq::<KeyAction>::empty() =~= a);
    assert(Seq::<KeyAction>::empty() + a =~= a);
}

/// Text that is typed without thumb keys comes out whole and in order, in every confirm mode: each key
/// sends its action once, of which the last may still wait.
pub proof fn law_running_text_comes_out_in_order(
    fsm: NicolaFsm,
    keys: Seq<RawKeyEvent>,
    phys: PhysicalKeyState,
)
    requires
        fsm.enabled,
        fsm.state is Idle,
        !phys.modifiers.shift,
        no_thumb_is_held(fsm, phys),
        forall|i: int|
            0 <= i < keys.len() ==> types_character(#[trigger] keys[i], phys) && plain(
                fsm.layout,
                keys[i].physical_pos,
            ) is Some,
    ensures
        ({
            let (after, sent) = typed(fsm, keys, phys);
            &&& sent + waiting(after) == written(fsm.layout, keys)
            &&& after.state is Idle || after.state is PendingChar || after.state is SpeculativeChar
            &&& after.enabled
            &&& after.layout == fsm.layout
            &&& no_thumb_is_held(after, phys)
        }),
        written(fsm.layout, keys).len() == keys.len(),
        forall|i: int|
            0 <= i < keys.len() ==> #[trigger] written(fsm.layout, keys)[i] == plain(
                fsm.layout,
                keys[i].physical_pos,
            )->0,
    decreases keys.len(),
{
    if keys.len() == 0 {
        assert(typed(fsm, keys, phys).1 + waiting(fsm) =~= written(fsm.layout, keys));
    } else {
        let rest = keys.drop_last();
        assert forall|i: int| 0 <= i < rest.len() implies types_character(#[trigger] rest[i], phys)
            && plain(fsm.layout, rest[i].physical_pos) is Some by {
            assert(rest[i] == keys[i]);
        }
        law_running_text_comes_out_in_order(fsm, rest, phys);
        let (before, sent) = typed(fsm, rest, phys);
        let e = keys.last();
        assert(e == keys[keys.len() - 1]);
        lemma_key_adds_one_action(before, e, phys);
        let step = answered(before, e, phys);
        let a = one(plain(fsm.layout, e.physical_pos));
        assert((sent + step.actions) + waiting(step.fsm) =~= sent + (step.actions + waiting(
            step.fsm,
        )));
        assert(sent + (waiting(before) + a) =~= (sent + waiting(before)) + a);
        assert forall|i: int| 0 <= i < keys.len() implies #[trigger] written(fsm.layout, keys)[i]
            == plain(fsm.layout, keys[i].physical_pos)->0 by {
            if i < rest.len() {
                assert(rest[i] == keys[i]);
                assert(written(fsm.layout, rest)[i] == plain(fsm.layout, rest[i].physical_pos)->0);
            }
        }
    }
}

// ---- Strokes of two keys ----

/// A character key within the threshold after a thumb key is a stroke on the thumb's face.
pub proof fn law_thumb_then_character(
    fsm: NicolaFsm,
    t: PendingThumbData,
    e: RawKeyEvent,
    phys: PhysicalKeyState,
)
    requires
        fsm.enabled,
        fsm.state == EngineState::PendingThumb(t),
        types_character(e, phys),
        e.timestamp - t.timestamp <= fsm.threshold_us,
    ensures
        ({
            let step = answered(fsm, e, phys);
            let side = if t.is_left {
                ThumbSide::Left
            } else {
                ThumbSide::Right
            };
            &&& step.consumed
            &&& step.actions == one(stroke_of(fsm, side, phys.modifiers.shift, e.physical_pos))
            &&& step.fsm.state is Idle
            &&& step.timer is CancelAll
            &&& t.is_left ==> step.fsm.left_thumb_consumed == Some(t.timestamp)
                && step.fsm.right_thumb_consumed == fsm.right_thumb_consumed
            &&& !t.is_left ==> step.fsm.right_thumb_consumed == Some(t.timestamp)
                && step.fsm.left_thumb_consumed == fsm.left_thumb_consumed
        }),
{
    lemma_typing(fsm, e, phys);
    lemma_counted(fsm, e);
    reveal(down);
    lemma_faces(counted(fsm, e), t.side_spec(), phys.modifiers.shift, e.physical_pos);
}

/// A thumb key within the window of a waiting character makes the two wait together. One that comes
/// later waits by itself, and the character goes out by itself.
pub proof fn law_character_then_thumb(
    fsm: NicolaFsm,
    k: PendingKey,
    e: RawKeyEvent,
    phys: PhysicalKeyState,
)
    requires
        fsm.enabled,
        fsm.state == EngineState::PendingChar(k),
        types_thumb(fsm, e, phys),
    ensures
        ({
            let step = answered(fsm, e, phys);
            &&& step.consumed
            &&& step.timer is Pending
            &&& if e.timestamp - k.timestamp <= fsm.window_us {
                &&& step.actions == Seq::<KeyAction>::empty()
                &&& step.fsm.state matches EngineState::PendingCharThumb {
                    char_key,
                    thumb,
                    char1_released_at,
                } && char_key == k && thumb_of(thumb, e) && char1_released_at is None
            } else {
                &&& step.actions == one(plain(fsm.layout, k.pos))
                &&& step.fsm.state matches EngineState::PendingThumb(t) && thumb_of(t, e)
            }
        }),
{
    lemma_typing(fsm, e, phys);
    lemma_counted(fsm, e);
    reveal(down);
    let f = counted(fsm, e);
    lemma_settled_character(f, k, ComposingHint::Trusted(phys.composing), phys.modifiers.shift);
    assert(one(plain(fsm.layout, k.pos)) + Seq::<KeyAction>::empty() =~= one(
        plain(fsm.layout, k.pos),
    ));
}

/// Two keys that wait together are a stroke when their time is up or the thumb key is released, as
/// long as the character key is still down.
pub proof fn law_keys_that_wait_together_are_a_stroke(
    fsm: NicolaFsm,
    k: PendingKey,
    t: PendingThumbData,
    phys: PhysicalKeyState,
    composing: bool,
    up: RawKeyEvent,
)
    requires
        fsm.enabled,
        fsm.state == (EngineState::PendingCharThumb {
            char_key: k,
            thumb: t,
            char1_released_at: None,
        }),
        up.event_type is KeyUp,
        up.vk_code == t.vk_code,
    ensures
        ({
            let side = if t.is_left {
                ThumbSide::Left
            } else {
                ThumbSide::Right
            };
            let sent = one(stroke_of(fsm, side, phys.modifiers.shift, k.pos));
            let timed = fsm.timeout_step(TIMER_PENDING, phys, composing);
            let released = answered(fsm, up, phys);
            &&& timed.actions == sent
            &&& timed.fsm.state is Idle
            &&& t.is_left ==> timed.fsm.left_thumb_consumed == Some(t.timestamp)
                && timed.fsm.right_thumb_consumed == fsm.right_thumb_consumed
            &&& !t.is_left ==> timed.fsm.right_thumb_consumed == Some(t.timestamp)
                && timed.fsm.left_thumb_consumed == fsm.left_thumb_consumed
            &&& released.actions == sent
            &&& released.consumed
            &&& released.fsm.state is Idle
            &&& released.fsm.left_thumb_consumed == timed.fsm.left_thumb_consumed
            &&& released.fsm.right_thumb_consumed == timed.fsm.right_thumb_consumed
        }),
{
    reveal(answered);
    lemma_faces(fsm, t.side_spec(), phys.modifiers.shift, k.pos);
}

/// The release of the character key of two that wait together is noted, and nothing is sent yet.
pub proof fn law_release_before_a_stroke_is_noted(
    fsm: NicolaFsm,
    k: PendingKey,
    t: PendingThumbData,
    released: Option<Timestamp>,
    up: RawKeyEvent,
    phys: PhysicalKeyState,
)
    requires
        fsm.enabled,
        fsm.state == (EngineState::PendingCharThumb {
            char_key: k,
            thumb: t,
            char1_released_at: released,
        }),
        up.event_type is KeyUp,
        up.vk_code == k.vk_code,
        k.vk_code != t.vk_code,
    ensures
        ({
            let step = answered(fsm, up, phys);
            &&& step.consumed
            &&& step.actions == Seq::<KeyAction>::empty()
            &&& step.fsm.state == (EngineState::PendingCharThumb {
                char_key: k,
                thumb: t,
                char1_released_at: Some(up.timestamp),
            })
        }),
{
    reveal(answered);
}

/// Keys of which the character was released after less time together than it was down before are two:
/// the character by itself, then the thumb key as if tapped alone.
pub proof fn law_scant_overlap_sends_the_character_by_itself(
    fsm: NicolaFsm,
    k: PendingKey,
    t: PendingThumbData,
    at: Timestamp,
    phys: PhysicalKeyState,
    composing: bool,
)
    requires
        fsm.state == (EngineState::PendingCharThumb {
            char_key: k,
            thumb: t,
            char1_released_at: Some(at),
        }),
    ensures
        ({
            let step = fsm.timeout_step(TIMER_PENDING, phys, composing);
            let tap = (NicolaFsm { state: EngineState::PendingThumb(t), ..fsm }).timeout_step(
                TIMER_PENDING,
                phys,
                composing,
            );
            let side = if t.is_left {
                ThumbSide::Left
            } else {
                ThumbSide::Right
            };
            if at - t.timestamp < t.timestamp - k.timestamp {
                step.actions == one(plain(fsm.layout, k.pos)) + tap.actions
            } else {
                step.actions == one(stroke_of(fsm, side, phys.modifiers.shift, k.pos))
            }
        }),
{
    lemma_faces(fsm, t.side_spec(), phys.modifiers.shift, k.pos);
    let waiting = NicolaFsm { state: EngineState::PendingThumb(t), ..fsm };
    assert(idle(waiting) == idle(fsm));
}

/// Of three keys the third has the thumb key where it is nearer to it in time than the first, or where
/// the first was released: the first goes out by itself, the other two as a stroke.
pub proof fn law_third_key_has_the_thumb(
    fsm: NicolaFsm,
    k: PendingKey,
    t: PendingThumbData,
    released: Option<Timestamp>,
    e: RawKeyEvent,
    phys: PhysicalKeyState,
)
    requires
        fsm.enabled,
        fsm.state == (EngineState::PendingCharThumb {
            char_key: k,
            thumb: t,
            char1_released_at: released,
        }),
        types_character(e, phys),
        released is Some || e.timestamp - t.timestamp < t.timestamp - k.timestamp,
    ensures
        ({
            let step = answered(fsm, e, phys);
            let side = if t.is_left {
                ThumbSide::Left
            } else {
                ThumbSide::Right
            };
            &&& step.actions == one(plain(fsm.layout, k.pos)) + one(
                stroke_of(fsm, side, phys.modifiers.shift, e.physical_pos),
            )
            &&& step.consumed
            &&& step.fsm.state is Idle
            &&& step.timer is CancelAll
            &&& t.is_left ==> step.fsm.left_thumb_consumed == Some(t.timestamp)
                && step.fsm.right_thumb_consumed == fsm.right_thumb_consumed
            &&& !t.is_left ==> step.fsm.right_thumb_consumed == Some(t.timestamp)
                && step.fsm.left_thumb_consumed == fsm.left_thumb_consumed
        }),
{
    lemma_typing(fsm, e, phys);
    lemma_counted(fsm, e);
    reveal(down);
    lemma_faces(counted(fsm, e), t.side_spec(), phys.modifiers.shift, e.physical_pos);
}

proof fn lemma_first_key_has_the_thumb(
    f: NicolaFsm,
    k: PendingKey,
    t: PendingThumbData,
    e: RawKeyEvent,
    phys: PhysicalKeyState,
)
    requires
        f.state == (EngineState::PendingCharThumb {
            char_key: k,
            thumb: t,
            char1_released_at: None,
        }),
        e.key_classification is Char,
        e.timestamp - t.timestamp >= t.timestamp - k.timestamp,
    ensures
        down(f, e, phys) == f.settle_and_go_on(nicola_fsm::classified(e), phys),
        f.settled(ComposingHint::Trusted(phys.composing), phys.modifiers.shift) == (
            idle(f).thumb_used(t.side_spec(), t.timestamp),
            one(stroke_of(f, t.side_spec(), phys.modifiers.shift, k.pos)),
        ),
{
    reveal(down);
    lemma_faces(f, t.side_spec(), phys.modifiers.shift, k.pos);
}

/// The machine after a stroke with a thumb key: idle, with the thumb key used.
#[verifier::opaque]
pub open spec fn after_stroke(fsm: NicolaFsm, t: PendingThumbData) -> NicolaFsm {
    if t.is_left {
        NicolaFsm { left_thumb_consumed: Some(t.timestamp), ..idle(fsm) }
    } else {
        NicolaFsm { right_thumb_consumed: Some(t.timestamp), ..idle(fsm) }
    }
}

proof fn lemma_after_stroke(fsm: NicolaFsm, t: PendingThumbData, e: RawKeyEvent)
    ensures
        ({
            let after = after_stroke(fsm, t);
            &&& after.state is Idle
            &&& after.enabled == fsm.enabled
            &&& counted(idle(after), e) == idle(counted(fsm, e)).thumb_used(
                t.side_spec(),
                t.timestamp,
            )
        }),
{
    reveal(after_stroke);
    reveal(counted);
    let after = after_stroke(fsm, t);
    let used = idle(counted(fsm, e)).thumb_used(t.side_spec(), t.timestamp);
    assert(idle(after) == after);
    if e.vk_code == fsm.engine_off_solo_repeat_vk {
        assert(counted(fsm, e) == fsm);
        assert(counted(after, e) == after);
        if t.is_left {
            assert(used == after);
        } else {
            assert(used == after);
        }
    } else {
        let zero = NicolaFsm { solo_repeats: 0, ..fsm };
        assert(counted(fsm, e) == zero);
        assert(counted(after, e) == NicolaFsm { solo_repeats: 0, ..after });
        if t.is_left {
            assert(used == NicolaFsm { solo_repeats: 0, ..after });
        } else {
            assert(used == NicolaFsm { solo_repeats: 0, ..after });
        }
    }
}

/// Of three keys the first has the thumb key where it is at least as near to it in time as the third:
/// the stroke goes out first, and the third key is looked at afresh, with that thumb key used.
pub proof fn law_first_key_has_the_thumb(
    fsm: NicolaFsm,
    k: PendingKey,
    t: PendingThumbData,
    e: RawKeyEvent,
    phys: PhysicalKeyState,
)
    requires
        fsm.enabled,
        fsm.state == (EngineState::PendingCharThumb {
            char_key: k,
            thumb: t,
            char1_released_at: None,
        }),
        types_character(e, phys),
        e.timestamp - t.timestamp >= t.timestamp - k.timestamp,
    ensures
        ({
            let step = answered(fsm, e, phys);
            let side = if t.is_left {
                ThumbSide::Left
            } else {
                ThumbSide::Right
            };
            let fresh = answered(after_stroke(fsm, t), e, phys);
            &&& step.actions == one(stroke_of(fsm, side, phys.modifiers.shift, k.pos))
                + fresh.actions
            &&& step.fsm.state == fresh.fsm.state
            &&& step.timer == fresh.timer
        }),
{
    lemma_first_key(fsm, k, t, e, phys);
    lemma_after_stroke(fsm, t, e);
    lemma_next_character(after_stroke(fsm, t), e, phys);
}

proof fn lemma_first_key(
    fsm: NicolaFsm,
    k: PendingKey,
    t: PendingThumbData,
    e: RawKeyEvent,
    phys: PhysicalKeyState,
)
    requires
        fsm.enabled,
        fsm.state == (EngineState::PendingCharThumb {
            char_key: k,
            thumb: t,
            char1_released_at: None,
        }),
        types_character(e, phys),
        e.timestamp - t.timestamp >= t.timestamp - k.timestamp,
    ensures
        ({
            let step = answered(fsm, e, phys);
            let rest = looked_at_afresh(
                idle(counted(fsm, e)).thumb_used(t.side_spec(), t.timestamp),
                e,
                phys,
            );
            &&& step.actions == one(stroke_of(fsm, t.side_spec(), phys.modifiers.shift, k.pos))
                + rest.actions
            &&& step.fsm.state == rest.fsm.state
            &&& step.timer == rest.timer
        }),
{
    lemma_counted(fsm, e);
    lemma_typing(fsm, e, phys);
    let f = counted(fsm, e);
    lemma_first_key_has_the_thumb(f, k, t, e, phys);
    lemma_first_and_rest(f, e, phys);
}

/// What was sent on speculation is taken back by one backspace, and the stroke is sent in its place,
/// where a thumb key comes within the window. Later it waits for a stroke of its own.
pub proof fn law_stroke_replaces_a_speculated_character(
    fsm: NicolaFsm,
    k: PendingKey,
    e: RawKeyEvent,
    phys: PhysicalKeyState,
)
    requires
        fsm.enabled,
        fsm.state == EngineState::SpeculativeChar(k),
        types_thumb(fsm, e, phys),
    ensures
        ({
            let step = answered(fsm, e, phys);
            &&& step.consumed
            &&& if e.timestamp - k.timestamp <= fsm.window_us {
                &&& step.actions == seq![KeyAction::SpecialKey(SpecialKey::Backspace)] + one(
                    stroke_of(fsm, side_of(e), phys.modifiers.shift, k.pos),
                )
                &&& step.fsm.state is Idle
                &&& step.timer is CancelAll
                &&& side_of(e) is Left ==> step.fsm.left_thumb_consumed == Some(e.timestamp)
                    && step.fsm.right_thumb_consumed == fsm.right_thumb_consumed
                &&& side_of(e) is Right ==> step.fsm.right_thumb_consumed == Some(e.timestamp)
                    && step.fsm.left_thumb_consumed == fsm.left_thumb_consumed
            } else {
                &&& step.actions == Seq::<KeyAction>::empty()
                &&& step.fsm.state matches EngineState::PendingThumb(t) && thumb_of(t, e)
            }
        }),
{
    lemma_typing(fsm, e, phys);
    lemma_counted(fsm, e);
    reveal(down);
    lemma_faces(counted(fsm, e), side_of(e), phys.modifiers.shift, k.pos);
}

/// A change of the context sends a stroke that waits, by the layout that it was typed with and without
/// shift.
pub proof fn law_flush_sends_a_waiting_stroke(
    fsm: NicolaFsm,
    k: PendingKey,
    t: PendingThumbData,
    hint: ComposingHint,
    layout: YabLayout,
)
    requires
        fsm.state == (EngineState::PendingCharThumb {
            char_key: k,
            thumb: t,
            char1_released_at: None,
        }),
    ensures
        ({
            let side = if t.is_left {
                ThumbSide::Left
            } else {
                ThumbSide::Right
            };
            let sent = one(stroke_of(fsm, side, false, k.pos));
            &&& fsm.flush_step(hint).actions == sent
            &&& fsm.flush_step(hint).fsm.state is Idle
            &&& fsm.flush_step(hint).timer is CancelAll
            &&& fsm.set_enabled_step(!fsm.enabled).actions == sent
            &&& fsm.swap_layout_step(layout).actions == sent
        }),
{
    lemma_faces(fsm, t.side_spec(), false, k.pos);
}

/// While a character and a thumb key wait together, the thumb key repeats in vain.
pub proof fn law_thumb_key_repeats_in_vain(
    fsm: NicolaFsm,
    k: PendingKey,
    t: PendingThumbData,
    released: Option<Timestamp>,
    e: RawKeyEvent,
    phys: PhysicalKeyState,
)
    requires
        fsm.enabled,
        fsm.state == (EngineState::PendingCharThumb {
            char_key: k,
            thumb: t,
            char1_released_at: released,
        }),
        types_thumb(fsm, e, phys),
        e.vk_code == t.vk_code,
    ensures
        ({
            let step = answered(fsm, e, phys);
            &&& step.consumed
            &&& step.actions == Seq::<KeyAction>::empty()
            &&& step.fsm.state == fsm.state
            &&& step.timer is Keep
        }),
{
    lemma_typing(fsm, e, phys);
    lemma_counted(fsm, e);
    reveal(down);
}

proof fn lemma_stroke_is_settled(
    f: NicolaFsm,
    k: PendingKey,
    t: PendingThumbData,
    e: RawKeyEvent,
    phys: PhysicalKeyState,
)
    requires
        f.state == (EngineState::PendingCharThumb {
            char_key: k,
            thumb: t,
            char1_released_at: None,
        }),
        e.key_classification is LeftThumb || e.key_classification is RightThumb,
        !f.literal_press(nicola_fsm::classified(e), phys),
        e.vk_code != t.vk_code,
    ensures
        down(f, e, phys) == f.settle_and_go_on(nicola_fsm::classified(e), phys),
        f.settled(ComposingHint::Trusted(phys.composing), phys.modifiers.shift) == (
            idle(f).thumb_used(t.side_spec(), t.timestamp),
            one(stroke_of(f, t.side_spec(), phys.modifiers.shift, k.pos)),
        ),
{
    reveal(down);
    lemma_faces(f, t.side_spec(), phys.modifiers.shift, k.pos);
}

/// The other thumb key settles a stroke that waits, and waits in turn.
pub proof fn law_other_thumb_key_settles_a_stroke(
    fsm: NicolaFsm,
    k: PendingKey,
    t: PendingThumbData,
    e: RawKeyEvent,
    phys: PhysicalKeyState,
)
    requires
        fsm.enabled,
        fsm.state == (EngineState::PendingCharThumb {
            char_key: k,
            thumb: t,
            char1_released_at: None,
        }),
        types_thumb(fsm, e, phys),
        e.vk_code != t.vk_code,
    ensures
        ({
            let step = answered(fsm, e, phys);
            let side = if t.is_left {
                ThumbSide::Left
            } else {
                ThumbSide::Right
            };
            &&& step.consumed
            &&& step.actions == one(stroke_of(fsm, side, phys.modifiers.shift, k.pos))
            &&& step.fsm.state matches EngineState::PendingThumb(other) && thumb_of(other, e)
            &&& step.timer is Pending
        }),
{
    let f = counted(fsm, e);
    lemma_counted(fsm, e);
    lemma_typing(fsm, e, phys);
    lemma_stroke_is_settled(f, k, t, e, phys);
    lemma_first_and_rest(f, e, phys);
    reveal(looked_at_afresh);
    let first = one(stroke_of(f, t.side_spec(), phys.modifiers.shift, k.pos));
    assert(first + Seq::<KeyAction>::empty() =~= first);
}

// ---- A thumb key by itself ----

/// The keys that a tap alone sends.
pub open spec fn tap(vk: VkCode) -> Seq<KeyAction> {
    seq![KeyAction::Key(vk), KeyAction::KeyUp(vk)]
}

/// A thumb key that is tapped alone. The IME is asked where the key stands for such a request. A key
/// that switches the IME itself goes out. The muhenkan key is replaced where it is set to be; it and
/// the henkan key go out as their setting says; space and enter go out, during a composition only
/// where they are set to; any other key goes out unless it is a modifier or a composition goes on.
pub proof fn law_thumb_key_tapped_alone(
    fsm: NicolaFsm,
    t: PendingThumbData,
    phys: PhysicalKeyState,
    composing: bool,
)
    requires
        fsm.state == EngineState::PendingThumb(t),
    ensures
        ({
            let step = fsm.timeout_step(TIMER_PENDING, phys, composing);
            let vk = t.vk_code;
            let is_muhenkan = fsm.muhenkan_vk == Some(vk);
            let is_henkan = fsm.henkan_vk == Some(vk);
            let request = if is_muhenkan && fsm.muhenkan_delegate is Some {
                fsm.muhenkan_delegate
            } else if is_henkan {
                fsm.henkan_delegate
            } else {
                None
            };
            &&& step.fsm.state is Idle
            &&& request is Some ==> step.actions == Seq::<KeyAction>::empty()
                && step.fsm.ime_open_requested == request
            &&& request is None ==> {
                &&& step.fsm.ime_open_requested == fsm.ime_open_requested
                &&& fsm.thumb_keys_are_ime_switch ==> step.actions == tap(vk)
                &&& !fsm.thumb_keys_are_ime_switch ==> {
                    let config = if is_muhenkan {
                        fsm.muhenkan
                    } else {
                        fsm.henkan
                    };
                    let passes = (if composing {
                        config.composing
                    } else {
                        config.idle
                    }) is Passthrough;
                    if is_muhenkan && fsm.muhenkan_dedicated_fn_key is Some {
                        step.actions == tap(fsm.muhenkan_dedicated_fn_key->0)
                    } else if is_muhenkan || is_henkan {
                        step.actions == (if passes {
                            tap(vk)
                        } else {
                            Seq::empty()
                        })
                    } else {
                        let guarded = if fsm.space_thumb_vk == Some(vk) {
                            composing && !fsm.space_thumb.ignore_composing_guard
                        } else if fsm.enter_thumb_vk == Some(vk) {
                            composing && !fsm.enter_thumb.ignore_composing_guard
                        } else {
                            composing || t.modifier_key is Some
                        };
                        step.actions == (if guarded {
                            Seq::empty()
                        } else {
                            tap(vk)
                        })
                    }
                }
            }
        }),
{
}

/// The release of a waiting thumb key is a tap, as its time being up is. Where the context is lost no
/// key is sent, unless the thumb keys switch the IME; a request of the IME is made all the same.
pub proof fn law_thumb_key_released_or_lost(
    fsm: NicolaFsm,
    t: PendingThumbData,
    up: RawKeyEvent,
    phys: PhysicalKeyState,
)
    requires
        fsm.enabled,
        fsm.state == EngineState::PendingThumb(t),
        up.event_type is KeyUp,
    ensures
        ({
            let released = answered(fsm, up, phys);
            let timed = fsm.timeout_step(TIMER_PENDING, phys, phys.composing);
            if up.vk_code == t.vk_code {
                &&& released.actions == timed.actions
                &&& released.fsm == timed.fsm
                &&& released.consumed
            } else {
                &&& released.fsm == fsm
                &&& released.actions == Seq::<KeyAction>::empty()
                &&& !released.consumed
            }
        }),
        !fsm.thumb_keys_are_ime_switch ==> fsm.flush_step(ComposingHint::Unknown).actions == Seq::<
            KeyAction,
        >::empty(),
{
    reveal(answered);
}

/// The count of taps has no part in what a tap sends.
proof fn lemma_tap_is_the_same(
    fsm: NicolaFsm,
    e: RawKeyEvent,
    t: PendingThumbData,
    hint: ComposingHint,
    phys: PhysicalKeyState,
)
    requires
        fsm.state == EngineState::PendingThumb(t),
    ensures
        counted(fsm, e).settled(hint, phys.modifiers.shift).1 == fsm.settled(
            hint,
            phys.modifiers.shift,
        ).1,
{
    lemma_counted(fsm, e);
    assert(idle(counted(fsm, e)).solo_tap(t, hint) == idle(fsm).solo_tap(t, hint));
    assert(idle(counted(fsm, e)).delegated(t.vk_code) == idle(fsm).delegated(t.vk_code));
}

proof fn lemma_tap_alone(
    fsm: NicolaFsm,
    t: PendingThumbData,
    phys: PhysicalKeyState,
    composing: bool,
)
    requires
        fsm.state == EngineState::PendingThumb(t),
    ensures
        fsm.timeout_step(TIMER_PENDING, phys, composing).actions == fsm.settled(
            ComposingHint::Trusted(composing),
            phys.modifiers.shift,
        ).1,
{
}

/// Where no stroke comes of a waiting thumb key, it is settled.
proof fn lemma_thumb_is_settled(f: NicolaFsm, e: RawKeyEvent, phys: PhysicalKeyState)
    requires
        f.state is PendingThumb,
        !f.literal_press(nicola_fsm::classified(e), phys),
        e.key_classification is Char ==> e.timestamp - f.state->PendingThumb_0.timestamp
            > f.threshold_us,
        !(e.key_classification is Char) ==> e.vk_code != f.state->PendingThumb_0.vk_code,
    ensures
        down(f, e, phys) == f.settle_and_go_on(nicola_fsm::classified(e), phys),
{
    reveal(down);
}

/// A thumb key that repeats goes on waiting. The other thumb key takes its place, after the first has
/// been settled as a tap.
pub proof fn law_thumb_key_after_a_thumb_key(
    fsm: NicolaFsm,
    t: PendingThumbData,
    e: RawKeyEvent,
    phys: PhysicalKeyState,
)
    requires
        fsm.enabled,
        fsm.state == EngineState::PendingThumb(t),
        types_thumb(fsm, e, phys),
    ensures
        ({
            let step = answered(fsm, e, phys);
            &&& step.consumed
            &&& if e.vk_code == t.vk_code {
                &&& step.actions == Seq::<KeyAction>::empty()
                &&& step.fsm.state == fsm.state
                &&& step.timer is Keep
            } else {
                &&& step.actions == fsm.timeout_step(TIMER_PENDING, phys, phys.composing).actions
                &&& step.fsm.state matches EngineState::PendingThumb(other) && thumb_of(other, e)
                &&& step.timer is Pending
            }
        }),
{
    lemma_counted(fsm, e);
    lemma_typing(fsm, e, phys);
    if e.vk_code == t.vk_code {
        reveal(down);
    } else {
        let f = counted(fsm, e);
        let hint = ComposingHint::Trusted(phys.composing);
        lemma_tap_is_the_same(fsm, e, t, hint, phys);
        lemma_tap_alone(fsm, t, phys, phys.composing);
        lemma_thumb_is_settled(f, e, phys);
        lemma_first_and_rest(f, e, phys);
        reveal(looked_at_afresh);
        let first = f.settled(hint, phys.modifiers.shift).1;
        assert(first + Seq::<KeyAction>::empty() =~= first);
    }
}

/// A character key that comes too late for a waiting thumb key finds it settled as a tap.
pub proof fn law_late_character_after_a_thumb_key(
    fsm: NicolaFsm,
    t: PendingThumbData,
    e: RawKeyEvent,
    phys: PhysicalKeyState,
)
    requires
        fsm.enabled,
        fsm.state == EngineState::PendingThumb(t),
        types_character(e, phys),
        e.timestamp - t.timestamp > fsm.threshold_us,
    ensures
        ({
            let step = answered(fsm, e, phys);
            let tap = fsm.timeout_step(TIMER_PENDING, phys, phys.composing).actions;
            &&& step.actions.len() >= tap.len()
            &&& step.actions.subrange(0, tap.len() as int) == tap
        }),
{
    let f = counted(fsm, e);
    let hint = ComposingHint::Trusted(phys.composing);
    lemma_counted(fsm, e);
    lemma_typing(fsm, e, phys);
    lemma_tap_is_the_same(fsm, e, t, hint, phys);
    lemma_tap_alone(fsm, t, phys, phys.composing);
    lemma_thumb_is_settled(f, e, phys);
    lemma_first_and_rest(f, e, phys);
}

/// A thumb key that is tapped alone counts toward the five, whatever it sends, and one of another key
/// starts the count anew.
pub proof fn law_taps_alone_are_counted(
    fsm: NicolaFsm,
    t: PendingThumbData,
    phys: PhysicalKeyState,
    composing: bool,
)
    requires
        fsm.state == EngineState::PendingThumb(t),
        fsm.solo_repeats <= 4,
    ensures
        ({
            let after = fsm.timeout_step(TIMER_PENDING, phys, composing).fsm;
            if t.vk_code == fsm.engine_off_solo_repeat_vk && t.vk_code != VkCode(0) {
                if fsm.solo_repeats == 4 {
                    after.engine_off_requested && after.solo_repeats == 0
                } else {
                    after.engine_off_requested == fsm.engine_off_requested && after.solo_repeats
                        == fsm.solo_repeats + 1
                }
            } else {
                after.engine_off_requested == fsm.engine_off_requested && after.solo_repeats == 0
            }
        }),
{
}

/// A typed key other than the counted one starts the count anew.
pub proof fn law_typing_starts_the_count_anew(
    fsm: NicolaFsm,
    e: RawKeyEvent,
    phys: PhysicalKeyState,
)
    requires
        fsm.enabled,
        fsm.state is Idle,
        types_character(e, phys),
        e.vk_code != fsm.engine_off_solo_repeat_vk,
    ensures
        answered(fsm, e, phys).fsm.solo_repeats == 0,
        answered(fsm, e, phys).fsm.engine_off_requested == fsm.engine_off_requested,
{
    reveal(answered);
}

/// The fifth tap in a row of the key that is set for it asks for the engine to be stopped, and no
/// earlier one does; any other key starts the count anew.
pub proof fn law_fifth_tap_stops_the_engine(fsm: NicolaFsm, e: RawKeyEvent, phys: PhysicalKeyState)
    requires
        fsm.enabled,
        fsm.state is Idle,
        e.event_type is KeyDown,
        !is_typing(e, phys),
        fsm.solo_repeats <= 4,
    ensures
        ({
            let after = answered(fsm, e, phys).fsm;
            if e.vk_code == fsm.engine_off_solo_repeat_vk && e.vk_code != VkCode(0) {
                if fsm.solo_repeats == 4 {
                    after.engine_off_requested && after.solo_repeats == 0
                } else {
                    after.engine_off_requested == fsm.engine_off_requested && after.solo_repeats
                        == fsm.solo_repeats + 1
                }
            } else {
                after.engine_off_requested == fsm.engine_off_requested && after.solo_repeats == 0
            }
        }),
{
    reveal(answered);
}

} // verus!
