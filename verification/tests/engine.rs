use awase::config::{ConfirmMode, ParsedKeyCombo};
use awase::engine::decision::{
    ActivationState, Decision, Effect, EngineCommand, ImeEffect, InactiveReason, InputContext,
    InputEffect, InputModeState, SetOpenOrigin, SpecialKeyCombos, TimerEffect, UiEffect,
};
use awase::engine::engine::{matches_key_combo, Engine, SpecialKeyMatch};
use awase::engine::fsm_types::{
    ModeKeyConfig, TextKeyConfig, TIMER_PENDING, TIMER_SPECULATIVE,
};
use awase::engine::input_tracker::PhysicalKeyState;
use awase::engine::nicola_fsm::{NicolaFsm, SOLO_REPEAT_LIMIT};
use awase::ngram::{Forecast, KanaPair, NgramModel};
use awase::scanmap::PhysicalPos;
use awase::types::{
    ContextChange, ImeRelevance, KeyAction, KeyClassification, KeyEventType, ModifierState,
    RawKeyEvent, ScanCode, ShadowImeAction, VkCode,
};
use awase::yab::{YabEntry, YabFace, YabLayout, YabValue};

const NONCONVERT: VkCode = VkCode(0x1D);
const CONVERT: VkCode = VkCode(0x1C);
const A: VkCode = VkCode(0x41);
const INSERT: VkCode = VkCode(0x2D);
const POS: PhysicalPos = PhysicalPos { row: 2, col: 0 };

fn face(kana: &str) -> YabFace {
    YabFace {
        entries: vec![YabEntry {
            pos: POS,
            value: YabValue::Romaji {
                romaji: kana.to_string(),
                kana: None,
            },
        }],
    }
}

fn layout() -> YabLayout {
    YabLayout {
        normal: face("u"),
        left_thumb: face("wo"),
        right_thumb: face("vu"),
        shift: YabFace::empty(),
        left_thumb_shift: YabFace::empty(),
        right_thumb_shift: YabFace::empty(),
    }
}

fn no_keys() -> SpecialKeyCombos {
    SpecialKeyCombos {
        engine_on: vec![],
        engine_off: vec![],
        ime_on: vec![],
        ime_off: vec![],
        ime_toggle: vec![],
    }
}

fn engine_with(mode: ConfirmMode, keys: SpecialKeyCombos) -> Engine {
    Engine::new(
        NicolaFsm::new(layout(), NONCONVERT, CONVERT, 100, mode, 30),
        keys,
    )
}

fn engine() -> Engine {
    engine_with(ConfirmMode::Wait, no_keys())
}

fn ctx(ime_on: bool) -> InputContext {
    InputContext {
        ime_on,
        input_mode: InputModeState::ObservedRomaji,
        is_japanese_ime: true,
        composing: false,
        modifiers: ModifierState::default(),
        left_thumb_down: None,
        right_thumb_down: None,
    }
}

fn event(vk: VkCode, down: bool, at_ms: u64) -> RawKeyEvent {
    let class = if vk == NONCONVERT {
        KeyClassification::LeftThumb
    } else if vk == CONVERT {
        KeyClassification::RightThumb
    } else if vk == A {
        KeyClassification::Char
    } else {
        KeyClassification::Passthrough
    };
    RawKeyEvent {
        vk_code: vk,
        scan_code: ScanCode(0),
        event_type: if down {
            KeyEventType::KeyDown
        } else {
            KeyEventType::KeyUp
        },
        extra_info: 0,
        timestamp: at_ms * 1000,
        key_classification: class,
        physical_pos: if vk == A { Some(POS) } else { None },
        ime_relevance: ImeRelevance::default(),
        modifier_key: None,
        modifier_snapshot: ModifierState::default(),
        injected: false,
    }
}

fn combo(vk: VkCode, ctrl: bool) -> ParsedKeyCombo {
    ParsedKeyCombo {
        ctrl,
        shift: false,
        alt: false,
        vk,
    }
}

fn effects(d: &Decision) -> Vec<String> {
    let list = match d {
        Decision::PassThrough => return vec![],
        Decision::PassThroughWith { effects } | Decision::Consume { effects } => effects,
    };
    list.iter()
        .map(|e| match e {
            Effect::Input(InputEffect::SendKeys(keys)) => keys
                .iter()
                .map(|k| match k {
                    KeyAction::Romaji(s) => s.clone(),
                    KeyAction::Key(vk) => format!("down {:#x}", vk.0),
                    KeyAction::KeyUp(vk) => format!("up {:#x}", vk.0),
                    other => format!("{other:?}"),
                })
                .collect::<Vec<String>>()
                .join(" "),
            Effect::Input(InputEffect::ReinjectKey(ev)) => {
                format!("reinject {:#x} {:?}", ev.vk_code.0, ev.event_type)
            }
            Effect::Timer(TimerEffect::Start { id, duration }) => {
                format!("start {id} {}", duration.as_micros())
            }
            Effect::Timer(TimerEffect::Kill(id)) => format!("kill {id}"),
            Effect::Ime(ImeEffect::SetOpen { open, origin }) => match origin {
                SetOpenOrigin::ExplicitUserAction => format!("open {open}"),
                SetOpenOrigin::ActivationSync => format!("sync {open}"),
            },
            Effect::Ui(UiEffect::EngineStateChanged {
                enabled,
                send_ime_key,
            }) => format!("shown {enabled} {send_ime_key}"),
        })
        .collect()
}

fn activated(mut e: Engine) -> Engine {
    let d = e.on_command(EngineCommand::RefreshState, &ctx(true));
    assert_eq!(effects(&d), ["sync true", "shown true true"]);
    e
}

#[test]
fn the_first_failing_condition_is_the_reason() {
    let mut e = engine();
    let mut c = ctx(true);
    assert_eq!(e.compute_state(&c), ActivationState::Active);
    c.input_mode = InputModeState::ObservedKana;
    assert_eq!(
        e.compute_state(&c),
        ActivationState::Inactive(InactiveReason::NotRomajiInput)
    );
    c.ime_on = false;
    assert_eq!(
        e.compute_state(&c),
        ActivationState::Inactive(InactiveReason::ImeOff)
    );
    c.is_japanese_ime = false;
    assert_eq!(
        e.compute_state(&c),
        ActivationState::Inactive(InactiveReason::NotJapaneseIme)
    );
    e.set_user_enabled(false);
    assert!(!e.is_user_enabled());
    assert_eq!(
        e.compute_state(&c),
        ActivationState::Inactive(InactiveReason::UserDisabled)
    );
    assert!(!e.compute_active(&c));
}

#[test]
fn a_change_is_announced_once() {
    let mut e = activated(engine());
    let d = e.on_command(EngineCommand::RefreshState, &ctx(true));
    assert!(matches!(d, Decision::PassThrough));
    let d = e.on_command(EngineCommand::RefreshState, &ctx(false));
    assert_eq!(
        effects(&d),
        ["kill 1", "kill 2", "sync false", "shown false true"]
    );
    let d = e.on_command(EngineCommand::RefreshState, &ctx(false));
    assert!(matches!(d, Decision::PassThrough));
}

#[test]
fn a_mode_without_romaji_is_left_alone() {
    let mut e = activated(engine());
    let mut c = ctx(true);
    c.input_mode = InputModeState::ObservedKana;
    let d = e.on_command(EngineCommand::RefreshState, &c);
    assert_eq!(effects(&d), ["kill 1", "kill 2", "shown false false"]);
}

#[test]
fn a_consumed_key_down_takes_its_key_up_along() {
    let mut e = activated(engine());
    let d = e.on_input(event(A, true, 0), &ctx(true));
    assert!(d.is_consumed());
    assert_eq!(
        effects(&d),
        ["kill 1", "kill 2", "start 1 100000"]
    );
    let d = e.on_timeout(TIMER_PENDING, &ctx(true));
    assert_eq!(effects(&d), ["kill 1", "kill 2", "u"]);
    let d = e.on_input(event(A, false, 200), &ctx(true));
    assert!(d.is_consumed());
    assert!(effects(&d).is_empty());
    let d = e.on_input(event(A, false, 201), &ctx(true));
    assert!(!d.is_consumed());
}

#[test]
fn a_key_that_went_through_while_inactive_stays_with_the_os() {
    let mut e = engine();
    let d = e.on_input(event(A, true, 0), &ctx(false));
    assert!(matches!(d, Decision::PassThrough));
    let d = e.on_input(event(A, true, 30), &ctx(true));
    assert!(!d.is_consumed());
    assert_eq!(effects(&d), ["sync true", "shown true true"]);
    let d = e.on_input(event(A, true, 60), &ctx(true));
    assert!(matches!(d, Decision::PassThrough));
    let d = e.on_input(event(A, false, 90), &ctx(true));
    assert!(matches!(d, Decision::PassThrough));
    let d = e.on_input(event(A, true, 120), &ctx(true));
    assert!(d.is_consumed());
}

#[test]
fn a_stroke_with_a_thumb_key_takes_the_face_of_the_thumb() {
    let mut e = activated(engine());
    e.on_input(event(NONCONVERT, true, 0), &ctx(true));
    let d = e.on_input(event(A, true, 20), &ctx(true));
    assert_eq!(effects(&d), ["kill 1", "kill 2", "wo"]);
    e.on_input(event(A, true, 300), &ctx(true));
    let d = e.on_input(event(CONVERT, true, 340), &ctx(true));
    assert!(d.is_consumed());
    let d = e.on_timeout(TIMER_PENDING, &ctx(true));
    assert_eq!(effects(&d), ["kill 1", "kill 2", "vu"]);
}

#[test]
fn two_phases_send_early_and_take_back() {
    let mut e = activated(engine_with(ConfirmMode::TwoPhase, no_keys()));
    let d = e.on_input(event(A, true, 0), &ctx(true));
    assert_eq!(effects(&d), ["kill 1", "kill 2", "start 2 30000"]);
    let d = e.on_timeout(TIMER_SPECULATIVE, &ctx(true));
    assert_eq!(effects(&d), ["kill 2", "start 1 70000", "u"]);
    let d = e.on_input(event(NONCONVERT, true, 50), &ctx(true));
    assert_eq!(
        effects(&d),
        ["kill 1", "kill 2", "SpecialKey(Backspace) wo"]
    );
}

#[test]
fn configured_keys_are_matched_with_their_modifiers() {
    let ctrl = ModifierState {
        ctrl: true,
        ..ModifierState::default()
    };
    let ev = event(A, true, 0);
    assert!(matches_key_combo(combo(A, true), &ev, ctrl));
    assert!(!matches_key_combo(combo(A, false), &ev, ctrl));
    assert!(!matches_key_combo(combo(INSERT, true), &ev, ctrl));
}

#[test]
fn a_bare_thumb_key_is_left_to_the_machine_while_active() {
    let mut keys = no_keys();
    keys.ime_on = vec![combo(NONCONVERT, false)];
    let e = engine_with(ConfirmMode::Wait, keys);
    let ev = event(NONCONVERT, true, 0);
    assert_eq!(e.match_special_keys(&ctx(true), &ev), None);
    assert_eq!(
        e.match_special_keys(&ctx(false), &ev),
        Some(SpecialKeyMatch::ImeOn)
    );
    let mut injected = ev;
    injected.injected = true;
    assert!(!Engine::is_bare_thumb(&injected, ModifierState::default()));
    assert_eq!(
        e.match_special_keys(&ctx(true), &injected),
        Some(SpecialKeyMatch::ImeOn)
    );
}

#[test]
fn detected_keys_count_beside_configured_ones_but_not_when_injected() {
    let mut keys = no_keys();
    keys.ime_off = vec![combo(A, false)];
    let mut e = engine_with(ConfirmMode::Wait, keys);
    e.set_ime_on_auto_keys(vec![combo(INSERT, false)]);
    e.set_ime_off_auto_keys(vec![combo(INSERT, true)]);
    e.set_ime_toggle_auto_keys(vec![combo(CONVERT, true)]);
    let mut ev = event(INSERT, true, 0);
    assert_eq!(
        e.match_special_keys(&ctx(true), &ev),
        Some(SpecialKeyMatch::ImeOn)
    );
    ev.injected = true;
    assert_eq!(e.match_special_keys(&ctx(true), &ev), None);
    let mut with_ctrl = ctx(true);
    with_ctrl.modifiers.ctrl = true;
    assert_eq!(
        e.match_special_keys(&with_ctrl, &event(INSERT, true, 0)),
        Some(SpecialKeyMatch::ImeOff)
    );
    assert_eq!(
        e.match_special_keys(&with_ctrl, &event(CONVERT, true, 0)),
        Some(SpecialKeyMatch::ImeToggle)
    );
    let mut configured = event(A, true, 0);
    configured.injected = true;
    assert_eq!(
        e.match_special_keys(&ctx(true), &configured),
        Some(SpecialKeyMatch::ImeOff)
    );
    assert!(e.matches_ime_off(&ctx(true), &configured));
    configured.ime_relevance.sync_direction = Some(ShadowImeAction::Toggle);
    assert_eq!(e.match_special_keys(&ctx(true), &configured), None);
}

#[test]
fn the_engine_keys_switch_and_recover() {
    let mut keys = no_keys();
    keys.engine_on = vec![combo(INSERT, true)];
    keys.engine_off = vec![combo(INSERT, false)];
    let mut e = activated(engine_with(ConfirmMode::Wait, keys));
    let mut with_ctrl = ctx(true);
    with_ctrl.modifiers.ctrl = true;
    assert_eq!(e.match_special_keys(&with_ctrl, &event(INSERT, true, 0)), None);
    let d = e.on_input(event(INSERT, true, 0), &ctx(true));
    assert!(d.is_consumed());
    assert_eq!(
        effects(&d),
        ["kill 1", "kill 2", "open false", "shown false true"]
    );
    assert!(!e.is_user_enabled());
    with_ctrl.ime_on = false;
    let d = e.on_input(event(INSERT, true, 10), &with_ctrl);
    assert_eq!(
        effects(&d),
        ["kill 1", "kill 2", "open true", "shown true true"]
    );
    assert!(e.is_user_enabled());
}

#[test]
fn the_wish_to_open_the_ime_is_not_echoed() {
    let mut keys = no_keys();
    keys.ime_on = vec![combo(INSERT, false)];
    keys.ime_toggle = vec![combo(INSERT, true)];
    let mut e = engine_with(ConfirmMode::Wait, keys);
    let d = e.on_input(event(INSERT, true, 0), &ctx(false));
    assert!(d.is_consumed());
    assert_eq!(effects(&d), ["open true", "shown true true"]);
    let d = e.on_command(EngineCommand::RefreshState, &ctx(true));
    assert!(matches!(d, Decision::PassThrough));
    e.on_input(event(INSERT, false, 5), &ctx(true));
    let mut with_ctrl = ctx(true);
    with_ctrl.modifiers.ctrl = true;
    let d = e.on_input(event(INSERT, true, 10), &with_ctrl);
    assert_eq!(effects(&d), ["open false", "shown false true"]);
}

#[test]
fn repeated_taps_switch_the_engine_off() {
    let mut e = activated(engine());
    e.set_engine_off_solo_repeat_vk(INSERT);
    for i in 0..u64::from(SOLO_REPEAT_LIMIT) - 1 {
        let d = e.on_input(event(INSERT, true, i * 10), &ctx(true));
        assert!(!d.is_consumed());
        e.on_input(event(INSERT, false, i * 10 + 5), &ctx(true));
    }
    assert!(e.is_user_enabled());
    assert!(!e.take_solo_off_notification());
    let d = e.on_input(event(INSERT, true, 50), &ctx(true));
    assert_eq!(
        effects(&d),
        ["kill 1", "kill 2", "open false", "shown false true"]
    );
    assert!(!e.is_user_enabled());
    assert!(e.take_solo_off_notification());
    assert!(!e.take_solo_off_notification());
}

#[test]
fn other_keys_break_a_row_of_taps() {
    let mut e = activated(engine());
    e.set_engine_off_solo_repeat_vk(INSERT);
    for i in 0..20u64 {
        e.on_input(event(INSERT, true, i * 20), &ctx(true));
        e.on_input(event(INSERT, false, i * 20 + 5), &ctx(true));
        e.on_input(event(VkCode(0x0D), true, i * 20 + 10), &ctx(true));
        e.on_input(event(VkCode(0x0D), false, i * 20 + 15), &ctx(true));
    }
    assert!(e.is_user_enabled());
}

#[test]
fn a_tap_alone_can_stand_for_the_ime_switch() {
    let mut e = activated(engine());
    e.set_thumb_key_solo_tap_config(
        Some(NONCONVERT),
        ModeKeyConfig::from_legacy_bools(false, false),
        Some(CONVERT),
        ModeKeyConfig::from_legacy_bools(false, true),
    );
    e.on_input(event(NONCONVERT, true, 0), &ctx(true));
    let d = e.on_timeout(TIMER_PENDING, &ctx(true));
    assert_eq!(effects(&d), ["kill 1", "kill 2", "down 0x1d up 0x1d"]);
    e.on_input(event(CONVERT, true, 300), &ctx(true));
    let d = e.on_timeout(TIMER_PENDING, &ctx(true));
    assert_eq!(effects(&d), ["kill 1", "kill 2"]);
    e.set_muhenkan_delegate_to_open_axis(Some(ShadowImeAction::TurnOff));
    e.on_input(event(NONCONVERT, false, 400), &ctx(true));
    e.on_input(event(NONCONVERT, true, 600), &ctx(true));
    let d = e.on_timeout(TIMER_PENDING, &ctx(true));
    assert_eq!(
        effects(&d),
        ["kill 1", "kill 2", "open false", "shown false true"]
    );
}

#[test]
fn a_dedicated_key_replaces_the_tap() {
    let mut e = activated(engine());
    e.set_thumb_key_solo_tap_config(
        Some(NONCONVERT),
        ModeKeyConfig::from_legacy_bools(false, true),
        None,
        ModeKeyConfig::from_legacy_bools(false, true),
    );
    e.set_muhenkan_solo_tap_dedicated_fn_key(Some(VkCode(0x7F)));
    e.on_input(event(NONCONVERT, true, 0), &ctx(true));
    let d = e.on_timeout(TIMER_PENDING, &ctx(true));
    assert_eq!(effects(&d), ["kill 1", "kill 2", "down 0x7f up 0x7f"]);
}

#[test]
fn a_lost_context_sends_no_raw_thumb_key() {
    let mut e = activated(engine());
    e.set_space_thumb_config(
        Some(NONCONVERT),
        TextKeyConfig {
            ignore_composing_guard: true,
            shift_literal: false,
        },
    );
    e.on_input(event(NONCONVERT, true, 0), &ctx(true));
    let d = e.on_command(
        EngineCommand::InvalidateContext(ContextChange::InputLanguageChanged),
        &ctx(true),
    );
    assert_eq!(effects(&d), ["kill 1", "kill 2"]);
    e.set_thumb_keys_are_ime_switch(true);
    e.on_input(event(NONCONVERT, false, 10), &ctx(true));
    e.on_input(event(NONCONVERT, true, 20), &ctx(true));
    let d = e.on_timeout(TIMER_PENDING, &ctx(false));
    assert_eq!(effects(&d), ["kill 1", "kill 2", "down 0x1d up 0x1d"]);
}

#[test]
fn a_quick_tap_before_another_key_is_not_lost() {
    let mut e = activated(engine());
    e.set_space_thumb_config(
        Some(NONCONVERT),
        TextKeyConfig {
            ignore_composing_guard: false,
            shift_literal: false,
        },
    );
    e.on_input(event(NONCONVERT, true, 0), &ctx(true));
    let d = e.on_input(event(VkCode(0x0D), true, 40), &ctx(true));
    assert!(!d.is_consumed());
    assert_eq!(effects(&d), ["kill 1", "kill 2", "down 0x1d up 0x1d"]);
    let mut composing = ctx(true);
    composing.composing = true;
    e.on_input(event(NONCONVERT, false, 50), &composing);
    e.on_input(event(NONCONVERT, true, 60), &composing);
    let d = e.on_input(event(VkCode(0x0D), true, 90), &composing);
    assert_eq!(effects(&d), ["kill 1", "kill 2"]);
}

#[test]
fn a_focus_change_settles_all_keys() {
    let mut e = activated(engine());
    e.on_input(event(A, true, 0), &ctx(true));
    let d = e.on_command(EngineCommand::FocusChanged, &ctx(true));
    assert!(!d.is_consumed());
    assert_eq!(
        effects(&d),
        ["kill 1", "kill 2", "u", "reinject 0x41 KeyUp"]
    );
    let d = e.on_command(EngineCommand::FocusChanged, &ctx(true));
    assert_eq!(effects(&d), ["kill 1", "kill 2"]);
}

#[test]
fn commands_leave_no_request_behind() {
    let mut e = activated(engine());
    e.set_thumb_key_solo_tap_config(
        None,
        ModeKeyConfig::from_legacy_bools(false, true),
        Some(CONVERT),
        ModeKeyConfig::from_legacy_bools(false, true),
    );
    e.set_henkan_delegate_to_open_axis(Some(ShadowImeAction::Toggle));
    e.on_input(event(CONVERT, true, 0), &ctx(true));
    e.on_command(EngineCommand::SwapLayout(layout()), &ctx(true));
    let d = e.on_input(event(A, true, 300), &ctx(true));
    assert_eq!(effects(&d), ["kill 1", "kill 2", "start 1 100000"]);
    e.on_input(event(CONVERT, false, 310), &ctx(true));
    e.on_timeout(TIMER_PENDING, &ctx(true));
    e.on_input(event(CONVERT, true, 600), &ctx(true));
    let d = e.on_command(EngineCommand::ToggleEngine, &ctx(true));
    assert_eq!(
        effects(&d),
        ["kill 1", "kill 2", "open false", "shown false true"]
    );
    let d = e.on_command(EngineCommand::ForceEngineOn, &ctx(true));
    assert_eq!(
        effects(&d),
        ["kill 1", "kill 2", "open true", "shown true true"]
    );
}

#[test]
fn settings_are_taken_over() {
    let mut e = activated(engine());
    e.on_command(
        EngineCommand::UpdateFsmParams {
            threshold_ms: 80,
            confirm_mode: ConfirmMode::TwoPhase,
            speculative_delay_ms: 25,
        },
        &ctx(true),
    );
    let d = e.on_input(event(A, true, 0), &ctx(true));
    assert_eq!(effects(&d), ["kill 1", "kill 2", "start 2 25000"]);
    assert_eq!(e.debug_state_label(None), "PendingChar");
    assert_eq!(e.debug_state_label(Some("1")), "PendingChar(vk=0x41)");
    let mut keys = no_keys();
    keys.ime_off = vec![combo(INSERT, false)];
    e.on_command(EngineCommand::ReloadKeys { special: keys }, &ctx(true));
    assert!(e.matches_ime_off(&ctx(true), &event(INSERT, true, 0)));
}

const B: VkCode = VkCode(0x42);

fn second_key(at_ms: u64) -> RawKeyEvent {
    let mut ev = event(A, true, at_ms);
    ev.vk_code = B;
    ev
}

#[test]
fn the_nearer_key_has_the_thumb() {
    let mut e = activated(engine());
    e.on_input(event(A, true, 0), &ctx(true));
    e.on_input(event(NONCONVERT, true, 60), &ctx(true));
    let d = e.on_input(second_key(80), &ctx(true));
    assert_eq!(effects(&d), ["kill 1", "kill 2", "u wo"]);

    let mut e = activated(engine());
    e.on_input(event(A, true, 0), &ctx(true));
    e.on_input(event(NONCONVERT, true, 20), &ctx(true));
    let d = e.on_input(second_key(80), &ctx(true));
    assert_eq!(effects(&d), ["kill 1", "kill 2", "start 1 100000", "wo"]);
}

#[test]
fn the_order_of_a_stroke_does_not_matter() {
    let mut e = activated(engine());
    e.on_input(event(A, true, 0), &ctx(true));
    e.on_input(event(NONCONVERT, true, 30), &ctx(true));
    let d = e.on_timeout(TIMER_PENDING, &ctx(true));
    assert_eq!(effects(&d), ["kill 1", "kill 2", "wo"]);
    let mut e = activated(engine());
    e.on_input(event(NONCONVERT, true, 0), &ctx(true));
    let d = e.on_input(event(A, true, 30), &ctx(true));
    assert_eq!(effects(&d), ["kill 1", "kill 2", "wo"]);
}

#[test]
fn the_speculative_mode_sends_at_once() {
    let mut e = activated(engine_with(ConfirmMode::Speculative, no_keys()));
    let d = e.on_input(event(A, true, 0), &ctx(true));
    assert_eq!(effects(&d), ["kill 1", "kill 2", "start 1 100000", "u"]);
}

#[test]
fn a_pushed_effect_comes_last_and_keeps_the_verdict() {
    let ui = |enabled: bool| Effect::Ui(UiEffect::EngineStateChanged { enabled, send_ime_key: false });
    let mut passed = Decision::pass_through();
    passed.push_effect(ui(true));
    passed.push_effect(ui(false));
    match passed {
        Decision::PassThroughWith { effects } => {
            assert_eq!(effects.len(), 2);
            assert!(matches!(effects[0], Effect::Ui(UiEffect::EngineStateChanged { enabled: true, .. })));
            assert!(matches!(effects[1], Effect::Ui(UiEffect::EngineStateChanged { enabled: false, .. })));
        }
        other => panic!("{other:?}"),
    }
}

fn shifted(left_thumb_down: Option<u64>) -> InputContext {
    let mut c = ctx(true);
    c.modifiers.shift = true;
    c.left_thumb_down = left_thumb_down;
    c
}

#[test]
fn a_text_key_with_shift_is_no_thumb_key() {
    let literal = |shift_literal: bool| TextKeyConfig {
        ignore_composing_guard: true,
        shift_literal,
    };
    let mut e = activated(engine());
    e.set_space_thumb_config(Some(NONCONVERT), literal(true));
    let d = e.on_input(event(NONCONVERT, true, 10), &shifted(Some(10_000)));
    assert!(matches!(d, Decision::PassThrough));
    assert_eq!(e.debug_state_label(None), "Idle");
    // The press makes no stroke with a key that comes while it is held.
    let d = e.on_input(event(A, true, 20), &shifted(Some(10_000)));
    assert!(!d.is_consumed());
    let d = e.on_input(event(NONCONVERT, false, 30), &shifted(None));
    assert!(matches!(d, Decision::PassThrough));

    // What waits goes out first.
    e.on_input(event(A, true, 200), &ctx(true));
    let d = e.on_input(event(NONCONVERT, true, 210), &shifted(Some(210_000)));
    assert!(!d.is_consumed());
    assert_eq!(effects(&d), ["kill 1", "kill 2", "u"]);

    // Without shift, or without the setting, the key waits for a stroke.
    e.on_input(event(NONCONVERT, false, 220), &ctx(true));
    let d = e.on_input(event(NONCONVERT, true, 400), &ctx(true));
    assert!(d.is_consumed());
    assert_eq!(e.debug_state_label(None), "PendingThumb(left=true)");
    let mut e = activated(engine());
    e.set_space_thumb_config(Some(NONCONVERT), literal(false));
    e.set_enter_thumb_config(Some(CONVERT), literal(true));
    let d = e.on_input(event(NONCONVERT, true, 0), &shifted(Some(0)));
    assert!(d.is_consumed());
    let mut e = activated(engine());
    e.set_enter_thumb_config(Some(CONVERT), literal(true));
    let d = e.on_input(event(CONVERT, true, 0), &shifted(None));
    assert!(matches!(d, Decision::PassThrough));
}

#[test]
fn the_tap_that_stops_the_engine_keeps_its_key_up() {
    let mut e = activated(engine());
    e.set_engine_off_solo_repeat_vk(INSERT);
    for i in 0..u64::from(SOLO_REPEAT_LIMIT) - 1 {
        e.on_input(event(INSERT, true, i * 10), &ctx(true));
        e.on_input(event(INSERT, false, i * 10 + 5), &ctx(true));
    }
    let d = e.on_input(event(INSERT, true, 50), &ctx(true));
    assert!(d.is_consumed());
    assert!(!e.is_user_enabled());
    // Calls in between leave the key alone.
    e.on_input(event(A, true, 52), &ctx(true));
    e.on_timeout(TIMER_PENDING, &ctx(true));
    e.on_command(EngineCommand::RefreshState, &ctx(true));
    let d = e.on_input(event(INSERT, false, 55), &ctx(true));
    assert!(d.is_consumed());
    assert!(effects(&d).is_empty());
    let d = e.on_input(event(A, false, 57), &ctx(true));
    assert!(matches!(d, Decision::PassThrough));
}

#[test]
fn only_an_emergency_stop_is_notified() {
    let mut keys = no_keys();
    keys.engine_off = vec![combo(INSERT, false)];
    let mut e = activated(engine_with(ConfirmMode::Wait, keys));
    e.on_input(event(INSERT, true, 0), &ctx(true));
    assert!(!e.is_user_enabled());
    e.on_command(EngineCommand::ForceEngineOn, &ctx(true));
    e.on_command(EngineCommand::ToggleEngine, &ctx(true));
    assert!(!e.take_solo_off_notification());
}

fn char_layout() -> YabLayout {
    let face = |c: char| YabFace {
        entries: vec![YabEntry {
            pos: POS,
            value: YabValue::Romaji {
                romaji: "x".to_string(),
                kana: Some(c),
            },
        }],
    };
    YabLayout {
        normal: face('う'),
        left_thumb: face('を'),
        right_thumb: face('ゔ'),
        shift: YabFace::empty(),
        left_thumb_shift: YabFace::empty(),
        right_thumb_shift: YabFace::empty(),
    }
}

fn pair(first: char, second: char, weight: u32) -> KanaPair {
    KanaPair {
        first,
        second,
        weight,
    }
}

fn predicting(pairs: Vec<KanaPair>) -> Engine {
    let fsm = NicolaFsm::new(
        char_layout(),
        NONCONVERT,
        CONVERT,
        100,
        ConfirmMode::NgramPredictive,
        30,
    );
    let mut e = activated(Engine::new(fsm, no_keys()));
    let mut model = NgramModel::new(20_000, 30_000, 110_000);
    for p in pairs {
        model.add_pair(p);
    }
    e.on_command(EngineCommand::SetNgramModel(model), &ctx(true));
    e
}

#[test]
fn prediction_without_statistics_has_two_phases() {
    let mut e = activated(engine_with(ConfirmMode::NgramPredictive, no_keys()));
    let d = e.on_input(event(A, true, 0), &ctx(true));
    assert_eq!(effects(&d), ["kill 1", "kill 2", "start 2 30000"]);
}

#[test]
fn prediction_waits_where_a_thumb_face_is_likelier() {
    let mut e = predicting(vec![pair('う', 'を', 5), pair('う', 'う', 2)]);
    // Nothing was sent before.
    let d = e.on_input(event(A, true, 0), &ctx(true));
    assert_eq!(effects(&d), ["kill 1", "kill 2", "start 2 30000"]);
    e.on_timeout(TIMER_SPECULATIVE, &ctx(true));
    e.on_timeout(TIMER_PENDING, &ctx(true));
    e.on_input(event(A, false, 150), &ctx(true));
    // The window is longer, up to its bound.
    let d = e.on_input(event(A, true, 200), &ctx(true));
    assert_eq!(effects(&d), ["kill 1", "kill 2", "start 1 110000"]);
    let d = e.on_input(event(NONCONVERT, true, 308), &ctx(true));
    assert!(d.is_consumed());
    let d = e.on_timeout(TIMER_PENDING, &ctx(true));
    assert_eq!(effects(&d), ["kill 1", "kill 2", "Char('を')"]);
}

#[test]
fn prediction_speculates_where_the_plain_face_is_likelier() {
    let mut e = predicting(vec![pair('う', 'う', 9), pair('う', 'う', 0), pair('う', 'を', 5)]);
    e.on_input(event(A, true, 0), &ctx(true));
    e.on_timeout(TIMER_PENDING, &ctx(true));
    e.on_input(event(A, false, 150), &ctx(true));
    let d = e.on_input(event(A, true, 200), &ctx(true));
    assert_eq!(effects(&d), ["kill 1", "kill 2", "start 2 30000"]);
    // The window is shorter.
    let d = e.on_timeout(TIMER_SPECULATIVE, &ctx(true));
    assert_eq!(effects(&d), ["kill 2", "start 1 50000", "Char('う')"]);
    // A change of context forgets what was sent.
    e.on_command(EngineCommand::FocusChanged, &ctx(true));
    let d = e.on_input(event(A, true, 500), &ctx(true));
    assert_eq!(effects(&d), ["kill 1", "kill 2", "start 2 30000"]);
    let d = e.on_timeout(TIMER_SPECULATIVE, &ctx(true));
    assert_eq!(effects(&d), ["kill 2", "start 1 70000", "Char('う')"]);
}

#[test]
fn a_forecast_needs_a_pair() {
    let mut model = NgramModel::new(20, 30, 200);
    let kana = |c: char| Some(c);
    assert_eq!(
        model.forecast(kana('あ'), kana('う'), kana('を'), None),
        Forecast::Unknown
    );
    model.add_pair(pair('あ', 'う', 1));
    assert_eq!(
        model.forecast(kana('あ'), kana('う'), kana('を'), None),
        Forecast::Plain
    );
    assert_eq!(
        model.forecast(None, kana('う'), kana('を'), None),
        Forecast::Unknown
    );
    assert_eq!(model.window(100, Forecast::Plain), 80);
    assert_eq!(model.window(190, Forecast::Thumb), 200);
    assert_eq!(model.window(40, Forecast::Plain), 30);
    assert_eq!(model.window(5, Forecast::Unknown), 5);
}

#[test]
fn keys_that_were_hardly_down_together_are_two_strokes() {
    let sent_after = |released_ms: u64| {
        let phys = PhysicalKeyState::empty();
        let mut fsm = NicolaFsm::new(layout(), NONCONVERT, CONVERT, 100, ConfirmMode::Wait, 30);
        fsm.set_thumb_key_solo_tap_config(
            Some(NONCONVERT),
            ModeKeyConfig::from_legacy_bools(true, false),
            None,
            ModeKeyConfig::from_legacy_bools(false, true),
        );
        fsm.on_event(event(A, true, 0), &phys);
        fsm.on_event(event(NONCONVERT, true, 40), &phys);
        fsm.on_event(event(A, false, released_ms), &phys);
        fsm.on_timeout(TIMER_PENDING, &phys, false).actions
    };
    let romaji = |s: &str| KeyAction::Romaji(s.to_string());
    // The character key is down alone for forty milliseconds.
    assert_eq!(
        sent_after(50),
        vec![
            romaji("u"),
            KeyAction::Key(NONCONVERT),
            KeyAction::KeyUp(NONCONVERT)
        ]
    );
    assert_eq!(sent_after(80), vec![romaji("wo")]);
}

fn named(list: Vec<Effect>) -> Vec<String> {
    effects(&Decision::Consume { effects: list })
}

#[test]
fn going_over_to_the_same_state_again_announces_nothing() {
    let off = ActivationState::Inactive(InactiveReason::ImeOff);
    let kana = ActivationState::Inactive(InactiveReason::NotRomajiInput);
    let sync = SetOpenOrigin::ActivationSync;
    let mut e = engine();
    assert_eq!(
        named(e.transition_activation(ActivationState::Active, sync)),
        ["sync true", "shown true true"]
    );
    assert!(e.transition_activation(ActivationState::Active, sync).is_empty());
    assert_eq!(
        named(e.transition_activation(kana, sync)),
        ["shown false false"]
    );
    assert!(e.transition_activation(kana, sync).is_empty());
    assert!(e.transition_activation(off, sync).is_empty());
}

#[test]
fn a_wish_is_asked_for_once() {
    for was_on in [true, false] {
        for open in [true, false] {
            let mut e = engine();
            e.check_active_transition(&ctx(was_on));
            let list = named(e.ime_set_open_effects(&ctx(was_on), open));
            let asked: Vec<&String> = list.iter().filter(|s| s.starts_with("open")).collect();
            assert_eq!(asked, [&format!("open {open}")]);
            assert!(!list.iter().any(|s| s.starts_with("sync")));
            assert!(e.check_active_transition(&ctx(open)).is_empty());
        }
    }
}
