use awase::config::AppConfig;
use awase::engine::decision::{
    Effect, ImeEffect, InputEffect, SetOpenOrigin, TimerEffect, UiEffect,
};
use awase::engine::fsm_types::TIMER_PENDING;
use awase::macos::app::{
    flags_changed_event_type, into_effects, is_ime_switch_action, keycode_from_field,
    passthrough_moves_focus, tap_action, App, CgEvent, CgEventKind, CgFlags, EventPlan, FlushPlan,
    HostAction, HostState, MenuPlan, TimerPlan, DEFER_CAP, FLUSH_TIMER_ID,
};
use awase::macos::event_loop::{MenuAction, TapAction};
use awase::macos::hook::{classify_modifier, KEYCODE_EISU, KEYCODE_KANA};
use awase::macos::ime::{EXPECTATION_GRACE, NANOS_PER_MS, OBSERVATION_SETTLE};
use awase::macos::login_item::{toggle, LoginItemRequest, LoginItemState};
use awase::kana_table::CharRomaji;
use awase::macos::output::{KeyPost, Output, OutputStyle, INJECT_MARKER};
use awase::macos::setup::{
    build_engine, output_style, parse_combos, parse_symbol_romaji, poll_interval_ms,
    with_middle_dot, SetupError,
};
use awase::macos::tray::SystemTray;
use awase::scanmap::PhysicalPos;
use awase::types::{
    ImeRelevance, KeyAction, KeyClassification, KeyEventType, ModifierKey, ModifierState,
    RawKeyEvent, ScanCode, VkCode,
};
use awase::yab::{YabEntry, YabFace, YabLayout, YabValue};

const TAB: u16 = 0x30;
const ENTER: u16 = 0x24;
const KEYPAD_ENTER: u16 = 0x4C;
const ESCAPE: u16 = 0x35;
const BACKSPACE: u16 = 0x33;
const LEFT_ARROW: u16 = 0x7B;
const L: u16 = 0x25;
const CONTROL: u16 = 0x3B;

fn moves_focus(keycode: u16, modifiers: ModifierState, is_modifier_key: bool) -> bool {
    passthrough_moves_focus(
        TapAction::Pass,
        keycode,
        KeyEventType::KeyDown,
        modifiers,
        is_modifier_key,
    )
}

fn held(modifier: fn(&mut ModifierState)) -> ModifierState {
    let mut m = ModifierState::default();
    modifier(&mut m);
    m
}

#[test]
fn focus_moving_keys_invalidate_the_deferred_queue() {
    for key in [TAB, ENTER, KEYPAD_ENTER, ESCAPE] {
        assert!(
            moves_focus(key, ModifierState::default(), false),
            "{key:#x}"
        );
    }
    for set in [
        (|m: &mut ModifierState| m.win = true) as fn(&mut ModifierState),
        |m: &mut ModifierState| m.ctrl = true,
        |m: &mut ModifierState| m.alt = true,
    ] {
        assert!(moves_focus(L, held(set), false));
    }
}

#[test]
fn plain_editing_keys_keep_the_deferred_queue() {
    assert!(!moves_focus(BACKSPACE, ModifierState::default(), false));
    assert!(!moves_focus(LEFT_ARROW, ModifierState::default(), false));
    assert!(!moves_focus(BACKSPACE, held(|m| m.shift = true), false));
}

#[test]
fn a_bare_modifier_key_press_keeps_the_deferred_queue() {
    assert!(!moves_focus(CONTROL, held(|m| m.ctrl = true), true));
}

#[test]
fn consumed_keys_and_key_up_never_move_focus() {
    assert!(!passthrough_moves_focus(
        TapAction::Consume,
        TAB,
        KeyEventType::KeyDown,
        ModifierState::default(),
        false
    ));
    assert!(!passthrough_moves_focus(
        TapAction::Pass,
        TAB,
        KeyEventType::KeyUp,
        held(|m| m.win = true),
        false
    ));
}

const ABC: &str = "com.apple.keylayout.ABC";
const KANA_MODE: &str = "com.apple.inputmethod.Kotoeri.RomajiTyping.Japanese";

fn layout() -> YabLayout {
    let mut l = YabLayout::empty();
    l.normal.entries.push(YabEntry {
        pos: PhysicalPos { row: 2, col: 0 },
        value: YabValue::Romaji {
            romaji: "u".to_string(),
            kana: None,
        },
    });
    l
}

fn app(source: &str) -> App {
    let (config, _) = AppConfig::default().validate();
    let setup = build_engine(&config, layout()).unwrap();
    let output = Output::new(OutputStyle::Romaji, vec![]);
    App::new(setup.engine, output, setup.thumbs, Some(source))
}

fn host(ms: u64, source: &str, pid: Option<i32>) -> HostState {
    HostState {
        now: ms * NANOS_PER_MS,
        settle: OBSERVATION_SETTLE,
        source: Some(source.to_string()),
        frontmost_pid: pid,
    }
}

const NO_FLAGS: CgFlags = CgFlags {
    shift: false,
    control: false,
    alternate: false,
    command: false,
};

fn key(kind: CgEventKind, keycode: u16) -> CgEvent {
    CgEvent {
        kind,
        keycode,
        user_data: 0,
        flags: NO_FLAGS,
    }
}

/// Carries out the effects of a decision and collects what the host was asked for, in words.
fn run(app: &mut App, decision: awase::engine::decision::Decision, h: &HostState) -> Vec<String> {
    let mut log = Vec::new();
    for effect in into_effects(decision) {
        for action in app.run_effect(effect, h) {
            match action {
                HostAction::Send(keys) => log.push(format!("send {:?}", app.send_now(&keys).len())),
                HostAction::Reinject { vk, event_type } => {
                    log.push(format!("reinject {:#x} {event_type:?}", vk.0))
                }
                HostAction::ExpectFromKey(code) => {
                    log.push(format!("expect {code:#x}"));
                    if app.expect_ime_from_key(code, h.now) {
                        let d = app.refresh(h);
                        log.extend(run(app, d, h));
                    }
                }
                HostAction::StartTimer { id, duration } => {
                    if id == FLUSH_TIMER_ID {
                        log.push(format!("flush in {}us", duration.as_micros()));
                    }
                }
                HostAction::KillTimer(_) => {}
                HostAction::SelectSource { open } => log.push(format!("select {open}")),
                HostAction::ShowEnabled(e) => log.push(format!("show {e}")),
            }
        }
    }
    log
}

/// Hands a key event in, carries it through, and returns what becomes of it.
fn press(app: &mut App, ev: &CgEvent, h: &HostState) -> (TapAction, Vec<String>) {
    match app.on_cg_event(ev, h) {
        EventPlan::Pass => (TapAction::Pass, vec![]),
        EventPlan::Injected { expect } => {
            let mut log = vec!["injected".to_string()];
            if let Some(code) = expect {
                if app.expect_ime_from_key(code, h.now) {
                    let d = app.refresh(h);
                    log.extend(run(app, d, h));
                }
            }
            (TapAction::Pass, log)
        }
        EventPlan::Decided {
            decision,
            event_type,
        } => {
            let action = tap_action(&decision);
            let mut log = run(app, decision, h);
            if let Some(code) = app.after_event(ev.keycode, event_type, action) {
                if app.expect_ime_from_key(code, h.now) {
                    let d = app.refresh(h);
                    log.extend(run(app, d, h));
                }
            }
            (action, log)
        }
    }
}

/// The kana key is pressed while the IME is off, then a character key that is held back.
fn switching_with_held_key() -> App {
    let mut a = app(ABC);
    assert!(!a.shown_enabled(&host(0, ABC, Some(7))));
    let h = host(1, ABC, Some(7));
    let (action, log) = press(&mut a, &key(CgEventKind::KeyDown, KEYCODE_KANA), &h);
    assert_eq!(action, TapAction::Pass);
    assert_eq!(log, ["show true"]);
    let h = host(10, ABC, Some(7));
    let (action, log) = press(&mut a, &key(CgEventKind::KeyDown, 0x00), &h);
    assert_eq!(action, TapAction::Consume);
    assert!(log.is_empty());
    let h = host(110, ABC, Some(7));
    match a.on_timer_fired(TIMER_PENDING, &h) {
        TimerPlan::Decided(d) => assert_eq!(run(&mut a, d, &h), ["flush in 20000us"]),
        other => panic!("{other:?}"),
    }
    a
}

fn u_pressed() -> Vec<KeyPost> {
    vec![
        KeyPost::Key {
            keycode: 0x20,
            down: true,
            shift: false,
            option: false,
        },
        KeyPost::Key {
            keycode: 0x20,
            down: false,
            shift: false,
            option: false,
        },
    ]
}

#[test]
fn keys_wait_for_the_switch_and_its_settling() {
    let mut a = switching_with_held_key();
    let h = host(130, KANA_MODE, Some(7));
    assert!(matches!(
        a.on_timer_fired(FLUSH_TIMER_ID, &h),
        TimerPlan::Retry
    ));
    assert!(matches!(a.maybe_flush_deferred(&h), FlushPlan::Nothing));
    let h = host(180, KANA_MODE, Some(7));
    assert!(matches!(
        a.on_timer_fired(FLUSH_TIMER_ID, &h),
        TimerPlan::Flush
    ));
    match a.maybe_flush_deferred(&h) {
        FlushPlan::Send(posts) => assert_eq!(posts, u_pressed()),
        other => panic!("{other:?}"),
    }
    assert!(matches!(a.maybe_flush_deferred(&h), FlushPlan::Nothing));
}

#[test]
fn keys_do_not_follow_the_focus_to_another_process() {
    for pid in [Some(8), None] {
        let mut a = switching_with_held_key();
        a.maybe_flush_deferred(&host(130, KANA_MODE, pid));
        let h = host(180, KANA_MODE, pid);
        assert!(matches!(a.maybe_flush_deferred(&h), FlushPlan::Discarded));
        assert!(matches!(
            a.maybe_flush_deferred(&host(200, KANA_MODE, Some(7))),
            FlushPlan::Nothing
        ));
    }
}

#[test]
fn a_switch_that_is_not_observed_is_asked_for_twice_more() {
    let mut a = switching_with_held_key();
    let grace = EXPECTATION_GRACE / NANOS_PER_MS;
    let mut now = grace + 10;
    for _ in 0..2 {
        let h = host(now, ABC, Some(7));
        match a.maybe_flush_deferred(&h) {
            FlushPlan::Reassert(open) => {
                assert!(open);
                assert!(a.after_reassert(open, true, h.now));
            }
            other => panic!("{other:?}"),
        }
        now += grace + 10;
    }
    let h = host(now, ABC, Some(7));
    assert!(matches!(a.maybe_flush_deferred(&h), FlushPlan::Discarded));
}

#[test]
fn a_refused_switch_drops_the_keys() {
    let mut a = switching_with_held_key();
    let h = host(EXPECTATION_GRACE / NANOS_PER_MS + 10, ABC, Some(7));
    assert!(matches!(a.maybe_flush_deferred(&h), FlushPlan::Reassert(true)));
    assert!(!a.after_reassert(true, false, h.now));
    assert!(matches!(a.maybe_flush_deferred(&h), FlushPlan::Nothing));
}

#[test]
fn a_click_and_a_focus_moving_key_drop_the_keys() {
    let mut a = switching_with_held_key();
    let h = host(130, KANA_MODE, Some(7));
    let (action, _) = press(&mut a, &key(CgEventKind::MouseDown, 0), &h);
    assert_eq!(action, TapAction::Pass);
    let later = host(200, KANA_MODE, Some(7));
    assert!(matches!(a.maybe_flush_deferred(&later), FlushPlan::Nothing));

    let mut a = switching_with_held_key();
    let (action, _) = press(&mut a, &key(CgEventKind::KeyDown, TAB), &h);
    assert_eq!(action, TapAction::Pass);
    assert!(matches!(a.maybe_flush_deferred(&later), FlushPlan::Nothing));

    let mut a = switching_with_held_key();
    press(&mut a, &key(CgEventKind::KeyDown, BACKSPACE), &h);
    assert!(matches!(a.maybe_flush_deferred(&later), FlushPlan::Send(_)));
}

#[test]
fn a_failed_switch_without_keys_is_recovered_twice() {
    let mut a = app(ABC);
    let h = host(1, ABC, Some(7));
    press(&mut a, &key(CgEventKind::KeyDown, KEYCODE_KANA), &h);
    let grace = EXPECTATION_GRACE / NANOS_PER_MS;
    let mut now = grace + 10;
    for _ in 0..2 {
        let h = host(now, ABC, Some(7));
        assert_eq!(a.recover_failed_switch(&h), Some(true));
        a.after_recovery(true, true, h.now);
        assert_eq!(a.recover_failed_switch(&h), None);
        now += grace + 10;
    }
    assert_eq!(a.recover_failed_switch(&host(now, ABC, Some(7))), None);
    let h = host(now + 1, ABC, Some(7));
    assert!(a.expect_ime_from_key(KEYCODE_KANA, h.now));
    let h = host(now + grace + 20, ABC, Some(7));
    assert_eq!(a.recover_failed_switch(&h), Some(true));
}

#[test]
fn no_more_keys_are_held_than_the_queue_takes() {
    let mut a = switching_with_held_key();
    let h = host(115, ABC, Some(7));
    let many: Vec<KeyAction> = (0..DEFER_CAP - 1).map(|_| KeyAction::Char('a')).collect();
    a.run_effect(Effect::Input(InputEffect::SendKeys(many)), &h);
    let over = vec![KeyAction::Char('b')];
    a.run_effect(Effect::Input(InputEffect::SendKeys(over)), &h);
    a.maybe_flush_deferred(&host(130, KANA_MODE, Some(7)));
    match a.maybe_flush_deferred(&host(180, KANA_MODE, Some(7))) {
        FlushPlan::Send(posts) => assert_eq!(posts.len(), 2 + (DEFER_CAP - 1)),
        other => panic!("{other:?}"),
    }
}

#[test]
fn switch_keys_go_out_at_once() {
    let mut a = app(KANA_MODE);
    let h = host(5, KANA_MODE, Some(7));
    a.refresh(&h);
    let eisu = vec![
        KeyAction::Key(VkCode(KEYCODE_EISU)),
        KeyAction::KeyUp(VkCode(KEYCODE_EISU)),
    ];
    assert!(is_ime_switch_action(&eisu[0]) && is_ime_switch_action(&eisu[1]));
    assert!(!is_ime_switch_action(&KeyAction::Key(VkCode(0))));
    let actions = a.run_effect(Effect::Input(InputEffect::SendKeys(eisu)), &h);
    assert!(matches!(actions[0], HostAction::ExpectFromKey(KEYCODE_EISU)));
    assert!(matches!(&actions[1], HostAction::Send(keys) if keys.len() == 2));
    assert_eq!(actions.len(), 2);
}

#[test]
fn the_later_thumb_key_wins() {
    let mut a = app(KANA_MODE);
    a.refresh(&host(1, KANA_MODE, Some(7)));
    let down = |c: u16| key(CgEventKind::KeyDown, c);
    a.on_cg_event(&down(KEYCODE_EISU), &host(10, KANA_MODE, Some(7)));
    a.on_cg_event(&down(KEYCODE_KANA), &host(50, KANA_MODE, Some(7)));
    let h = host(60, KANA_MODE, Some(7));
    let send = |c: u16| Effect::Input(InputEffect::SendKeys(vec![KeyAction::Key(VkCode(c))]));
    assert!(a.run_effect(send(KEYCODE_EISU), &h).is_empty());
    assert_eq!(a.run_effect(send(KEYCODE_KANA), &h).len(), 2);
}

#[test]
fn effects_become_host_actions() {
    let mut a = app(ABC);
    let h = host(1, ABC, Some(7));
    let sync = ImeEffect::SetOpen {
        open: true,
        origin: SetOpenOrigin::ActivationSync,
    };
    assert!(a.run_effect(Effect::Ime(sync), &h).is_empty());
    let wish = ImeEffect::SetOpen {
        open: true,
        origin: SetOpenOrigin::ExplicitUserAction,
    };
    let actions = a.run_effect(Effect::Ime(wish), &h);
    assert!(matches!(actions[0], HostAction::SelectSource { open: true }));
    let actions = a.run_effect(Effect::Timer(TimerEffect::Kill(2)), &h);
    assert!(matches!(actions[0], HostAction::KillTimer(2)));
    let ui = UiEffect::EngineStateChanged {
        enabled: false,
        send_ime_key: true,
    };
    let actions = a.run_effect(Effect::Ui(ui), &h);
    assert!(matches!(actions[0], HostAction::ShowEnabled(false)));
    let ev = RawKeyEvent {
        vk_code: VkCode(KEYCODE_KANA),
        scan_code: ScanCode(0),
        event_type: KeyEventType::KeyUp,
        extra_info: 0,
        timestamp: 0,
        key_classification: KeyClassification::RightThumb,
        physical_pos: None,
        ime_relevance: ImeRelevance::default(),
        modifier_key: None,
        modifier_snapshot: ModifierState::default(),
        injected: false,
    };
    let actions = a.run_effect(Effect::Input(InputEffect::ReinjectKey(ev)), &h);
    assert_eq!(actions.len(), 1);
    let mut down = ev;
    down.event_type = KeyEventType::KeyDown;
    let actions = a.run_effect(Effect::Input(InputEffect::ReinjectKey(down)), &h);
    assert!(matches!(actions[0], HostAction::ExpectFromKey(KEYCODE_KANA)));
    assert!(matches!(
        actions[1],
        HostAction::Reinject {
            vk: VkCode(KEYCODE_KANA),
            event_type: KeyEventType::KeyDown
        }
    ));
    assert_eq!(
        a.reinject_now(VkCode(KEYCODE_KANA), KeyEventType::KeyDown),
        KeyPost::Key {
            keycode: KEYCODE_KANA,
            down: true,
            shift: false,
            option: false,
        }
    );
}

#[test]
fn own_events_bypass_the_engine() {
    let mut a = app(KANA_MODE);
    let mut ev = key(CgEventKind::KeyDown, 0x00);
    ev.user_data = INJECT_MARKER;
    let h = host(1, KANA_MODE, Some(7));
    assert!(matches!(
        a.on_cg_event(&ev, &h),
        EventPlan::Injected { expect: Some(0) }
    ));
    ev.kind = CgEventKind::KeyUp;
    assert!(matches!(
        a.on_cg_event(&ev, &h),
        EventPlan::Injected { expect: None }
    ));
    assert!(matches!(
        a.on_cg_event(&key(CgEventKind::Other, 0), &h),
        EventPlan::Pass
    ));
}

#[test]
fn modifier_events_take_their_direction_from_the_flags() {
    let mut flags = NO_FLAGS;
    assert_eq!(
        flags_changed_event_type(CONTROL, flags),
        Some((ModifierKey::Ctrl, KeyEventType::KeyUp))
    );
    flags.control = true;
    assert_eq!(
        flags_changed_event_type(CONTROL, flags),
        Some((ModifierKey::Ctrl, KeyEventType::KeyDown))
    );
    assert_eq!(flags_changed_event_type(0x39, flags), None);
    assert_eq!(classify_modifier(0x38), Some(ModifierKey::Shift));
    assert_eq!(classify_modifier(0x37), Some(ModifierKey::Meta));
    assert_eq!(classify_modifier(0x00), None);
}

#[test]
fn a_field_that_is_no_key_code_becomes_one_that_no_key_has() {
    assert_eq!(keycode_from_field(0x66), 0x66);
    assert_eq!(keycode_from_field(0xFFFF), 0xFFFF);
    assert_eq!(keycode_from_field(0x1_0066), u16::MAX);
    assert_eq!(keycode_from_field(-1), u16::MAX);
}

#[test]
fn the_menu_switches_the_engine() {
    let mut a = app(KANA_MODE);
    let h = host(1, KANA_MODE, Some(7));
    a.refresh(&h);
    match a.on_menu_action(MenuAction::ToggleEngine, &h) {
        MenuPlan::Decided(d) => assert_eq!(run(&mut a, d, &h), ["select false", "show false"]),
        other => panic!("{other:?}"),
    }
    assert!(!a.shown_enabled(&h));
    assert!(matches!(
        a.on_menu_action(MenuAction::ToggleLoginItem, &h),
        MenuPlan::ToggleLoginItem
    ));
}

#[test]
fn a_selected_source_is_expected() {
    let mut a = app(ABC);
    let h = host(1, ABC, Some(7));
    a.ime_selected(true, false, h.now);
    assert!(!a.shown_enabled(&h));
    a.ime_selected(true, true, h.now);
    assert!(a.shown_enabled(&h));
    let sources = vec![Some(ABC.to_string()), Some(KANA_MODE.to_string()), None];
    assert!(a.select_for(true, &sources).is_empty());
    assert_eq!(a.select_for(false, &sources).first(), Some(&0));
    assert_eq!(app(KANA_MODE).select_for(true, &sources).first(), Some(&1));
}

#[test]
fn dropped_keys_are_gone() {
    let mut a = switching_with_held_key();
    a.discard_deferred();
    a.maybe_flush_deferred(&host(130, KANA_MODE, Some(7)));
    assert!(matches!(
        a.maybe_flush_deferred(&host(180, KANA_MODE, Some(7))),
        FlushPlan::Nothing
    ));
}

#[test]
fn unknown_thumb_keys_are_reported() {
    let mut config = AppConfig::default();
    config.general.left_thumb_key = "NoSuchKey".to_string();
    let (config, _) = config.validate();
    assert!(matches!(
        build_engine(&config, layout()),
        Err(SetupError::UnknownLeftThumbKey(name)) if name == "NoSuchKey"
    ));
    let mut config = AppConfig::default();
    config.general.right_thumb_key = "?".to_string();
    let (config, _) = config.validate();
    assert!(matches!(
        build_engine(&config, layout()),
        Err(SetupError::UnknownRightThumbKey(name)) if name == "?"
    ));
    let (config, _) = AppConfig::default().validate();
    let setup = build_engine(&config, layout()).unwrap();
    assert_eq!(setup.thumbs.left, VkCode(KEYCODE_EISU));
    assert_eq!(setup.thumbs.right, VkCode(KEYCODE_KANA));
    assert!(setup.thumbs.are_ime_switch() && setup.thumbs.shift_faces_enabled());
}

#[test]
fn settings_of_the_program() {
    assert_eq!(output_style("kana"), OutputStyle::Kana);
    assert_eq!(output_style("romaji"), OutputStyle::Romaji);
    assert_eq!(poll_interval_ms(500), 500);
    assert_eq!(poll_interval_ms(10), 100);
    let combos = parse_combos(&vec!["Ctrl+変換".to_string(), "Hyper+X".to_string()]);
    assert_eq!(combos.len(), 1);
    assert!(combos[0].ctrl && combos[0].vk == VkCode(0x68));
    let table = parse_symbol_romaji(&vec![
        awase::config::SymbolRomaji {
            symbol: "※".to_string(),
            romaji: "kome".to_string(),
        },
        awase::config::SymbolRomaji {
            symbol: "ab".to_string(),
            romaji: "x".to_string(),
        },
    ]);
    assert_eq!(table.len(), 1);
    let first: &CharRomaji = &table[0];
    assert_eq!((first.ch, first.romaji.as_str()), ('※', "kome"));
}

#[test]
fn only_the_plain_face_gets_the_middle_dot() {
    let slash = || YabFace {
        entries: vec![YabEntry {
            pos: PhysicalPos { row: 3, col: 9 },
            value: YabValue::Literal("／".to_string()),
        }],
    };
    let mut l = YabLayout::empty();
    l.normal = slash();
    l.left_thumb = slash();
    let l = with_middle_dot(l);
    assert!(matches!(&l.normal.entries[0].value, YabValue::Literal(s) if s == "・"));
    assert!(matches!(&l.left_thumb.entries[0].value, YabValue::Literal(s) if s == "／"));
}

#[test]
fn the_menu_bar_shows_the_state() {
    let mut tray = SystemTray::new(LoginItemState::NotRegistered);
    assert_eq!((tray.title(), tray.engine_checked()), ("あ", true));
    assert_eq!(tray.layout_title(), "配列: -");
    assert!(!tray.login_checked() && tray.login_selectable());
    tray.set_enabled(false);
    tray.set_layout_name("nicola.yab");
    tray.sync_login_item(LoginItemState::Enabled);
    assert_eq!((tray.title(), tray.engine_checked()), ("A", false));
    assert_eq!(tray.layout_title(), "配列: nicola.yab");
    assert!(tray.login_checked() && tray.login_selectable());
    tray.sync_login_item(LoginItemState::Unavailable);
    assert!(!tray.login_checked() && !tray.login_selectable());
}

#[test]
fn a_toggle_asks_for_the_other_registration() {
    assert_eq!(toggle(LoginItemState::Enabled), LoginItemRequest::Unregister);
    for state in [
        LoginItemState::NotRegistered,
        LoginItemState::RequiresApproval,
        LoginItemState::Unavailable,
    ] {
        assert_eq!(toggle(state), LoginItemRequest::Register);
    }
}
