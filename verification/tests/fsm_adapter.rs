use std::time::Duration;

use timed_fsm::Response;

use awase::config::ConfirmMode;
use awase::engine::decision::{Decision, Effect, InputEffect, TimerEffect};
use awase::engine::fsm_adapter::FsmAdapter;
use awase::engine::fsm_types::ComposingHint;
use awase::engine::input_tracker::{InputTracker, PhysicalKeyState};
use awase::engine::nicola_fsm::NicolaFsm;
use awase::ngram::NgramModel;
use awase::scanmap::PhysicalPos;
use awase::types::{
    ContextChange, ImeRelevance, KeyAction, KeyClassification, KeyEventType, RawKeyEvent, ScanCode,
    VkCode,
};
use awase::yab::{YabEntry, YabFace, YabLayout, YabValue};

const VK_NONCONVERT: VkCode = VkCode(0x1D);
const VK_CONVERT: VkCode = VkCode(0x1C);
const SCAN_NONCONVERT: ScanCode = ScanCode(0x7B);
const VK_A: VkCode = VkCode(0x41);
const SCAN_A: ScanCode = ScanCode(0x1E);
const POS_A: PhysicalPos = PhysicalPos { row: 2, col: 0 };

fn face(value: &str) -> YabFace {
    YabFace {
        entries: vec![YabEntry {
            pos: POS_A,
            value: YabValue::Literal(value.to_string()),
        }],
    }
}

fn make_layout() -> YabLayout {
    YabLayout {
        normal: face("う"),
        left_thumb: face("を"),
        right_thumb: face("ゔ"),
        shift: YabFace::empty(),
        left_thumb_shift: YabFace::empty(),
        right_thumb_shift: YabFace::empty(),
    }
}





const VK_RETURN: VkCode = VkCode(0x0D);
const SCAN_RETURN: ScanCode = ScanCode(0x1C);

fn make_adapter() -> FsmAdapter {
    let fsm = NicolaFsm::new(
        make_layout(),
        VK_NONCONVERT,
        VK_CONVERT,
        100,
        ConfirmMode::Wait,
        30,
    );
    FsmAdapter::new(fsm)
}

fn make_event(
    vk: VkCode,
    scan: ScanCode,
    event_type: KeyEventType,
    classification: KeyClassification,
    pos: Option<PhysicalPos>,
) -> RawKeyEvent {
    RawKeyEvent {
        vk_code: vk,
        scan_code: scan,
        event_type,
        extra_info: 0,
        timestamp: 0,
        key_classification: classification,
        physical_pos: pos,
        ime_relevance: ImeRelevance::default(),
        modifier_key: None,
        modifier_snapshot: Default::default(),
        injected: false,
    }
}

fn key_down_char(vk: VkCode, scan: ScanCode, pos: PhysicalPos) -> RawKeyEvent {
    make_event(
        vk,
        scan,
        KeyEventType::KeyDown,
        KeyClassification::Char,
        Some(pos),
    )
}

fn key_down_passthrough(vk: VkCode, scan: ScanCode) -> RawKeyEvent {
    make_event(
        vk,
        scan,
        KeyEventType::KeyDown,
        KeyClassification::Passthrough,
        None,
    )
}

fn key_down_left_thumb() -> RawKeyEvent {
    make_event(
        VK_NONCONVERT,
        SCAN_NONCONVERT,
        KeyEventType::KeyDown,
        KeyClassification::LeftThumb,
        None,
    )
}

fn key_up_left_thumb() -> RawKeyEvent {
    make_event(
        VK_NONCONVERT,
        SCAN_NONCONVERT,
        KeyEventType::KeyUp,
        KeyClassification::LeftThumb,
        None,
    )
}

fn empty_phys() -> PhysicalKeyState {
    PhysicalKeyState::empty()
}

#[test]
fn response_to_decision_consumed_no_effects() {
    let resp: Response<KeyAction, usize> = Response::consume();
    let decision = FsmAdapter::response_to_decision(resp);
    assert!(
        decision.is_consumed(),
        "consumed response should yield Consume decision"
    );
    match decision {
        Decision::Consume { effects } => assert!(effects.is_empty()),
        other => panic!("expected Consume, got {:?}", other),
    }
}

#[test]
fn response_to_decision_consumed_with_timer_set() {
    let dur = Duration::from_millis(50);
    let resp: Response<KeyAction, usize> = Response::consume().with_timer(1usize, dur);
    let decision = FsmAdapter::response_to_decision(resp);
    assert!(decision.is_consumed());
    match decision {
        Decision::Consume { effects } => {
            assert_eq!(effects.len(), 1);
            match &effects[0] {
                Effect::Timer(TimerEffect::Start { id, duration }) => {
                    assert_eq!(*id, 1);
                    assert_eq!(*duration, dur);
                }
                other => panic!("expected TimerEffect::Start, got {:?}", other),
            }
        }
        other => panic!("expected Consume, got {:?}", other),
    }
}

#[test]
fn response_to_decision_consumed_with_timer_kill() {
    let resp: Response<KeyAction, usize> = Response::consume().with_kill_timer(2usize);
    let decision = FsmAdapter::response_to_decision(resp);
    assert!(decision.is_consumed());
    match decision {
        Decision::Consume { effects } => {
            assert_eq!(effects.len(), 1);
            match &effects[0] {
                Effect::Timer(TimerEffect::Kill(id)) => assert_eq!(*id, 2),
                other => panic!("expected TimerEffect::Kill, got {:?}", other),
            }
        }
        other => panic!("expected Consume, got {:?}", other),
    }
}

#[test]
fn response_to_decision_consumed_with_actions() {
    let action = KeyAction::Char('う');
    let resp: Response<KeyAction, usize> = Response::emit(vec![action.clone()]);
    let decision = FsmAdapter::response_to_decision(resp);
    assert!(decision.is_consumed());
    match decision {
        Decision::Consume { effects } => {
            assert_eq!(effects.len(), 1);
            match &effects[0] {
                Effect::Input(InputEffect::SendKeys(actions)) => {
                    assert_eq!(actions.len(), 1);
                    assert!(matches!(&actions[0], KeyAction::Char('う')));
                }
                other => panic!("expected InputEffect::SendKeys, got {:?}", other),
            }
        }
        other => panic!("expected Consume, got {:?}", other),
    }
}

#[test]
fn response_to_decision_pass_through_no_effects() {
    let resp: Response<KeyAction, usize> = Response::pass_through();
    let decision = FsmAdapter::response_to_decision(resp);
    assert!(!decision.is_consumed());
    assert!(matches!(decision, Decision::PassThrough));
}

#[test]
fn response_to_decision_pass_through_with_timer() {
    let resp: Response<KeyAction, usize> = Response::pass_through().with_kill_timer(3usize);
    let decision = FsmAdapter::response_to_decision(resp);
    assert!(!decision.is_consumed());
    match decision {
        Decision::PassThroughWith { effects } => {
            assert_eq!(effects.len(), 1);
            match &effects[0] {
                Effect::Timer(TimerEffect::Kill(id)) => assert_eq!(*id, 3),
                other => panic!("expected TimerEffect::Kill, got {:?}", other),
            }
        }
        other => panic!("expected PassThroughWith, got {:?}", other),
    }
}

#[test]
fn response_to_effects_ordering() {
    let dur = Duration::from_millis(100);
    let action = KeyAction::Char('a');
    let resp: Response<KeyAction, usize> = Response::emit(vec![action])
        .with_timer(1usize, dur)
        .with_kill_timer(2usize);
    let effects = FsmAdapter::response_to_effects(resp);
    assert!(effects.len() >= 3);
    let timer_effects: Vec<&Effect> = effects
        .iter()
        .filter(|e| matches!(e, Effect::Timer(_)))
        .collect();
    let input_effects: Vec<&Effect> = effects
        .iter()
        .filter(|e| matches!(e, Effect::Input(_)))
        .collect();
    assert_eq!(timer_effects.len(), 2);
    assert_eq!(input_effects.len(), 1);
}

#[test]
fn new_adapter_is_enabled_by_default() {
    let adapter = make_adapter();
    assert!(adapter.is_enabled());
}

#[test]
fn toggle_enabled_disables_then_re_enables() {
    let mut adapter = make_adapter();
    assert!(adapter.is_enabled());

    let (enabled, decision) = adapter.toggle_enabled();
    assert!(!enabled, "first toggle should disable");
    assert!(!adapter.is_enabled());
    assert!(decision.is_consumed());

    let (enabled2, _) = adapter.toggle_enabled();
    assert!(enabled2, "second toggle should re-enable");
    assert!(adapter.is_enabled());
}

#[test]
fn toggle_enabled_returns_correct_bool() {
    let mut adapter = make_adapter();
    let (v1, _) = adapter.toggle_enabled();
    let (v2, _) = adapter.toggle_enabled();
    let (v3, _) = adapter.toggle_enabled();
    assert!(!v1);
    assert!(v2);
    assert!(!v3);
}

#[test]
fn set_enabled_same_state_is_noop() {
    let mut adapter = make_adapter();
    let (actual, decision) = adapter.set_enabled(true);
    assert!(actual);
    assert!(!decision.is_consumed());
}

#[test]
fn set_enabled_false_disables_engine() {
    let mut adapter = make_adapter();
    let (actual, _) = adapter.set_enabled(false);
    assert!(!actual);
    assert!(!adapter.is_enabled());
}

#[test]
fn set_enabled_false_then_true_re_enables() {
    let mut adapter = make_adapter();
    adapter.set_enabled(false);
    let (actual, _) = adapter.set_enabled(true);
    assert!(actual);
    assert!(adapter.is_enabled());
}

#[test]
fn set_enabled_false_when_already_false_is_noop() {
    let mut adapter = make_adapter();
    adapter.set_enabled(false);
    let (actual, decision) = adapter.set_enabled(false);
    assert!(!actual);
    assert!(!decision.is_consumed());
}

#[test]
fn on_event_passthrough_key_returns_pass_through() {
    let mut adapter = make_adapter();
    let event = key_down_passthrough(VK_RETURN, SCAN_RETURN);
    let phys = empty_phys();
    let decision = adapter.on_event(event, &phys);
    assert!(
        !decision.is_consumed(),
        "passthrough key should not be consumed"
    );
    assert!(matches!(decision, Decision::PassThrough));
}

#[test]
fn on_event_when_disabled_passes_through_char_key() {
    let mut adapter = make_adapter();
    adapter.set_enabled(false);
    let event = key_down_char(VK_A, SCAN_A, POS_A);
    let phys = empty_phys();
    let decision = adapter.on_event(event, &phys);
    assert!(
        !decision.is_consumed(),
        "char key while disabled should pass through"
    );
}

#[test]
fn on_event_char_key_down_is_consumed_as_pending() {
    let mut adapter = make_adapter();
    let event = key_down_char(VK_A, SCAN_A, POS_A);
    let mut tracker = InputTracker::new();
    let phys = tracker.process(&event);
    let decision = adapter.on_event(event, &phys);
    assert!(decision.is_consumed());
}

#[test]
fn on_timeout_after_char_down_emits_action() {
    let mut adapter = make_adapter();
    let mut tracker = InputTracker::new();
    let event = key_down_char(VK_A, SCAN_A, POS_A);
    let phys = tracker.process(&event);
    adapter.on_event(event, &phys);

    let phys_snap = tracker.snapshot();
    let decision = adapter.on_timeout(1, &phys_snap, false);
    assert!(decision.is_consumed());
    match decision {
        Decision::Consume { effects } => {
            let has_send_keys = effects.iter().any(|e| matches!(e, Effect::Input(_)));
            assert!(has_send_keys, "timeout should produce SendKeys effect");
        }
        other => panic!("expected Consume, got {:?}", other),
    }
}

#[test]
fn flush_when_idle_returns_consumed() {
    let mut adapter = make_adapter();
    let decision = adapter.flush(ContextChange::ImeOff, ComposingHint::Trusted(false));
    assert!(decision.is_consumed());
}

#[test]
fn flush_with_pending_key_emits_action() {
    let mut adapter = make_adapter();
    let mut tracker = InputTracker::new();
    let event = key_down_char(VK_A, SCAN_A, POS_A);
    let phys = tracker.process(&event);
    adapter.on_event(event, &phys);

    let decision = adapter.flush(ContextChange::FocusChanged, ComposingHint::Trusted(false));
    assert!(decision.is_consumed());
    match decision {
        Decision::Consume { effects } => {
            let has_send_keys = effects.iter().any(|e| matches!(e, Effect::Input(_)));
            assert!(
                has_send_keys,
                "flush with pending should produce SendKeys effect"
            );
        }
        other => panic!("expected Consume, got {:?}", other),
    }
}

#[test]
fn flush_twice_does_not_double_emit() {
    let mut adapter = make_adapter();
    let mut tracker = InputTracker::new();
    let event = key_down_char(VK_A, SCAN_A, POS_A);
    let phys = tracker.process(&event);
    adapter.on_event(event, &phys);

    let d1 = adapter.flush(ContextChange::ImeOff, ComposingHint::Trusted(false));
    let d2 = adapter.flush(ContextChange::ImeOff, ComposingHint::Trusted(false));

    let has_keys_1 = match &d1 {
        Decision::Consume { effects } => effects.iter().any(|e| matches!(e, Effect::Input(_))),
        _ => false,
    };
    let has_keys_2 = match &d2 {
        Decision::Consume { effects } => effects.iter().any(|e| matches!(e, Effect::Input(_))),
        _ => false,
    };

    assert!(has_keys_1, "first flush should emit actions");
    assert!(
        !has_keys_2,
        "second flush (idle) should not re-emit actions"
    );
}

#[test]
fn flush_to_effects_when_idle_returns_timer_kills() {
    let mut adapter = make_adapter();
    let effects =
        adapter.flush_to_effects(ContextChange::ImeOff, ComposingHint::Trusted(false));
    let kill_count = effects
        .iter()
        .filter(|e| matches!(e, Effect::Timer(TimerEffect::Kill(_))))
        .count();
    assert_eq!(
        kill_count, 2,
        "flush from idle should produce 2 timer kill effects"
    );
}

#[test]
fn flush_to_effects_with_pending_key_contains_send_keys() {
    let mut adapter = make_adapter();
    let mut tracker = InputTracker::new();
    let event = key_down_char(VK_A, SCAN_A, POS_A);
    let phys = tracker.process(&event);
    adapter.on_event(event, &phys);

    let effects =
        adapter.flush_to_effects(ContextChange::FocusChanged, ComposingHint::Trusted(false));
    let has_send_keys = effects.iter().any(|e| matches!(e, Effect::Input(_)));
    assert!(has_send_keys);
}

#[test]
fn swap_layout_flushes_pending_and_returns_consumed() {
    let mut adapter = make_adapter();
    let new_layout = make_layout();
    let decision = adapter.swap_layout(new_layout);
    assert!(decision.is_consumed());
}

#[test]
fn swap_layout_with_pending_key_emits_action_before_swap() {
    let mut adapter = make_adapter();
    let mut tracker = InputTracker::new();
    let event = key_down_char(VK_A, SCAN_A, POS_A);
    let phys = tracker.process(&event);
    adapter.on_event(event, &phys);

    let new_layout = make_layout();
    let decision = adapter.swap_layout(new_layout);
    assert!(decision.is_consumed());
    match decision {
        Decision::Consume { effects } => {
            let has_send_keys = effects.iter().any(|e| matches!(e, Effect::Input(_)));
            assert!(
                has_send_keys,
                "swap_layout should flush pending key as action"
            );
        }
        other => panic!("expected Consume, got {:?}", other),
    }
}

#[test]
fn set_threshold_ms_does_not_panic() {
    let mut adapter = make_adapter();
    adapter.set_threshold_ms(50);
    adapter.set_threshold_ms(0);
    adapter.set_threshold_ms(u32::MAX);
}

#[test]
fn set_confirm_mode_does_not_panic() {
    let mut adapter = make_adapter();
    adapter.set_confirm_mode(ConfirmMode::Speculative, 30);
    adapter.set_confirm_mode(ConfirmMode::TwoPhase, 50);
    adapter.set_confirm_mode(ConfirmMode::AdaptiveTiming, 0);
    adapter.set_confirm_mode(ConfirmMode::Wait, 100);
}

#[test]
fn set_ngram_model_does_not_panic() {
    let mut adapter = make_adapter();
    let model = NgramModel::new(50_000, 30_000, 200_000);
    adapter.set_ngram_model(model);
}

#[test]
fn on_event_left_thumb_down_is_consumed() {
    let mut adapter = make_adapter();
    let mut tracker = InputTracker::new();
    let event = key_down_left_thumb();
    let phys = tracker.process(&event);
    let decision = adapter.on_event(event, &phys);
    assert!(decision.is_consumed(), "thumb key down should be consumed");
}

#[test]
fn on_event_left_thumb_up_after_down() {
    let mut adapter = make_adapter();
    let mut tracker = InputTracker::new();
    let down = key_down_left_thumb();
    let phys_down = tracker.process(&down);
    adapter.on_event(down, &phys_down);

    let up = key_up_left_thumb();
    let phys_up = tracker.process(&up);
    let decision = adapter.on_event(up, &phys_up);
    assert!(decision.is_consumed());
}

#[test]
fn on_event_simultaneous_thumb_and_char_resolves() {
    let mut adapter = make_adapter();
    let mut tracker = InputTracker::new();

    let thumb_down = key_down_left_thumb();
    let phys1 = tracker.process(&thumb_down);
    adapter.on_event(thumb_down, &phys1);

    let char_down = key_down_char(VK_A, SCAN_A, POS_A);
    let phys2 = tracker.process(&char_down);
    let decision = adapter.on_event(char_down, &phys2);

    assert!(decision.is_consumed());
    match decision {
        Decision::Consume { effects } => {
            let has_action = effects.iter().any(|e| matches!(e, Effect::Input(_)));
            assert!(
                has_action,
                "simultaneous thumb+char should emit action immediately"
            );
        }
        other => panic!("expected Consume, got {:?}", other),
    }
}

#[test]
fn flush_with_all_context_change_variants() {
    let variants = [
        ContextChange::ImeOff,
        ContextChange::InputLanguageChanged,
        ContextChange::EngineDisabled,
        ContextChange::LayoutSwapped,
        ContextChange::FocusChanged,
    ];
    for variant in variants {
        let mut adapter = make_adapter();
        let _decision = adapter.flush(variant, ComposingHint::Trusted(false));
    }
}

#[test]
fn response_to_effects_no_input_when_actions_empty() {
    let resp: Response<KeyAction, usize> = Response::consume();
    let effects = FsmAdapter::response_to_effects(resp);
    let has_input = effects.iter().any(|e| matches!(e, Effect::Input(_)));
    assert!(!has_input, "no actions → no Input effect");
}

#[test]
fn response_to_effects_input_added_at_end() {
    let action = KeyAction::Char('a');
    let resp: Response<KeyAction, usize> = Response::emit(vec![action]);
    let effects = FsmAdapter::response_to_effects(resp);
    assert!(!effects.is_empty());
    let last = effects.last().unwrap();
    assert!(
        matches!(last, Effect::Input(_)),
        "Input effect should be the last element"
    );
}

#[test]
fn response_to_effects_set_timer_maps_correctly() {
    let dur = Duration::from_millis(75);
    let resp: Response<KeyAction, usize> = Response::consume().with_timer(42usize, dur);
    let effects = FsmAdapter::response_to_effects(resp);
    assert_eq!(effects.len(), 1);
    match &effects[0] {
        Effect::Timer(TimerEffect::Start { id, duration }) => {
            assert_eq!(*id, 42);
            assert_eq!(*duration, dur);
        }
        other => panic!("expected TimerEffect::Start, got {:?}", other),
    }
}

#[test]
fn response_to_effects_kill_timer_maps_correctly() {
    let resp: Response<KeyAction, usize> = Response::consume().with_kill_timer(99usize);
    let effects = FsmAdapter::response_to_effects(resp);
    assert_eq!(effects.len(), 1);
    match &effects[0] {
        Effect::Timer(TimerEffect::Kill(id)) => assert_eq!(*id, 99),
        other => panic!("expected TimerEffect::Kill, got {:?}", other),
    }
}
