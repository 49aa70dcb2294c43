use awase::engine::key_lifecycle::{KeyLifecycle, KeyUpDisposition};
use awase::types::{
    ImeRelevance, KeyClassification, KeyEventType, RawKeyEvent, ScanCode, VkCode,
};


fn make_event(vk: VkCode, event_type: KeyEventType) -> RawKeyEvent {
    RawKeyEvent {
        vk_code: vk,
        scan_code: ScanCode(0),
        event_type,
        extra_info: 0,
        timestamp: 0,
        key_classification: KeyClassification::Passthrough,
        physical_pos: None,
        ime_relevance: ImeRelevance::default(),
        modifier_key: None,
        modifier_snapshot: Default::default(),
        injected: false,
    }
}

#[test]
fn consumed_key_down_makes_key_up_consumed() {
    let mut lc = KeyLifecycle::new();
    let event = make_event(VkCode(0x41), KeyEventType::KeyDown);

    lc.on_key_down_consumed(&event);
    assert_eq!(lc.active_count(), 1);

    assert_eq!(lc.on_key_up(VkCode(0x41)), KeyUpDisposition::Consume);
    assert_eq!(lc.active_count(), 0);
}

#[test]
fn untracked_key_up_is_left_to_the_caller() {
    let mut lc = KeyLifecycle::new();
    assert_eq!(lc.on_key_up(VkCode(0x41)), KeyUpDisposition::Unknown);
}

#[test]
fn key_down_passed_while_inactive_makes_key_up_pass_through() {
    let mut lc = KeyLifecycle::new();
    lc.on_key_down_passed_while_inactive(VkCode(0x41));
    assert_eq!(lc.on_key_up(VkCode(0x41)), KeyUpDisposition::PassThrough);
    assert_eq!(lc.on_key_up(VkCode(0x41)), KeyUpDisposition::Unknown);
}

#[test]
fn a_repeat_consumed_after_activation_replaces_the_pass_through_record() {
    let mut lc = KeyLifecycle::new();
    lc.on_key_down_passed_while_inactive(VkCode(0x41));
    lc.on_key_down_consumed(&make_event(VkCode(0x41), KeyEventType::KeyDown));

    assert_eq!(lc.on_key_up(VkCode(0x41)), KeyUpDisposition::Consume);
    assert_eq!(lc.on_key_up(VkCode(0x41)), KeyUpDisposition::Unknown);
}

#[test]
fn a_repeat_passed_after_deactivation_replaces_the_consume_record() {
    let mut lc = KeyLifecycle::new();
    lc.on_key_down_consumed(&make_event(VkCode(0x41), KeyEventType::KeyDown));
    lc.on_key_down_passed_while_inactive(VkCode(0x41));

    assert_eq!(lc.active_count(), 0, "the consume record must be dropped");
    assert_eq!(lc.on_key_up(VkCode(0x41)), KeyUpDisposition::PassThrough);
    assert_eq!(lc.on_key_up(VkCode(0x41)), KeyUpDisposition::Unknown);
}

#[test]
fn passed_while_inactive_is_not_doubled_by_auto_repeat() {
    let mut lc = KeyLifecycle::new();
    lc.on_key_down_passed_while_inactive(VkCode(0x41));
    lc.on_key_down_passed_while_inactive(VkCode(0x41));
    assert_eq!(lc.on_key_up(VkCode(0x41)), KeyUpDisposition::PassThrough);
    assert_eq!(lc.on_key_up(VkCode(0x41)), KeyUpDisposition::Unknown);
}

#[test]
fn flush_returns_pending_key_ups() {
    let mut lc = KeyLifecycle::new();
    lc.on_key_down_consumed(&make_event(VkCode(0x10), KeyEventType::KeyDown));
    lc.on_key_down_consumed(&make_event(VkCode(0x41), KeyEventType::KeyDown));

    let flushed = lc.flush_pending_key_ups();
    assert_eq!(flushed.len(), 2);
    assert!(flushed.iter().all(|e| e.event_type == KeyEventType::KeyUp));
    assert_eq!(lc.active_count(), 0);
}

#[test]
fn duplicate_key_down_not_doubled() {
    let mut lc = KeyLifecycle::new();
    let event = make_event(VkCode(0x41), KeyEventType::KeyDown);
    lc.on_key_down_consumed(&event);
    lc.on_key_down_consumed(&event);
    assert_eq!(lc.active_count(), 1);
}

#[test]
fn flush_pending_key_ups_sets_event_type_to_keyup() {
    let mut lc = KeyLifecycle::new();
    lc.on_key_down_consumed(&make_event(VkCode(0x41), KeyEventType::KeyDown));
    lc.on_key_down_consumed(&make_event(VkCode(0x42), KeyEventType::KeyDown));

    let flushed = lc.flush_pending_key_ups();
    for evt in &flushed {
        assert_eq!(evt.event_type, KeyEventType::KeyUp);
    }
    assert_eq!(flushed[0].vk_code, VkCode(0x41));
    assert_eq!(flushed[1].vk_code, VkCode(0x42));
}

#[test]
fn on_key_up_for_never_consumed_is_unknown() {
    let mut lc = KeyLifecycle::new();
    lc.on_key_down_consumed(&make_event(VkCode(0x41), KeyEventType::KeyDown));
    assert_eq!(lc.on_key_up(VkCode(0x42)), KeyUpDisposition::Unknown);
    assert_eq!(lc.active_count(), 1);
}

#[test]
fn multiple_keys_consumed_then_flushed() {
    let mut lc = KeyLifecycle::new();
    lc.on_key_down_consumed(&make_event(VkCode(0x10), KeyEventType::KeyDown));
    lc.on_key_down_consumed(&make_event(VkCode(0x41), KeyEventType::KeyDown));
    lc.on_key_down_consumed(&make_event(VkCode(0x42), KeyEventType::KeyDown));
    assert_eq!(lc.active_count(), 3);

    let flushed = lc.flush_pending_key_ups();
    assert_eq!(flushed.len(), 3);
    assert_eq!(lc.active_count(), 0);
    assert!(flushed.iter().all(|e| e.event_type == KeyEventType::KeyUp));
}

#[test]
fn consume_keyup_consume_same_key_again() {
    let mut lc = KeyLifecycle::new();
    let event = make_event(VkCode(0x41), KeyEventType::KeyDown);

    lc.on_key_down_consumed(&event);
    assert_eq!(lc.active_count(), 1);
    assert_eq!(lc.on_key_up(VkCode(0x41)), KeyUpDisposition::Consume);
    assert_eq!(lc.active_count(), 0);

    lc.on_key_down_consumed(&event);
    assert_eq!(lc.active_count(), 1);
    assert_eq!(lc.on_key_up(VkCode(0x41)), KeyUpDisposition::Consume);
    assert_eq!(lc.active_count(), 0);
}

#[test]
fn the_count_is_of_keys_whose_last_call_was_consumed() {
    let down = |vk: u16| make_event(VkCode(vk), KeyEventType::KeyDown);
    let mut lc = KeyLifecycle::new();
    assert_eq!(lc.active_count(), 0);
    lc.on_key_down_consumed(&down(1));
    lc.on_key_down_consumed(&down(2));
    lc.on_key_down_consumed(&down(1));
    lc.on_key_down_consumed(&down(3));
    assert_eq!(lc.active_count(), 3);
    lc.on_key_down_passed_while_inactive(VkCode(2));
    lc.on_key_up(VkCode(3));
    lc.on_key_up(VkCode(9));
    assert_eq!(lc.active_count(), 1);
    lc.flush_pending_key_ups();
    assert_eq!(lc.active_count(), 0);
}
