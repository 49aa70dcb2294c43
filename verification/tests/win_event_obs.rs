use awase::windows::win_event_obs::{
    observation_ranges, write_ago, TsfObservations, EVENT_OBJECT_HIDE, EVENT_OBJECT_IME_CHANGE,
    EVENT_OBJECT_IME_HIDE, EVENT_OBJECT_IME_SHOW, EVENT_OBJECT_NAMECHANGE, EVENT_OBJECT_SHOW,
    GJI_CANDIDATE_CLASS,
};

#[test]
fn the_candidate_list_is_followed() {
    let mut obs = TsfObservations::new();
    obs.observation_event_proc(EVENT_OBJECT_SHOW, 0, "Edit");
    assert_eq!(obs, TsfObservations::new());
    obs.observation_event_proc(EVENT_OBJECT_SHOW, 0, GJI_CANDIDATE_CLASS);
    assert!(obs.gji_candidate_visible && obs.candidate_was_seen && obs.pending_start_composition);
    assert!(!obs.pending_end_composition);
    assert_eq!(obs.gji_candidate_show, 1);
    obs.observation_event_proc(EVENT_OBJECT_HIDE, 0, "GoogleJapaneseInputCandidateWindow");
    assert!(!obs.gji_candidate_visible && obs.candidate_was_seen && obs.pending_end_composition);
    assert_eq!(obs.gji_candidate_show, 1);
}

#[test]
fn ime_events_are_counted() {
    let mut obs = TsfObservations::new();
    obs.observation_event_proc(EVENT_OBJECT_IME_SHOW, 0, "");
    assert!(obs.ime_composition_active);
    obs.observation_event_proc(EVENT_OBJECT_IME_CHANGE, 0, "");
    obs.observation_event_proc(EVENT_OBJECT_IME_CHANGE, 0, "");
    obs.observation_event_proc(EVENT_OBJECT_IME_HIDE, 0, "");
    assert!(!obs.ime_composition_active);
    assert_eq!((obs.ime_show_seq, obs.ime_change_seq), (1, 2));
}

#[test]
fn title_changes_count_for_terminals_only() {
    let mut obs = TsfObservations::new();
    obs.observation_event_proc(EVENT_OBJECT_NAMECHANGE, 0, "CASCADIA_HOSTING_WINDOW_CLASS");
    obs.observation_event_proc(EVENT_OBJECT_NAMECHANGE, 0, "Chrome_WidgetWin_1");
    assert_eq!(obs.focus_namechange, 1);
    obs.focus_namechange = u64::MAX;
    obs.observation_event_proc(EVENT_OBJECT_NAMECHANGE, 0, "CASCADIA");
    assert_eq!(obs.focus_namechange, 0);
}

#[test]
fn events_of_parts_and_unknown_events_are_ignored() {
    let mut obs = TsfObservations::new();
    obs.observation_event_proc(EVENT_OBJECT_SHOW, 1, GJI_CANDIDATE_CLASS);
    obs.observation_event_proc(EVENT_OBJECT_IME_SHOW, -4, "");
    obs.observation_event_proc(0x8005, 0, GJI_CANDIDATE_CLASS);
    assert_eq!(obs, TsfObservations::new());
}

#[test]
fn hooked_ranges_are_those_of_the_events() {
    assert_eq!(
        observation_ranges(),
        vec![(0x800C, 0x800C), (0x8002, 0x8003), (0x8027, 0x8029)]
    );
}

#[test]
fn the_last_write_in_words() {
    assert_eq!(write_ago(1_000, 0), "never");
    assert_eq!(write_ago(1_250, 1_000), "250ms ago");
    assert_eq!(write_ago(900, 1_000), "0ms ago");
}
