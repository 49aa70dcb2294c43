use awase::macos::ime::{
    classify_input_source, im_family_prefix, in_family, is_japanese_im, is_japanese_kana_mode,
    observation_settle, settle_from_ms, Expectation, ImeDetector, SwitchExpectation,
    EXPECTATION_GRACE, NANOS_PER_MS, OBSERVATION_SETTLE,
};


#[test]
fn kana_mode_matches_hiragana_ids_of_known_imes() {
    assert!(is_japanese_kana_mode(
        "com.apple.inputmethod.Kotoeri.RomajiTyping.Japanese"
    ));
    assert!(is_japanese_kana_mode(
        "com.google.inputmethod.Japanese.base"
    ));
    assert!(is_japanese_kana_mode(
        "com.justsystems.inputmethod.atok34.Japanese"
    ));
}

#[test]
fn kana_mode_rejects_roman_katakana_and_keylayouts() {
    assert!(!is_japanese_kana_mode(
        "com.apple.inputmethod.Kotoeri.RomajiTyping.Roman"
    ));
    assert!(!is_japanese_kana_mode(
        "com.google.inputmethod.Japanese.Roman"
    ));
    assert!(!is_japanese_kana_mode(
        "com.google.inputmethod.Japanese.Katakana"
    ));
    assert!(!is_japanese_kana_mode(
        "com.justsystems.inputmethod.atok34.Japanese.HalfWidthEiji"
    ));
    assert!(!is_japanese_kana_mode("com.apple.keylayout.ABC"));
}

#[test]
fn japanese_im_covers_atok_roman_mode_without_japanese_substring() {
    assert!(is_japanese_im("com.justsystems.inputmethod.atok34.Roman"));
    assert!(!is_japanese_im("com.apple.keylayout.ABC"));
}

#[test]
fn in_family_requires_segment_boundary() {
    let prefix = "com.google.inputmethod.Japanese";
    assert!(in_family("com.google.inputmethod.Japanese", prefix));
    assert!(in_family("com.google.inputmethod.Japanese.Roman", prefix));
    assert!(!in_family(
        "com.google.inputmethod.JapaneseEvil.base",
        prefix
    ));
}

const MS: u64 = NANOS_PER_MS;
const NOW: u64 = 1_000 * MS;

fn settle() -> u64 {
    observation_settle(None)
}

fn at(exp: &mut SwitchExpectation, observed: Option<bool>, after: u64) -> Expectation {
    exp.resolve(observed, exp.started + after, settle())
}

#[test]
fn expectation_holds_until_the_observation_catches_up() {
    let mut exp = SwitchExpectation::new(true, NOW);
    assert_eq!(at(&mut exp, Some(false), 10 * MS), Expectation::Hold(true));
    assert_eq!(at(&mut exp, None, 30 * MS), Expectation::Hold(true));
}

#[test]
fn expectation_keeps_holding_output_through_the_settle_window() {
    let mut exp = SwitchExpectation::new(true, NOW);
    assert_eq!(at(&mut exp, Some(true), 40 * MS), Expectation::Settling);
    let almost = (40 * MS + settle()).saturating_sub(MS);
    assert_eq!(at(&mut exp, Some(true), almost), Expectation::Settling);
}

#[test]
fn expectation_clears_once_the_settle_window_elapses() {
    let mut exp = SwitchExpectation::new(true, NOW);
    assert_eq!(at(&mut exp, Some(true), 40 * MS), Expectation::Settling);
    let settled = 40 * MS + settle();
    assert_eq!(at(&mut exp, Some(true), settled), Expectation::Clear);
}

#[test]
fn settle_window_starts_at_the_observation_not_the_expectation() {
    let mut exp = SwitchExpectation::new(true, NOW);
    let late = EXPECTATION_GRACE.saturating_sub(10 * MS);
    assert_eq!(at(&mut exp, Some(true), late), Expectation::Settling);
    assert_eq!(
        at(
            &mut exp,
            Some(true),
            (late + settle()).saturating_sub(MS)
        ),
        Expectation::Settling,
    );
}

#[test]
fn expectation_gives_up_after_the_grace_without_any_observation() {
    let mut exp = SwitchExpectation::new(true, NOW);
    assert_eq!(
        at(&mut exp, Some(false), EXPECTATION_GRACE + MS),
        Expectation::Clear
    );
    assert!(exp.confirmed.is_none());
}

#[test]
fn both_atok_roman_and_abc_classify_as_ime_off() {
    assert_eq!(
        classify_input_source("com.justsystems.inputmethod.atok36.Roman"),
        Some(false)
    );
    assert_eq!(
        classify_input_source("com.apple.keylayout.ABC"),
        Some(false)
    );
    assert_eq!(
        classify_input_source("com.justsystems.inputmethod.atok36.Japanese.HalfWidthEiji"),
        Some(false)
    );
    assert_eq!(
        classify_input_source("com.justsystems.inputmethod.atok36.Japanese"),
        Some(true)
    );
    assert_eq!(
        classify_input_source("com.apple.inputmethod.SCIM.ITABC"),
        None
    );
}

#[test]
fn family_prefix_is_mode_invariant() {
    assert_eq!(
        im_family_prefix("com.justsystems.inputmethod.atok34.Japanese"),
        im_family_prefix("com.justsystems.inputmethod.atok34.Roman"),
    );
    assert_eq!(
        im_family_prefix("com.google.inputmethod.Japanese.base"),
        Some("com.google.inputmethod.Japanese"),
    );
}

const KANA_ID: &str = "com.justsystems.inputmethod.atok34.Japanese";
const ROMAN_ID: &str = "com.justsystems.inputmethod.atok34.Roman";
const ABC_ID: &str = "com.apple.keylayout.ABC";

#[test]
fn a_pending_switch_answers_its_target() {
    let mut ime = ImeDetector::new(Some(ABC_ID));
    assert_eq!(ime.is_ime_on(Some(ABC_ID), NOW, settle()), Some(false));
    ime.expect_ime_on(true, NOW);
    assert_eq!(ime.pending_open(), Some(true));
    assert_eq!(ime.is_ime_on(Some(ABC_ID), NOW + MS, settle()), Some(true));
    assert!(ime.is_switch_pending(Some(ABC_ID), NOW + MS, settle()));
    assert!(ime.is_switch_pending(Some(KANA_ID), NOW + 20 * MS, settle()));
    let settled = NOW + 20 * MS + settle();
    assert!(!ime.is_switch_pending(Some(KANA_ID), settled, settle()));
    assert_eq!(ime.pending_open(), None);
    assert_eq!(ime.take_failed_switch(), None);
    assert_eq!(ime.since_switch_confirmed(settled + 5 * MS), Some(settle() + 5 * MS));
}

#[test]
fn a_switch_that_is_given_up_is_reported_once() {
    let mut ime = ImeDetector::new(Some(ABC_ID));
    ime.expect_ime_on(true, NOW);
    let late = NOW + EXPECTATION_GRACE + MS;
    assert_eq!(ime.is_ime_on(Some(ABC_ID), late, settle()), Some(false));
    assert_eq!(ime.take_failed_switch(), Some(true));
    assert_eq!(ime.take_failed_switch(), None);
}

#[test]
fn switching_on_stays_in_the_family() {
    let ime = ImeDetector::new(Some(KANA_ID));
    let sources = vec![
        Some("com.google.inputmethod.Japanese.base".to_string()),
        Some(ROMAN_ID.to_string()),
        None,
        Some(KANA_ID.to_string()),
    ];
    assert_eq!(ime.select_for(true, &sources).first(), Some(&3));
}

#[test]
fn switching_off_restores_the_users_source() {
    let mut ime = ImeDetector::new(Some(ROMAN_ID));
    ime.observe_ime_on(Some(KANA_ID));
    let sources = vec![
        Some(ABC_ID.to_string()),
        Some(ROMAN_ID.to_string()),
        Some(KANA_ID.to_string()),
    ];
    assert_eq!(ime.select_for(false, &sources).first(), Some(&1));
    let mut ime = ImeDetector::new(Some(ABC_ID));
    ime.observe_ime_on(Some(KANA_ID));
    assert_eq!(ime.select_for(false, &sources).first(), Some(&0));
}

#[test]
fn a_selection_is_expected_only_where_it_worked() {
    let mut ime = ImeDetector::new(Some(ABC_ID));
    assert!(!ime.set_ime_on(true, false, NOW));
    assert_eq!(ime.pending_open(), None);
    assert!(ime.set_ime_on(true, true, NOW));
    assert_eq!(ime.pending_open(), Some(true));
    assert!(ime.is_japanese_layout(Some(ABC_ID), NOW));
}

#[test]
fn the_settle_time_can_be_set() {
    assert_eq!(settle_from_ms(None), OBSERVATION_SETTLE);
    assert_eq!(settle_from_ms(Some(7)), 7 * MS);
    assert_eq!(observation_settle(Some("120")), 120 * MS);
    assert_eq!(observation_settle(Some("+120")), 120 * MS);
    for wrong in ["abc", "", "+", "-1", " 1", "1 ", "1_000", "18446744073709551616"] {
        assert_eq!(observation_settle(Some(wrong)), OBSERVATION_SETTLE, "{wrong:?}");
    }
    assert_eq!(observation_settle(Some("18446744073709551615")), u64::MAX);
    assert_eq!(observation_settle(None), OBSERVATION_SETTLE);
}
