use awase::engine::decision::InputModeState;
use awase::windows::ime_controller::{
    apply_mechanism, caps_chain_for, characterize_strategy, mechanism_is_applicable,
    needs_romaji_pre_write, ActiveImeKind, AppImeProfile, ChainRun, ControlLog, FocusFacts,
    ImeControlView, ImeController, ImeOpenOutcome, ObservedState, Write, WriteMechanism, VK_IME_OFF,
    VK_IME_ON,
};


const REACHABLE_COMBOS: [(AppImeProfile, ActiveImeKind); 6] = [
    (AppImeProfile::Standard, ActiveImeKind::GoogleJapaneseInput),
    (AppImeProfile::Standard, ActiveImeKind::MicrosoftIme),
    (
        AppImeProfile::Imm32Unavailable,
        ActiveImeKind::GoogleJapaneseInput,
    ),
    (AppImeProfile::Imm32Unavailable, ActiveImeKind::MicrosoftIme),
    (AppImeProfile::TsfNative, ActiveImeKind::GoogleJapaneseInput),
    (AppImeProfile::TsfNative, ActiveImeKind::MicrosoftIme),
];

fn view_for(profile: AppImeProfile, kind: ActiveImeKind) -> ImeControlView {
    ImeControlView {
        focus: FocusFacts { profile },
        observed: ObservedState {
            active_ime_kind: kind,
        },
        control: ControlLog { shadow_on: false },
        belief_input_mode: InputModeState::Unknown,
    }
}

#[test]
fn caps_chain_matches_legacy_all_scan() {
    for (profile, kind) in REACHABLE_COMBOS {
        let view = view_for(profile, kind);
        let mut scanned: Vec<WriteMechanism> = Vec::new();
        for mechanism in WriteMechanism::all() {
            if !mechanism_is_applicable(mechanism, &view) {
                continue;
            }
            scanned.push(mechanism);
            if !mechanism.may_return_failed() {
                break;
            }
        }
        let from_caps: Vec<WriteMechanism> = caps_chain_for(&view)
            .iter()
            .copied()
            .filter(|m| mechanism_is_applicable(*m, &view))
            .collect();
        assert_eq!(
            from_caps, scanned,
            "chain differs from a scan of all mechanisms: {profile:?} × {kind:?}"
        );
    }
}

#[test]
fn every_caps_chain_element_is_applicable_in_its_row() {
    for (profile, kind) in REACHABLE_COMBOS {
        let view = view_for(profile, kind);
        for mechanism in caps_chain_for(&view) {
            assert!(
                mechanism_is_applicable(mechanism, &view),
                "{profile:?} × {kind:?}: {mechanism:?} is not applicable"
            );
        }
    }
}

#[test]
fn imm_cross_first_applicable_is_unchanged_by_caps() {
    for (profile, kind) in REACHABLE_COMBOS {
        let view = view_for(profile, kind);
        let scanned = WriteMechanism::all()
            .iter()
            .position(|m| mechanism_is_applicable(*m, &view))
            == Some(0);
        assert_eq!(
            ImeController::imm_cross_is_first_applicable(&view),
            scanned,
            "{profile:?} × {kind:?}"
        );
    }
}

#[test]
fn strategies_by_profile() {
    for (gji, profile, first, second) in [
        (true, "Standard", "ImmCross", "GjiDirect"),
        (false, "Standard", "ImmCross", "KanjiToggle"),
        (true, "Imm32Unavailable", "GjiDirect", "GjiDirect"),
        (false, "Imm32Unavailable", "MsImeDirect", "MsImeDirect"),
        (true, "TsfNative", "GjiDirect", "GjiDirect"),
        (false, "TsfNative", "MsImeDirect", "MsImeDirect"),
    ] {
        assert_eq!(characterize_strategy(gji, profile, false), first);
        assert_eq!(characterize_strategy(gji, profile, true), second);
    }
}

/// Runs a switch with given replies, in order, and returns the outcome and what was written.
fn run(open: bool, view: &ImeControlView, replies: &[bool]) -> (ImeOpenOutcome, Vec<Write>) {
    let mut run: ChainRun = ImeController::apply(open, view);
    let mut writes = Vec::new();
    let mut i = 0;
    while let Some(step) = run.next_write() {
        writes.push(step.write);
        let outcome = step.outcome(replies[i]);
        i += 1;
        if !ChainRun::falls_through(outcome) {
            return (outcome, writes);
        }
    }
    (ImeOpenOutcome::Failed, writes)
}

#[test]
fn a_failed_message_is_followed_by_the_next_mechanism() {
    let gji = view_for(AppImeProfile::Standard, ActiveImeKind::GoogleJapaneseInput);
    assert_eq!(
        run(true, &gji, &[true]),
        (ImeOpenOutcome::Applied, vec![Write::OpenStatus(true)])
    );
    assert_eq!(
        run(false, &gji, &[false, true]),
        (
            ImeOpenOutcome::Applied,
            vec![Write::OpenStatus(false), Write::ModeKey(VK_IME_OFF)]
        )
    );
    let ms = view_for(AppImeProfile::Standard, ActiveImeKind::MicrosoftIme);
    assert_eq!(
        run(true, &ms, &[false, true]),
        (
            ImeOpenOutcome::FallbackSent,
            vec![Write::OpenStatus(true), Write::ToggleKey]
        )
    );
}

#[test]
fn a_key_that_is_not_sent_is_not_applied() {
    let ms = view_for(AppImeProfile::TsfNative, ActiveImeKind::MicrosoftIme);
    assert_eq!(
        run(true, &ms, &[false]),
        (
            ImeOpenOutcome::UnsafeToToggle,
            vec![Write::ModeKey(VK_IME_ON)]
        )
    );
}

#[test]
fn a_key_is_spared_where_the_ime_is_on() {
    let mut gji = view_for(AppImeProfile::TsfNative, ActiveImeKind::GoogleJapaneseInput);
    gji.control.shadow_on = true;
    assert_eq!(
        run(true, &gji, &[true]),
        (ImeOpenOutcome::AlreadyMatched, vec![Write::Nothing])
    );
    assert_eq!(
        run(false, &gji, &[true]),
        (ImeOpenOutcome::Applied, vec![Write::ModeKey(0x1A)])
    );
}

#[test]
fn the_romaji_bit_is_set_first_for_microsoft_ime_only() {
    let mut ms = view_for(AppImeProfile::TsfNative, ActiveImeKind::MicrosoftIme);
    assert!(apply_mechanism(WriteMechanism::MsImeDirect, true, &ms).romaji_first);
    assert!(!apply_mechanism(WriteMechanism::MsImeDirect, false, &ms).romaji_first);
    assert!(needs_romaji_pre_write(WriteMechanism::ImmCross, true, &ms));
    assert!(!needs_romaji_pre_write(WriteMechanism::KanjiToggle, true, &ms));
    ms.belief_input_mode = InputModeState::ObservedKana;
    assert!(!apply_mechanism(WriteMechanism::MsImeDirect, true, &ms).romaji_first);
    let gji = view_for(AppImeProfile::TsfNative, ActiveImeKind::GoogleJapaneseInput);
    assert!(!apply_mechanism(WriteMechanism::GjiDirect, true, &gji).romaji_first);
}
