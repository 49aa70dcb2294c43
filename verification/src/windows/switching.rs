//! What a switch writes and what window events leave behind: laws.

use vstd::prelude::*;
use vstd::string::*;

use crate::text;
use crate::windows::ime_controller;
use crate::windows::ime_controller::{
    ActiveImeKind, AppImeProfile, ImeControlView, ImeOpenOutcome, Write, WriteMechanism,
};
use crate::windows::win_event_obs;
use crate::windows::win_event_obs::TsfObservations;

verus! {

// ---- Writes ----

/// Every write leads to the state that is wanted: the message and the keys name it, and nothing is
/// written only where the IME is known to be open already. The toggle key alone names no state.
pub proof fn law_writes_name_the_wanted_state(
    mechanism: WriteMechanism,
    open: bool,
    view: ImeControlView,
)
    ensures
        ({
            let step = ime_controller::step_of(mechanism, open, view);
            &&& step.mechanism == mechanism
            &&& mechanism is ImmCross ==> step.write == Write::OpenStatus(open)
            &&& mechanism is KanjiToggle ==> step.write == Write::ToggleKey
            &&& mechanism is MsImeDirect ==> step.write == Write::ModeKey(
                if open {
                    0x16
                } else {
                    0x1A
                },
            )
            &&& mechanism is GjiDirect && !open ==> step.write == Write::ModeKey(0x1A)
            &&& mechanism is GjiDirect && open && !view.control.shadow_on ==> step.write
                == Write::ModeKey(0x16)
            &&& mechanism is GjiDirect && open && view.control.shadow_on ==> step.write
                == Write::Nothing
        }),
{
}

/// Romaji input is set before Microsoft IME is opened by the message or its key, unless the user has
/// chosen kana input; never for Google Japanese Input or by the toggle key.
pub proof fn law_romaji_is_set_before_opening(
    mechanism: WriteMechanism,
    open: bool,
    view: ImeControlView,
)
    ensures
        ({
            let first = ime_controller::step_of(mechanism, open, view).romaji_first;
            &&& open && view.observed.active_ime_kind is MicrosoftIme && !(
            view.belief_input_mode is ObservedKana) && (mechanism is ImmCross
                || mechanism is MsImeDirect) ==> first
            &&& view.observed.active_ime_kind is GoogleJapaneseInput ==> !first
            &&& mechanism is KanjiToggle || mechanism is GjiDirect ==> !first
        }),
{
}

/// A message that does not come through has failed, and a key that does not is not tried another way.
pub proof fn law_outcomes(open: bool, key: u16)
    ensures
        ime_controller::outcome_of(Write::OpenStatus(open), true) == ImeOpenOutcome::Applied,
        ime_controller::outcome_of(Write::OpenStatus(open), false) == ImeOpenOutcome::Failed,
        ime_controller::outcome_of(Write::ModeKey(key), true) == ImeOpenOutcome::Applied,
        ime_controller::outcome_of(Write::ModeKey(key), false) == ImeOpenOutcome::UnsafeToToggle,
        ime_controller::outcome_of(Write::ToggleKey, true) == ImeOpenOutcome::FallbackSent,
        ime_controller::outcome_of(Write::ToggleKey, false) == ImeOpenOutcome::FallbackSent,
        ime_controller::outcome_of(Write::Nothing, true) == ImeOpenOutcome::AlreadyMatched,
        ime_controller::outcome_of(Write::Nothing, false) == ImeOpenOutcome::AlreadyMatched,
{
}

/// A standard window gets the message first, and behind it the keys of Google Japanese Input or the
/// toggle key. Any other window gets the key of its IME alone.
pub proof fn law_chains(view: ImeControlView)
    ensures
        ({
            let chain = ime_controller::view_chain(view);
            let google = view.observed.active_ime_kind == ActiveImeKind::GoogleJapaneseInput;
            if view.focus.profile == AppImeProfile::Standard {
                &&& chain.len() == 2
                &&& chain[0] == WriteMechanism::ImmCross
                &&& google ==> chain[1] == WriteMechanism::GjiDirect
                &&& !google ==> chain[1] == WriteMechanism::KanjiToggle
            } else {
                &&& chain.len() == 1
                &&& google ==> chain[0] == WriteMechanism::GjiDirect
                &&& !google ==> chain[0] == WriteMechanism::MsImeDirect
            }
        }),
{
}

proof fn lemma_usable_pair(view: ImeControlView)
    ensures
        ime_controller::usable(ime_controller::view_chain(view), view)
            == ime_controller::view_chain(view),
{
    let chain = ime_controller::view_chain(view);
    reveal_with_fuel(ime_controller::usable, 3);
    if chain.len() == 2 {
        assert(chain.drop_first() =~= seq![chain[1]]);
        assert(chain.drop_first().drop_first() =~= Seq::empty());
        assert(chain =~= seq![chain[0]] + (seq![chain[1]] + Seq::empty()));
    } else {
        assert(chain.drop_first() =~= Seq::empty());
        assert(chain =~= seq![chain[0]] + Seq::empty());
    }
}

/// How a switch ends: applied where the first write comes through. Where a message does not, the key
/// behind it decides; where the only key does not, the switch is unsafe.
pub proof fn law_switch_ends_with_the_first_write_that_works(
    view: ImeControlView,
    open: bool,
    sent: spec_fn(WriteMechanism) -> bool,
)
    requires
        !view.control.shadow_on,
    ensures
        ({
            let end = ime_controller::run_outcome(
                ime_controller::usable(ime_controller::view_chain(view), view),
                open,
                view,
                sent,
            );
            let google = view.observed.active_ime_kind == ActiveImeKind::GoogleJapaneseInput;
            let key = if google {
                WriteMechanism::GjiDirect
            } else {
                WriteMechanism::MsImeDirect
            };
            if view.focus.profile is Standard && sent(WriteMechanism::ImmCross) {
                end == ImeOpenOutcome::Applied
            } else if view.focus.profile is Standard && !google {
                end == ImeOpenOutcome::FallbackSent
            } else if sent(key) {
                end == ImeOpenOutcome::Applied
            } else {
                end == ImeOpenOutcome::UnsafeToToggle
            }
        }),
{
    lemma_usable_pair(view);
    let chain = ime_controller::view_chain(view);
    reveal_with_fuel(ime_controller::run_outcome, 3);
    if chain.len() == 2 {
        assert(chain.drop_first() =~= seq![chain[1]]);
    }
}

/// The mechanism that is chosen, by name.
pub proof fn law_chosen_mechanism_by_name(view: ImeControlView)
    ensures
        ({
            let google = view.observed.active_ime_kind == ActiveImeKind::GoogleJapaneseInput;
            let standard = view.focus.profile == AppImeProfile::Standard;
            &&& ime_controller::first_label(0, view) == (if standard {
                "ImmCross"@
            } else if google {
                "GjiDirect"@
            } else {
                "MsImeDirect"@
            })
            &&& ime_controller::first_label(1, view) == (if google {
                "GjiDirect"@
            } else if standard {
                "KanjiToggle"@
            } else {
                "MsImeDirect"@
            })
        }),
{
    let all = ime_controller::all_mechanisms();
    assert(all.skip(0) =~= all);
    assert(all.skip(1) =~= all.drop_first());
    assert(all.drop_first() =~= seq![
        WriteMechanism::GjiDirect,
        WriteMechanism::MsImeDirect,
        WriteMechanism::KanjiToggle,
    ]);
    assert(all.drop_first().drop_first() =~= seq![
        WriteMechanism::MsImeDirect,
        WriteMechanism::KanjiToggle,
    ]);
    assert(all.drop_first().drop_first().drop_first() =~= seq![WriteMechanism::KanjiToggle]);
    assert(all.drop_first().drop_first().drop_first().drop_first() =~= Seq::empty());
    reveal_with_fuel(ime_controller::usable, 5);
}

/// The profiles by their names.
pub proof fn law_profiles_by_name()
    ensures
        ime_controller::profile_named("Standard"@) == Some(AppImeProfile::Standard),
        ime_controller::profile_named("Imm32Unavailable"@) == Some(AppImeProfile::Imm32Unavailable),
        ime_controller::profile_named("TsfNative"@) == Some(AppImeProfile::TsfNative),
{
    reveal_strlit("Standard");
    reveal_strlit("Imm32Unavailable");
    reveal_strlit("TsfNative");
    assert("Standard"@.len() == 8);
    assert("Imm32Unavailable"@.len() == 16);
    assert("TsfNative"@.len() == 9);
}

// ---- Observations ----

/// The candidate list is visible from when it is shown until it is hidden. Both leave a note, and each
/// appearance is counted. Other windows leave nothing.
pub proof fn law_candidate_list_comes_and_goes(obs: TsfObservations, class: Seq<char>)
    ensures
        ({
            let list = "GoogleJapaneseInputCandidateWindow"@;
            let shown = obs.after(0x8002, 0, list);
            let hidden = shown.after(0x8003, 0, list);
            &&& shown.gji_candidate_visible && shown.candidate_was_seen
            &&& shown.pending_start_composition
            &&& shown.pending_end_composition == obs.pending_end_composition
            &&& obs.gji_candidate_show < u64::MAX ==> shown.gji_candidate_show
                == obs.gji_candidate_show + 1
            &&& obs.gji_candidate_show == u64::MAX ==> shown.gji_candidate_show == 0
            &&& !hidden.gji_candidate_visible && hidden.candidate_was_seen
            &&& hidden.pending_end_composition
            &&& hidden.gji_candidate_show == shown.gji_candidate_show
            &&& shown.ime_composition_active == obs.ime_composition_active
            &&& class != list ==> obs.after(0x8002, 0, class) == obs && obs.after(0x8003, 0, class)
                == obs
        }),
{
}

/// A composition is active from when the IME is shown until it is hidden, in whatever window; a change
/// is counted and switches nothing.
pub proof fn law_composition_comes_and_goes(obs: TsfObservations, class: Seq<char>)
    ensures
        ({
            let shown = obs.after(0x8027, 0, class);
            let changed = obs.after(0x8029, 0, class);
            &&& shown.ime_composition_active
            &&& obs.ime_show_seq < u64::MAX ==> shown.ime_show_seq == obs.ime_show_seq + 1
            &&& obs.after(0x8028, 0, class) == (TsfObservations {
                ime_composition_active: false,
                ..obs
            })
            &&& obs.ime_change_seq < u64::MAX ==> changed == (TsfObservations {
                ime_change_seq: (obs.ime_change_seq + 1) as u64,
                ..obs
            })
            &&& shown.ime_change_seq == obs.ime_change_seq
            &&& shown.gji_candidate_visible == obs.gji_candidate_visible
        }),
{
}

/// A change of the title is counted where the window is a terminal's.
pub proof fn law_titles_of_terminals_are_counted(obs: TsfObservations, class: Seq<char>)
    ensures
        text::contains_seq(class, "CASCADIA"@) && obs.focus_namechange < u64::MAX ==> obs.after(
            0x800C,
            0,
            class,
        ) == (TsfObservations {
            focus_namechange: (obs.focus_namechange + 1) as u64,
            ..obs
        }),
        !text::contains_seq(class, "CASCADIA"@) ==> obs.after(0x800C, 0, class) == obs,
{
}

/// The time since the last write is told in milliseconds.
pub proof fn law_time_since_the_last_write(now_ms: u64, last_ms: u64)
    ensures
        last_ms == 0 ==> win_event_obs::ago(now_ms, last_ms) == "never"@,
        0 < last_ms <= now_ms ==> win_event_obs::ago(now_ms, last_ms) == text::decimal(
            (now_ms - last_ms) as nat,
        ) + "ms ago"@,
        last_ms > now_ms ==> win_event_obs::ago(now_ms, last_ms) == text::decimal(0) + "ms ago"@,
{
}

} // verus!
