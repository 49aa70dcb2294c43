//! What the input sources say and which of them a switch tries: laws.

use vstd::prelude::*;
use vstd::string::*;

use crate::macos::ime;
use crate::macos::ime::{DetectorView, Expectation, FilterView, SwitchExpectation};
use crate::text;

verus! {

// ---- Identifiers ----

/// The identifier is that of an input method, with a word that only Japanese ones carry.
pub open spec fn names_a_japanese_ime(id: Seq<char>) -> bool {
    text::contains_seq(id, "inputmethod"@) && (text::contains_seq(id, "Japanese"@)
        || text::contains_seq(id, "Kotoeri"@) || text::contains_seq(id, "atok"@))
}

/// A Japanese IME is off in its romaji and its alphanumeric mode and on in any other. A keyboard
/// layout is off. Of anything else nothing is known.
pub proof fn law_modes_of_an_ime(id: Seq<char>)
    ensures
        names_a_japanese_ime(id) && text::contains_seq(id, "Roman"@) ==> ime::classified(id)
            == Some(false),
        names_a_japanese_ime(id) && text::contains_seq(id, "Eiji"@) ==> ime::classified(id) == Some(
            false,
        ),
        names_a_japanese_ime(id) && !text::contains_seq(id, "Roman"@) && !text::contains_seq(
            id,
            "Eiji"@,
        ) ==> ime::classified(id) == Some(true),
        !names_a_japanese_ime(id) && text::contains_seq(id, "keylayout"@) ==> ime::classified(id)
            == Some(false),
        !names_a_japanese_ime(id) && !text::contains_seq(id, "keylayout"@) ==> ime::classified(
            id,
        ) is None,
        ime::kana_mode(id) <==> ime::classified(id) == Some(true) && !text::contains_seq(
            id,
            "Katakana"@,
        ),
{
}

// ---- Expectations ----

/// A switch that is not observed counts as made for 300 milliseconds, and is then given up.
pub proof fn law_unobserved_switch_counts_for_a_while(
    open: bool,
    started: u64,
    observed: Option<bool>,
    now: u64,
    settle: u64,
)
    requires
        observed != Some(open),
        started <= now,
    ensures
        ({
            let exp = SwitchExpectation { expected: open, started, confirmed: None };
            &&& exp.noted(observed, now) == exp
            &&& exp.outcome(observed, now, settle) == (if now - started <= 300_000_000 {
                Expectation::Hold(open)
            } else {
                Expectation::Clear
            })
        }),
{
}

/// A switch that is observed settles for the settle time, counted from the first observation, and is
/// then over.
pub proof fn law_observed_switch_settles(
    open: bool,
    started: u64,
    seen: u64,
    now: u64,
    settle: u64,
)
    requires
        started <= seen <= now,
        settle > 0,
    ensures
        ({
            let exp = SwitchExpectation { expected: open, started, confirmed: None };
            let noted = exp.noted(Some(open), seen);
            &&& exp.outcome(Some(open), seen, settle) is Settling
            &&& noted.noted(Some(open), now) == noted
            &&& noted.outcome(Some(open), now, settle) == (if now - seen >= settle {
                Expectation::Clear
            } else {
                Expectation::Settling
            })
        }),
{
}

/// The settle time is that of the override in milliseconds, as far as it can be expressed, and 50
/// milliseconds without one.
pub proof fn law_settle_time(ms: u64)
    ensures
        ms * 1_000_000 <= u64::MAX ==> ime::settle_nanos(Some(ms)) == ms * 1_000_000,
        ms * 1_000_000 > u64::MAX ==> ime::settle_nanos(Some(ms)) == u64::MAX,
        ime::settle_nanos(None) == 50_000_000,
{
}

// ---- What is answered ----

/// Without a switch under way the answer is what the source says; while one is not observed, it is
/// what the switch is to bring.
pub proof fn law_answers_follow_the_source(
    v: DetectorView,
    id: Seq<char>,
    now: u64,
    settle: u64,
)
    ensures
        v.pending is None ==> v.answer(Some(id), now, settle) == ime::classified(id),
        v.pending is None ==> v.answer(None, now, settle) is None,
        v.pending is Some && v.pending->0.started <= now && now - v.pending->0.started
            <= 300_000_000 ==> v.answer(Some(id), now, settle) == Some(v.pending->0.expected)
            && v.answer(None, now, settle) == Some(v.pending->0.expected),
        v.pending is None ==> v.looked(Some(id), now, settle).pending is None,
        v.pending is None ==> v.looked(Some(id), now, settle).failed_switch == v.failed_switch,
{
}

/// A switch that is expected now is under way: at once the answer is its target, and it is noted when
/// it was first observed.
pub proof fn law_expected_switch_is_answered(
    v: DetectorView,
    open: bool,
    current: Option<Seq<char>>,
    now: u64,
    settle: u64,
)
    requires
        settle > 0,
    ensures
        ({
            let e = v.expecting(open, now);
            let after = e.looked(current, now, settle);
            &&& e.answer(current, now, settle) == Some(open)
            &&& after.pending is Some
            &&& after.pending->0.expected == open
            &&& DetectorView::observed(current) == Some(open) ==> after.last_confirmed_at == Some(
                now,
            )
            &&& DetectorView::observed(current) != Some(open) ==> after.last_confirmed_at
                == v.last_confirmed_at
        }),
{
}

/// A source in whatever mode of a Japanese IME is a Japanese layout, and one that cannot be read counts
/// as one; so does any while a switch to on is fresh.
pub proof fn law_japanese_layouts(v: DetectorView, id: Seq<char>, now: u64)
    ensures
        names_a_japanese_ime(id) ==> v.japanese_layout(Some(id), now),
        v.japanese_layout(None, now),
        v.pending matches Some(exp) && exp.expected && exp.started <= now && now - exp.started
            <= 300_000_000 ==> v.japanese_layout(Some(id), now),
        v.pending is None && !names_a_japanese_ime(id) ==> !v.japanese_layout(Some(id), now),
        v.pending matches Some(exp) && !exp.expected && !names_a_japanese_ime(id)
            ==> !v.japanese_layout(Some(id), now),
{
}

// ---- What is remembered ----

/// A source is remembered for what it is: the last that typed hiragana for switching on, the last that
/// meant off for switching off. A source that is neither, or none, takes nothing away.
pub proof fn law_sources_are_remembered(v: DetectorView, id: Seq<char>)
    ensures
        ({
            let w = v.observing(Some(id));
            &&& w.last_observed_id == Some(id)
            &&& w.last_japanese_id == (if ime::classified(id) == Some(true) && !text::contains_seq(
                id,
                "Katakana"@,
            ) {
                Some(id)
            } else {
                v.last_japanese_id
            })
            &&& w.last_off_id == (if ime::classified(id) == Some(false) {
                Some(id)
            } else {
                v.last_off_id
            })
            &&& w.pending == v.pending
            &&& w.failed_switch == v.failed_switch
            &&& v.observing(None) == v
        }),
{
}

/// The family of a Japanese source is remembered in every mode, and that of another source is not.
pub proof fn law_families_are_remembered(v: DetectorView, family: Seq<char>, mode: Seq<char>)
    requires
        forall|i: int| 0 <= i < mode.len() ==> mode[i] != '.',
    ensures
        ({
            let id = family.push('.') + mode;
            v.observing(Some(id)).last_japanese_prefix == (if names_a_japanese_ime(id) {
                Some(family)
            } else {
                v.last_japanese_prefix
            })
        }),
{
    ime::law_family_prefix_ignores_the_mode(family, mode);
}

// ---- What is tried ----

/// Every source that a filter accepts is tried, and in the order of the sources.
pub proof fn law_accepted_sources_are_all_tried(
    sources: Seq<Option<String>>,
    filter: FilterView,
    i: int,
)
    requires
        sources.len() <= usize::MAX,
        0 <= i < sources.len(),
        sources[i] matches Some(id) && filter.accepts(id@),
    ensures
        ime::accepted(sources, filter).contains(i as usize),
        forall|a: int, b: int|
            0 <= a < b < ime::accepted(sources, filter).len() ==> #[trigger] ime::accepted(
                sources,
                filter,
            )[a] < #[trigger] ime::accepted(sources, filter)[b],
    decreases sources.len(),
{
    let rest = sources.drop_last();
    let before = ime::accepted(rest, filter);
    let all = ime::accepted(sources, filter);
    lemma_ascending(sources, filter);
    if i == sources.len() - 1 {
        assert(all[all.len() - 1] == i as usize);
    } else {
        assert(rest[i] == sources[i]);
        law_accepted_sources_are_all_tried(rest, filter, i);
        let k = choose|k: int| 0 <= k < before.len() && before[k] == i as usize;
        assert(all[k] == before[k]);
    }
}

proof fn lemma_ascending(sources: Seq<Option<String>>, filter: FilterView)
    requires
        sources.len() <= usize::MAX,
    ensures
        forall|a: int|
            0 <= a < ime::accepted(sources, filter).len() ==> #[trigger] ime::accepted(
                sources,
                filter,
            )[a] < sources.len(),
        forall|a: int, b: int|
            0 <= a < b < ime::accepted(sources, filter).len() ==> #[trigger] ime::accepted(
                sources,
                filter,
            )[a] < #[trigger] ime::accepted(sources, filter)[b],
    decreases sources.len(),
{
    if sources.len() > 0 {
        let before = ime::accepted(sources.drop_last(), filter);
        let all = ime::accepted(sources, filter);
        lemma_ascending(sources.drop_last(), filter);
        assert forall|a: int| 0 <= a < all.len() implies #[trigger] all[a] < sources.len() by {
            if a < before.len() {
                assert(all[a] == before[a]);
            }
        }
        assert forall|a: int, b: int| 0 <= a < b < all.len() implies #[trigger] all[a]
            < #[trigger] all[b] by {
            assert(all[a] == before[a]);
            if b < before.len() {
                assert(all[b] == before[b]);
            }
        }
    }
}

proof fn lemma_tried_first(sources: Seq<Option<String>>, id: Seq<char>, i: int)
    requires
        sources.len() <= usize::MAX,
        0 <= i < sources.len(),
        sources[i] matches Some(s) && s@ == id,
    ensures
        ime::accepted(sources, FilterView::Exact(id)).len() > 0,
        sources[ime::accepted(sources, FilterView::Exact(id))[0] as int] matches Some(s) && s@
            == id,
    decreases sources.len(),
{
    let f = FilterView::Exact(id);
    let rest = sources.drop_last();
    let before = ime::accepted(rest, f);
    if before.len() > 0 {
        lemma_first_is_exact(rest, id);
    }
    if i < rest.len() {
        assert(rest[i] == sources[i]);
        lemma_tried_first(rest, id, i);
    }
}

proof fn lemma_first_is_exact(sources: Seq<Option<String>>, id: Seq<char>)
    requires
        sources.len() <= usize::MAX,
        ime::accepted(sources, FilterView::Exact(id)).len() > 0,
    ensures
        ime::accepted(sources, FilterView::Exact(id))[0] < sources.len(),
        sources[ime::accepted(sources, FilterView::Exact(id))[0] as int] matches Some(s) && s@
            == id,
    decreases sources.len(),
{
    let f = FilterView::Exact(id);
    let rest = sources.drop_last();
    if sources.len() > 0 && ime::accepted(rest, f).len() > 0 {
        lemma_first_is_exact(rest, id);
        let k = ime::accepted(rest, f)[0] as int;
        assert(rest[k] == sources[k]);
    }
}

/// A user who goes from a hiragana source to one that means off, and back, is brought back to the very
/// same sources, as long as they are there.
pub proof fn law_switching_brings_the_user_back(
    v: DetectorView,
    on: Seq<char>,
    off: Seq<char>,
    sources: Seq<Option<String>>,
    i: int,
    j: int,
)
    requires
        sources.len() <= usize::MAX,
        ime::classified(on) == Some(true),
        !text::contains_seq(on, "Katakana"@),
        ime::classified(off) == Some(false),
        0 <= i < sources.len(),
        0 <= j < sources.len(),
        sources[i] matches Some(s) && s@ == on,
        sources[j] matches Some(s) && s@ == off,
    ensures
        ({
            let w = v.observing(Some(on)).observing(Some(off));
            let tried_on = w.attempts(true, sources);
            let tried_off = w.attempts(false, sources);
            &&& tried_on.len() > 0
            &&& sources[tried_on[0] as int] matches Some(s) && s@ == on
            &&& tried_off.len() > 0
            &&& sources[tried_off[0] as int] matches Some(s) && s@ == off
        }),
{
    lemma_tried_first(sources, on, i);
    lemma_tried_first(sources, off, j);
}

/// Switching off ends with every keyboard layout; switching on without a remembered IME tries nothing.
pub proof fn law_last_resorts(v: DetectorView, sources: Seq<Option<String>>, i: int)
    requires
        sources.len() <= usize::MAX,
        0 <= i < sources.len(),
    ensures
        (sources[i] matches Some(id) && text::contains_seq(id@, "keylayout"@)) ==> v.attempts(
            false,
            sources,
        ).contains(i as usize),
        v.last_japanese_id is None && v.last_japanese_prefix is None ==> v.attempts(
            true,
            sources,
        ).len() == 0,
{
    let f = FilterView::KeyLayout;
    if let Some(id) = sources[i] {
        if text::contains_seq(id@, "keylayout"@) {
            law_accepted_sources_are_all_tried(sources, f, i);
            let last = ime::accepted(sources, f);
            let k = choose|k: int| 0 <= k < last.len() && last[k] == i as usize;
            let all = v.attempts(false, sources);
            let n = all.len() - last.len();
            assert(all[n + k] == last[k]);
        }
    }
}

/// Of the remembered family, switching on tries the modes that type hiragana, and switching off those
/// that type half-width romaji.
pub proof fn law_family_members(prefix: Seq<char>, id: Seq<char>)
    ensures
        FilterView::FamilyKana(prefix).accepts(id) <==> ime::family_member(id, prefix)
            && ime::classified(id) == Some(true) && !text::contains_seq(id, "Katakana"@),
        FilterView::FamilyRoman(prefix).accepts(id) && ime::japanese_im(id) ==> ime::classified(id)
            == Some(false) && ime::family_member(id, prefix) && !text::contains_seq(
            id,
            "FullWidth"@,
        ),
        ime::family_member(id, prefix) && ime::japanese_im(id) && ime::classified(id) == Some(false)
            && !text::contains_seq(id, "FullWidth"@) ==> FilterView::FamilyRoman(prefix).accepts(id),
        FilterView::Exact(prefix).accepts(id) <==> id == prefix,
        FilterView::KeyLayout.accepts(id) <==> text::contains_seq(id, "keylayout"@),
{
}

} // verus!
