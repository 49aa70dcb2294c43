//! Detecting and switching the IME on macOS.
//!
//! The current input source is known by its identifier, such as
//! `com.apple.inputmethod.Kotoeri.RomajiTyping.Japanese` or `com.apple.keylayout.ABC`. The
//! application reads the identifier and the clock and tries to select input sources; what the
//! answers mean is decided here. All times are in nanoseconds.

use vstd::prelude::*;

use crate::text;

verus! {

/// How long the expected state counts before the switch is taken to have failed.
///
/// A switch takes effect with a delay: keys typed right after it would be judged by the old
/// state.
pub const EXPECTATION_GRACE: u64 = 300_000_000;

/// How long output is still held back after the switch was observed: the input context of the
/// application in front follows later than the global state.
pub const OBSERVATION_SETTLE: u64 = 50_000_000;

pub const NANOS_PER_MS: u64 = 1_000_000;

// ---- Input source identifiers ----

/// The input source is some mode of a Japanese IME. The romaji mode of one vendor does not carry
/// the word `Japanese`, so that the vendor counts too.
pub open spec fn japanese_im(id: Seq<char>) -> bool {
    &&& text::contains_seq(id, "inputmethod"@)
    &&& text::contains_seq(id, "Japanese"@) || text::contains_seq(id, "Kotoeri"@)
        || text::contains_seq(id, "atok"@)
}

#[must_use]
pub fn is_japanese_im(id: &str) -> (r: bool)
    ensures
        r == japanese_im(id@),
{
    text::contains(id, "inputmethod") && (text::contains(id, "Japanese") || text::contains(
        id,
        "Kotoeri",
    ) || text::contains(id, "atok"))
}

/// The input source types hiragana.
pub open spec fn kana_mode(id: Seq<char>) -> bool {
    &&& japanese_im(id)
    &&& !text::contains_seq(id, "Roman"@)
    &&& !text::contains_seq(id, "Katakana"@)
    &&& !text::contains_seq(id, "Eiji"@)
}

#[must_use]
pub fn is_japanese_kana_mode(id: &str) -> (r: bool)
    ensures
        r == kana_mode(id@),
{
    is_japanese_im(id) && !text::contains(id, "Roman") && !text::contains(id, "Katakana")
        && !text::contains(id, "Eiji")
}

/// The state that an input source means: on or off for a Japanese IME, off for a keyboard layout
/// without an IME, unknown for anything else.
pub open spec fn classified(id: Seq<char>) -> Option<bool> {
    if japanese_im(id) {
        Some(!(text::contains_seq(id, "Roman"@) || text::contains_seq(id, "Eiji"@)))
    } else if text::contains_seq(id, "keylayout"@) {
        Some(false)
    } else {
        None
    }
}

#[must_use]
pub fn classify_input_source(id: &str) -> (r: Option<bool>)
    ensures
        r == classified(id@),
{
    if is_japanese_im(id) {
        Some(!(text::contains(id, "Roman") || text::contains(id, "Eiji")))
    } else if text::contains(id, "keylayout") {
        Some(false)
    } else {
        None
    }
}

/// A source that types hiragana means that the IME is on.
pub proof fn law_kana_mode_is_on(id: Seq<char>)
    requires
        kana_mode(id),
    ensures
        classified(id) == Some(true),
{
}

/// The identifier up to its last dot.
pub open spec fn family_prefix(id: Seq<char>) -> Option<Seq<char>>
    decreases id.len(),
{
    if id.len() == 0 {
        None
    } else if id.last() == '.' {
        Some(id.drop_last())
    } else {
        family_prefix(id.drop_last())
    }
}

/// The identifier without its last segment: the modes of one IME share it.
#[must_use]
pub fn im_family_prefix(id: &str) -> (r: Option<&str>)
    ensures
        match r {
            Some(p) => family_prefix(id@) == Some(p@),
            None => family_prefix(id@) is None,
        },
{
    let x = text::chars_of(id);
    let mut n: usize = x.len();
    assert(id@.subrange(0, n as int) =~= id@);
    while n > 0
        invariant
            x@ == id@,
            n <= x@.len(),
            family_prefix(id@) == family_prefix(id@.subrange(0, n as int)),
        decreases n,
    {
        assert(id@.subrange(0, n as int).drop_last() =~= id@.subrange(0, n - 1));
        if x[n - 1] == '.' {
            return Some(vstd::string::StrSliceExecFns::substring_char(id, 0, n - 1));
        }
        n -= 1;
    }
    None
}

/// The modes of one IME have the same prefix, whatever their last segment is called.
pub proof fn law_family_prefix_ignores_the_mode(prefix: Seq<char>, mode: Seq<char>)
    requires
        forall|i: int| 0 <= i < mode.len() ==> mode[i] != '.',
    ensures
        family_prefix(prefix.push('.') + mode) == Some(prefix),
        family_member(prefix.push('.') + mode, prefix),
    decreases mode.len(),
{
    let id = prefix.push('.') + mode;
    assert(id.subrange(0, prefix.len() as int) =~= prefix);
    if mode.len() == 0 {
        assert(id =~= prefix.push('.'));
        assert(id.drop_last() =~= prefix);
    } else {
        law_family_prefix_ignores_the_mode(prefix, mode.drop_last());
        assert(id.drop_last() =~= prefix.push('.') + mode.drop_last());
        assert(id.last() == mode.last());
    }
}

/// The candidate is the prefix itself or goes on with a dot.
pub open spec fn family_member(candidate: Seq<char>, prefix: Seq<char>) -> bool {
    candidate == prefix || (text::has_prefix(candidate, prefix) && candidate.len() > prefix.len()
        && candidate[prefix.len() as int] == '.')
}

#[must_use]
pub fn in_family(candidate: &str, prefix: &str) -> (r: bool)
    ensures
        r == family_member(candidate@, prefix@),
{
    if text::same(candidate, prefix) {
        return true;
    }
    if !text::starts_with(candidate, prefix) {
        return false;
    }
    let x = text::chars_of(candidate);
    let n = text::chars_of(prefix).len();
    x.len() > n && x[n] == '.'
}

/// A sibling whose name merely begins like the family is not in it.
pub proof fn law_siblings_are_not_family(prefix: Seq<char>, next: char, rest: Seq<char>)
    requires
        next != '.',
    ensures
        !family_member(prefix.push(next) + rest, prefix),
{
    let id = prefix.push(next) + rest;
    assert(id.len() > prefix.len());
    assert(id[prefix.len() as int] == next);
}

// ---- Expectations ----

/// A switch that was asked for and has not settled yet.
#[derive(Debug, Clone, Copy, PartialEq, Eq, Structural)]
pub struct SwitchExpectation {
    pub expected: bool,
    pub started: u64,
    /// When the expected state was first observed.
    pub confirmed: Option<u64>,
}

/// What becomes of an expectation.
#[derive(Debug, Clone, Copy, PartialEq, Eq, Structural)]
pub enum Expectation {
    /// Not observed yet: the expected state counts.
    Hold(bool),
    /// Observed; output is still held back.
    Settling,
    /// Settled, or given up.
    Clear,
}

/// Time from `since` to `now`; none where the clock reads earlier.
pub open spec fn elapsed(since: u64, now: u64) -> u64 {
    if now >= since {
        (now - since) as u64
    } else {
        0
    }
}

fn elapsed_since(since: u64, now: u64) -> (r: u64)
    ensures
        r == elapsed(since, now),
{
    if now >= since {
        now - since
    } else {
        0
    }
}

impl SwitchExpectation {
    #[must_use]
    pub fn new(expected: bool, now: u64) -> (r: Self)
        ensures
            r == (SwitchExpectation { expected, started: now, confirmed: None }),
    {
        SwitchExpectation { expected, started: now, confirmed: None }
    }

    /// The expectation after an observation: the first match is remembered.
    pub open spec fn noted(self, observed: Option<bool>, now: u64) -> SwitchExpectation {
        if observed == Some(self.expected) && self.confirmed is None {
            SwitchExpectation { confirmed: Some(now), ..self }
        } else {
            self
        }
    }

    pub open spec fn outcome(self, observed: Option<bool>, now: u64, settle: u64) -> Expectation {
        if observed == Some(self.expected) {
            if elapsed(self.noted(observed, now).confirmed->0, now) >= settle {
                Expectation::Clear
            } else {
                Expectation::Settling
            }
        } else if elapsed(self.started, now) > EXPECTATION_GRACE {
            Expectation::Clear
        } else {
            Expectation::Hold(self.expected)
        }
    }

    /// Takes an observation into account.
    pub fn resolve(&mut self, observed: Option<bool>, now: u64, settle: u64) -> (r: Expectation)
        ensures
            r == old(self).outcome(observed, now, settle),
            *final(self) == old(self).noted(observed, now),
    {
        let matched = match observed {
            Some(o) => o == self.expected,
            None => false,
        };
        if matched {
            let confirmed = match self.confirmed {
                Some(at) => at,
                None => {
                    self.confirmed = Some(now);
                    now
                },
            };
            if elapsed_since(confirmed, now) >= settle {
                Expectation::Clear
            } else {
                Expectation::Settling
            }
        } else if elapsed_since(self.started, now) > EXPECTATION_GRACE {
            Expectation::Clear
        } else {
            Expectation::Hold(self.expected)
        }
    }
}

/// An expectation is given up no sooner than the grace, and a switch that was observed settles no
/// sooner than the settle time after the first observation.
pub proof fn law_expectations_last_long_enough(
    exp: SwitchExpectation,
    observed: Option<bool>,
    now: u64,
    settle: u64,
)
    requires
        exp.outcome(observed, now, settle) is Clear,
    ensures
        observed != Some(exp.expected) ==> now - exp.started > EXPECTATION_GRACE,
        observed == Some(exp.expected) && settle > 0 ==> (exp.confirmed matches Some(at) && now
            - at >= settle),
{
}

/// An expectation does not last for ever: at the latest once both times are over, it is cleared.
pub proof fn law_expectations_end(
    exp: SwitchExpectation,
    observed: Option<bool>,
    now: u64,
    settle: u64,
)
    requires
        now - exp.started > EXPECTATION_GRACE,
        exp.confirmed matches Some(at) && now - at >= settle,
    ensures
        exp.outcome(observed, now, settle) is Clear,
{
}

/// The settle time in nanoseconds, as far as it can be expressed.
pub open spec fn settle_nanos(ms: Option<u64>) -> u64 {
    match ms {
        Some(v) => if v * NANOS_PER_MS <= u64::MAX {
            (v * NANOS_PER_MS) as u64
        } else {
            u64::MAX
        },
        None => OBSERVATION_SETTLE,
    }
}

/// The settle time that an override in milliseconds asks for.
#[must_use]
pub fn settle_from_ms(ms: Option<u64>) -> (r: u64)
    ensures
        r == settle_nanos(ms),
{
    match ms {
        Some(v) => match v.checked_mul(NANOS_PER_MS) {
            Some(n) => n,
            None => u64::MAX,
        },
        None => OBSERVATION_SETTLE,
    }
}

/// The settle time, given the value of the environment variable `AWASE_MACOS_SETTLE_MS`. A value
/// that is no number does not count.
#[must_use]
pub fn observation_settle(value: Option<&str>) -> (r: u64)
    ensures
        r == settle_nanos(
            match value {
                Some(s) => text::unsigned_number(s@),
                None => None,
            },
        ),
{
    match value {
        Some(s) => settle_from_ms(text::parse_unsigned(s)),
        None => settle_from_ms(None),
    }
}

// ---- The detector ----

/// What is known of the input sources and of a switch under way.
#[derive(Debug)]
pub struct ImeDetector {
    /// Last source that typed hiragana; the first choice for switching on.
    last_japanese_id: Option<String>,
    /// Family of the last Japanese source, whatever its mode.
    last_japanese_prefix: Option<String>,
    pending: Option<SwitchExpectation>,
    /// Last source of any kind.
    last_observed_id: Option<String>,
    /// Last source that meant off; the first choice for switching off.
    ///
    /// The user's own choice is restored: picking by some order of preference would move a user
    /// of a plain layout to the romaji mode of an IME for good.
    last_off_id: Option<String>,
    /// Target of a switch that was never observed.
    failed_switch: Option<bool>,
    /// When the last switch was observed.
    last_confirmed_at: Option<u64>,
}

/// The detector with identifiers as character sequences.
pub ghost struct DetectorView {
    pub last_japanese_id: Option<Seq<char>>,
    pub last_japanese_prefix: Option<Seq<char>>,
    pub pending: Option<SwitchExpectation>,
    pub last_observed_id: Option<Seq<char>>,
    pub last_off_id: Option<Seq<char>>,
    pub failed_switch: Option<bool>,
    pub last_confirmed_at: Option<u64>,
}

pub open spec fn id_view(id: Option<String>) -> Option<Seq<char>> {
    match id {
        Some(s) => Some(s@),
        None => None,
    }
}

pub open spec fn source_view(id: Option<&str>) -> Option<Seq<char>> {
    match id {
        Some(s) => Some(s@),
        None => None,
    }
}

/// Which input sources a switch accepts.
pub ghost enum FilterView {
    Exact(Seq<char>),
    FamilyKana(Seq<char>),
    FamilyRoman(Seq<char>),
    KeyLayout,
}

impl FilterView {
    pub open spec fn accepts(self, id: Seq<char>) -> bool {
        match self {
            FilterView::Exact(wanted) => id == wanted,
            FilterView::FamilyKana(prefix) => family_member(id, prefix) && kana_mode(id),
            FilterView::FamilyRoman(prefix) => family_member(id, prefix) && (text::contains_seq(
                id,
                "Roman"@,
            ) || text::contains_seq(id, "Eiji"@)) && !text::contains_seq(id, "FullWidth"@),
            FilterView::KeyLayout => text::contains_seq(id, "keylayout"@),
        }
    }
}

/// Indices of the accepted sources, in order. A source without an identifier is never accepted.
pub open spec fn accepted(sources: Seq<Option<String>>, filter: FilterView) -> Seq<usize>
    decreases sources.len(),
{
    if sources.len() == 0 {
        Seq::empty()
    } else {
        let before = accepted(sources.drop_last(), filter);
        match sources.last() {
            Some(id) if filter.accepts(id@) => before.push((sources.len() - 1) as usize),
            _ => before,
        }
    }
}

enum SourceFilter<'a> {
    Exact(&'a str),
    FamilyKana(&'a str),
    FamilyRoman(&'a str),
    KeyLayout,
}

impl<'a> SourceFilter<'a> {
    spec fn filter(self) -> FilterView {
        match self {
            SourceFilter::Exact(s) => FilterView::Exact(s@),
            SourceFilter::FamilyKana(p) => FilterView::FamilyKana(p@),
            SourceFilter::FamilyRoman(p) => FilterView::FamilyRoman(p@),
            SourceFilter::KeyLayout => FilterView::KeyLayout,
        }
    }

    fn accepts(&self, id: &str) -> (r: bool)
        ensures
            r == self.filter().accepts(id@),
    {
        match self {
            SourceFilter::Exact(wanted) => text::same(id, wanted),
            SourceFilter::FamilyKana(prefix) => in_family(id, prefix) && is_japanese_kana_mode(id),
            SourceFilter::FamilyRoman(prefix) => in_family(id, prefix) && (text::contains(
                id,
                "Roman",
            ) || text::contains(id, "Eiji")) && !text::contains(id, "FullWidth"),
            SourceFilter::KeyLayout => text::contains(id, "keylayout"),
        }
    }
}

/// Appends the indices of the accepted sources.
fn push_accepted(sources: &Vec<Option<String>>, filter: &SourceFilter, out: &mut Vec<usize>)
    ensures
        final(out)@ == old(out)@ + accepted(sources@, filter.filter()),
{
    let ghost before = out@;
    let mut i: usize = 0;
    assert(before + accepted(sources@.subrange(0, 0), filter.filter()) =~= before);
    while i < sources.len()
        invariant
            i <= sources@.len(),
            out@ == before + accepted(sources@.subrange(0, i as int), filter.filter()),
        decreases sources@.len() - i,
    {
        assert(sources@.subrange(0, i + 1).drop_last() =~= sources@.subrange(0, i as int));
        if let Some(id) = &sources[i] {
            if filter.accepts(id.as_str()) {
                out.push(i);
            }
        }
        assert(out@ =~= before + accepted(sources@.subrange(0, i + 1), filter.filter()));
        i += 1;
    }
    assert(sources@.subrange(0, i as int) =~= sources@);
}

impl DetectorView {
    pub open spec fn fresh() -> DetectorView {
        DetectorView {
            last_japanese_id: None,
            last_japanese_prefix: None,
            pending: None,
            last_observed_id: None,
            last_off_id: None,
            failed_switch: None,
            last_confirmed_at: None,
        }
    }

    /// What is remembered is what it is remembered for.
    pub open spec fn wf(self) -> bool {
        &&& self.last_japanese_id matches Some(id) ==> kana_mode(id)
        &&& self.last_off_id matches Some(id) ==> classified(id) == Some(false)
    }

    /// Remembers the current input source.
    pub open spec fn observing(self, current: Option<Seq<char>>) -> DetectorView {
        match current {
            None => self,
            Some(id) => DetectorView {
                last_observed_id: Some(id),
                last_japanese_prefix: if japanese_im(id) && family_prefix(id) is Some {
                    family_prefix(id)
                } else {
                    self.last_japanese_prefix
                },
                last_japanese_id: if kana_mode(id) {
                    Some(id)
                } else {
                    self.last_japanese_id
                },
                last_off_id: if classified(id) == Some(false) {
                    Some(id)
                } else {
                    self.last_off_id
                },
                ..self
            },
        }
    }

    pub open spec fn observed(current: Option<Seq<char>>) -> Option<bool> {
        match current {
            None => None,
            Some(id) => classified(id),
        }
    }

    /// Looks at the current input source and moves the expectation on.
    pub open spec fn looked(self, current: Option<Seq<char>>, now: u64, settle: u64) -> DetectorView {
        let seen = self.observing(current);
        let observed = Self::observed(current);
        match self.pending {
            None => seen,
            Some(exp) => {
                let noted = exp.noted(observed, now);
                let confirmed_at = if exp.confirmed is None && noted.confirmed is Some {
                    noted.confirmed
                } else {
                    self.last_confirmed_at
                };
                if exp.outcome(observed, now, settle) is Clear {
                    DetectorView {
                        pending: None,
                        failed_switch: if observed == Some(exp.expected) {
                            self.failed_switch
                        } else {
                            Some(exp.expected)
                        },
                        last_confirmed_at: confirmed_at,
                        ..seen
                    }
                } else {
                    DetectorView {
                        pending: Some(noted),
                        last_confirmed_at: confirmed_at,
                        ..seen
                    }
                }
            },
        }
    }

    /// The answer that goes with it: the expected state while it is not observed yet.
    pub open spec fn answer(self, current: Option<Seq<char>>, now: u64, settle: u64) -> Option<bool> {
        let observed = Self::observed(current);
        match self.pending {
            None => observed,
            Some(exp) => match exp.outcome(observed, now, settle) {
                Expectation::Hold(expected) => Some(expected),
                _ => observed,
            },
        }
    }

    pub open spec fn expecting(self, open: bool, now: u64) -> DetectorView {
        DetectorView {
            pending: Some(SwitchExpectation { expected: open, started: now, confirmed: None }),
            ..self
        }
    }

    /// What to try, in order, for switching on or off.
    ///
    /// On: the remembered source, then the hiragana modes of the remembered family; no source
    /// that was never used is picked. Off: the remembered source, then the romaji modes of the
    /// remembered family, then any keyboard layout.
    pub open spec fn attempts(self, open: bool, sources: Seq<Option<String>>) -> Seq<usize> {
        let remembered = if open {
            self.last_japanese_id
        } else {
            self.last_off_id
        };
        let exact = match remembered {
            Some(id) => accepted(sources, FilterView::Exact(id)),
            None => Seq::empty(),
        };
        let family = match self.last_japanese_prefix {
            Some(prefix) => accepted(
                sources,
                if open {
                    FilterView::FamilyKana(prefix)
                } else {
                    FilterView::FamilyRoman(prefix)
                },
            ),
            None => Seq::empty(),
        };
        if open {
            exact + family
        } else {
            exact + family + accepted(sources, FilterView::KeyLayout)
        }
    }

    pub open spec fn japanese_layout(self, current: Option<Seq<char>>, now: u64) -> bool {
        ||| self.pending matches Some(exp) && exp.expected && elapsed(exp.started, now)
            <= EXPECTATION_GRACE
        ||| match current {
            None => true,
            Some(id) => japanese_im(id),
        }
    }
}

impl View for ImeDetector {
    type V = DetectorView;

    closed spec fn view(&self) -> DetectorView {
        DetectorView {
            last_japanese_id: id_view(self.last_japanese_id),
            last_japanese_prefix: id_view(self.last_japanese_prefix),
            pending: self.pending,
            last_observed_id: id_view(self.last_observed_id),
            last_off_id: id_view(self.last_off_id),
            failed_switch: self.failed_switch,
            last_confirmed_at: self.last_confirmed_at,
        }
    }
}

impl ImeDetector {
    /// A detector that has looked at the current input source once, so that a source to go back
    /// to is known before the first key.
    #[must_use]
    pub fn new(current: Option<&str>) -> (r: Self)
        ensures
            r@ == DetectorView::fresh().observing(source_view(current)),
    {
        let mut detector = ImeDetector {
            last_japanese_id: None,
            last_japanese_prefix: None,
            pending: None,
            last_observed_id: None,
            last_off_id: None,
            failed_switch: None,
            last_confirmed_at: None,
        };
        let _ = detector.observe_ime_on(current);
        detector
    }

    /// A key that switches the IME has reached the OS.
    pub fn expect_ime_on(&mut self, open: bool, now: u64)
        ensures
            final(self)@ == old(self)@.expecting(open, now),
    {
        self.pending = Some(SwitchExpectation::new(open, now));
    }

    /// A switch has not settled yet: keys sent now would be read by the old input source.
    pub fn is_switch_pending(&mut self, current: Option<&str>, now: u64, settle: u64) -> (r: bool)
        ensures
            final(self)@ == old(self)@.looked(source_view(current), now, settle),
            r == (final(self)@.pending is Some),
    {
        let _ = self.is_ime_on(current, now, settle);
        self.pending.is_some()
    }

    /// Target of the switch under way.
    #[must_use]
    pub fn pending_open(&self) -> (r: Option<bool>)
        ensures
            r == (match self@.pending {
                Some(exp) => Some(exp.expected),
                None => None,
            }),
    {
        match self.pending {
            Some(exp) => Some(exp.expected),
            None => None,
        }
    }

    /// Target of a switch that was never observed; it is handed out once.
    pub fn take_failed_switch(&mut self) -> (r: Option<bool>)
        ensures
            r == old(self)@.failed_switch,
            final(self)@ == (DetectorView { failed_switch: None, ..old(self)@ }),
    {
        let r = self.failed_switch;
        self.failed_switch = None;
        r
    }

    /// Time since the last switch was observed.
    #[must_use]
    pub fn since_switch_confirmed(&self, now: u64) -> (r: Option<u64>)
        ensures
            r == (match self@.last_confirmed_at {
                Some(at) => Some(elapsed(at, now)),
                None => None,
            }),
    {
        match self.last_confirmed_at {
            Some(at) => Some(elapsed_since(at, now)),
            None => None,
        }
    }

    /// Whether the IME is on, given the current input source.
    pub fn is_ime_on(&mut self, current: Option<&str>, now: u64, settle: u64) -> (r: Option<bool>)
        ensures
            final(self)@ == old(self)@.looked(source_view(current), now, settle),
            r == old(self)@.answer(source_view(current), now, settle),
    {
        let observed = self.observe_ime_on(current);
        match self.pending {
            None => observed,
            Some(exp) => {
                let mut exp = exp;
                let was_confirmed = exp.confirmed.is_some();
                let outcome = exp.resolve(observed, now, settle);
                if !was_confirmed && exp.confirmed.is_some() {
                    self.last_confirmed_at = exp.confirmed;
                }
                self.pending = Some(exp);
                match outcome {
                    Expectation::Hold(expected) => Some(expected),
                    Expectation::Settling => observed,
                    Expectation::Clear => {
                        let matched = match observed {
                            Some(o) => o == exp.expected,
                            None => false,
                        };
                        if !matched {
                            self.failed_switch = Some(exp.expected);
                        }
                        self.pending = None;
                        observed
                    },
                }
            },
        }
    }

    /// What the current input source means by itself; it is remembered.
    pub fn observe_ime_on(&mut self, current: Option<&str>) -> (r: Option<bool>)
        ensures
            final(self)@ == old(self)@.observing(source_view(current)),
            r == DetectorView::observed(source_view(current)),
    {
        match current {
            None => None,
            Some(id) => {
                self.last_observed_id = Some(id.to_owned());
                if is_japanese_im(id) {
                    if let Some(prefix) = im_family_prefix(id) {
                        self.last_japanese_prefix = Some(prefix.to_owned());
                    }
                    if is_japanese_kana_mode(id) {
                        self.last_japanese_id = Some(id.to_owned());
                    }
                }
                let observed = classify_input_source(id);
                if matches!(observed, Some(false)) {
                    self.last_off_id = Some(id.to_owned());
                }
                observed
            },
        }
    }

    /// A Japanese IME is in use, in whatever mode. While a switch to on is expected it counts as
    /// in use already.
    #[must_use]
    pub fn is_japanese_layout(&self, current: Option<&str>, now: u64) -> (r: bool)
        ensures
            r == self@.japanese_layout(source_view(current), now),
    {
        if let Some(exp) = self.pending {
            if exp.expected && elapsed_since(exp.started, now) <= EXPECTATION_GRACE {
                return true;
            }
        }
        match current {
            None => true,
            Some(id) => is_japanese_im(id),
        }
    }

    /// Notes the outcome of trying to select an input source. Only a success is expected to take
    /// effect.
    pub fn set_ime_on(&mut self, open: bool, selected: bool, now: u64) -> (r: bool)
        ensures
            r == selected,
            final(self)@ == (if selected {
                old(self)@.expecting(open, now)
            } else {
                old(self)@
            }),
    {
        if selected {
            self.expect_ime_on(open, now);
        }
        selected
    }

    /// The input sources to try for switching on or off, as indices into `sources`, in order.
    /// The first that can be selected is taken.
    #[must_use]
    pub fn select_for(&self, open: bool, sources: &Vec<Option<String>>) -> (r: Vec<usize>)
        ensures
            r@ == self@.attempts(open, sources@),
    {
        let mut out: Vec<usize> = Vec::new();
        let remembered = if open {
            &self.last_japanese_id
        } else {
            &self.last_off_id
        };
        if let Some(id) = remembered {
            push_accepted(sources, &SourceFilter::Exact(id.as_str()), &mut out);
        }
        if let Some(prefix) = &self.last_japanese_prefix {
            if open {
                push_accepted(sources, &SourceFilter::FamilyKana(prefix.as_str()), &mut out);
            } else {
                push_accepted(sources, &SourceFilter::FamilyRoman(prefix.as_str()), &mut out);
            }
        }
        if !open {
            push_accepted(sources, &SourceFilter::KeyLayout, &mut out);
        }
        assert(out@ =~= self@.attempts(open, sources@));
        out
    }
}

// ---- Laws ----

/// Every detector starts well-formed and stays so, whatever it sees.
pub proof fn law_memory_is_sound(v: DetectorView, current: Option<Seq<char>>, now: u64, settle: u64)
    requires
        v.wf(),
    ensures
        DetectorView::fresh().wf(),
        v.observing(current).wf(),
        v.looked(current, now, settle).wf(),
{
}

/// While a switch is under way the answer is the state that is switched to.
pub proof fn law_pending_switch_answers_its_target(
    v: DetectorView,
    current: Option<Seq<char>>,
    now: u64,
    settle: u64,
)
    ensures
        v.looked(current, now, settle).pending matches Some(exp) ==> v.answer(current, now, settle)
            == Some(exp.expected),
{
}

/// A switch that ends is either observed or reported as failed, never both.
pub proof fn law_ended_switch_is_accounted_for(
    v: DetectorView,
    current: Option<Seq<char>>,
    now: u64,
    settle: u64,
)
    requires
        v.pending is Some,
        v.failed_switch is None,
        v.looked(current, now, settle).pending is None,
    ensures
        v.looked(current, now, settle).failed_switch is None <==> v.answer(current, now, settle)
            == Some(v.pending->0.expected),
        v.looked(current, now, settle).failed_switch is Some ==> v.looked(
            current,
            now,
            settle,
        ).failed_switch == Some(v.pending->0.expected),
{
}

proof fn lemma_accepted(sources: Seq<Option<String>>, filter: FilterView, k: int)
    requires
        0 <= k < accepted(sources, filter).len(),
        sources.len() <= usize::MAX,
    ensures
        accepted(sources, filter)[k] < sources.len(),
        sources[accepted(sources, filter)[k] as int] matches Some(id) && filter.accepts(id@),
    decreases sources.len(),
{
    if sources.len() > 0 {
        let before = accepted(sources.drop_last(), filter);
        if k < before.len() {
            lemma_accepted(sources.drop_last(), filter, k);
        }
    }
}

/// Switching on tries only sources of an IME that the user has used: the remembered one, or a
/// hiragana mode of its family. Without one nothing is tried.
pub proof fn law_switching_on_stays_in_the_family(
    v: DetectorView,
    sources: Seq<Option<String>>,
    k: int,
)
    requires
        v.wf(),
        sources.len() <= usize::MAX,
        0 <= k < v.attempts(true, sources).len(),
    ensures
        v.attempts(true, sources)[k] < sources.len(),
        sources[v.attempts(true, sources)[k] as int] matches Some(id) && kana_mode(id@) && (
        v.last_japanese_id == Some(id@) || family_member(id@, v.last_japanese_prefix->0)
            && v.last_japanese_prefix is Some),
{
    let exact = match v.last_japanese_id {
        Some(id) => accepted(sources, FilterView::Exact(id)),
        None => Seq::empty(),
    };
    if k < exact.len() {
        lemma_accepted(sources, FilterView::Exact(v.last_japanese_id->0), k);
    } else {
        lemma_accepted(
            sources,
            FilterView::FamilyKana(v.last_japanese_prefix->0),
            k - exact.len(),
        );
    }
}

/// Switching off begins with the source that the user last switched off with, where it is still
/// there.
pub proof fn law_switching_off_restores_the_users_source(
    v: DetectorView,
    sources: Seq<Option<String>>,
    id: Seq<char>,
)
    requires
        v.last_off_id == Some(id),
        sources.len() <= usize::MAX,
        accepted(sources, FilterView::Exact(id)).len() > 0,
    ensures
        v.attempts(false, sources).len() > 0,
        sources[v.attempts(false, sources)[0] as int] matches Some(s) && s@ == id,
{
    lemma_accepted(sources, FilterView::Exact(id), 0);
}

} // verus!
