//! Switching the IME on and off.
//!
//! There are four mechanisms, in order of preference: a message to the window across processes,
//! the idempotent keys of Google Japanese Input, those of Microsoft IME, and as the last resort
//! the toggle key. Which of them apply depends on the window in focus and on the active IME. They
//! are tried in turn: only where one fails does the next follow.
//!
//! This module observes nothing and writes nothing itself. It takes what was observed as an
//! `ImeControlView`, and says what to write.

use vstd::prelude::*;

use crate::engine::decision::InputModeState;
use crate::text;

verus! {

/// Key that opens the IME and does nothing where it is open.
pub const VK_IME_ON: u16 = 0x16;

/// Key that closes the IME and does nothing where it is closed.
pub const VK_IME_OFF: u16 = 0x1A;

/// How far a window can be reached.
#[derive(Debug, Clone, Copy, PartialEq, Eq, Structural)]
pub enum AppImeProfile {
    /// Messages to the window work.
    Standard,
    Imm32Unavailable,
    TsfNative,
}

impl AppImeProfile {
    #[must_use]
    pub fn can_use_imm32_cross_process(self) -> (r: bool)
        ensures
            r == (self is Standard),
    {
        matches!(self, AppImeProfile::Standard)
    }
}

/// The active IME. One that is not recognised counts as Microsoft IME.
#[derive(Debug, Clone, Copy, PartialEq, Eq, Structural)]
pub enum ActiveImeKind {
    GoogleJapaneseInput,
    MicrosoftIme,
}

/// Facts about the window in focus.
#[derive(Debug, Clone, Copy, PartialEq, Eq, Structural)]
pub struct FocusFacts {
    pub profile: AppImeProfile,
}

/// What was observed of the IME.
#[derive(Debug, Clone, Copy, PartialEq, Eq, Structural)]
pub struct ObservedState {
    pub active_ime_kind: ActiveImeKind,
}

/// What was last asked of the IME.
#[derive(Debug, Clone, Copy, PartialEq, Eq, Structural)]
pub struct ControlLog {
    /// The IME was switched on and not off since.
    pub shadow_on: bool,
}

/// All that a switch is decided on.
#[derive(Debug, Clone, Copy, PartialEq, Eq, Structural)]
pub struct ImeControlView {
    pub focus: FocusFacts,
    pub observed: ObservedState,
    pub control: ControlLog,
    pub belief_input_mode: InputModeState,
}

/// How the attempt to switch the IME went.
#[derive(Debug, Clone, Copy, PartialEq, Eq, Structural)]
pub enum ImeOpenOutcome {
    Applied,
    /// The IME is in that state already.
    AlreadyMatched,
    /// The toggle key was sent; what it did is not known.
    FallbackSent,
    /// Nothing was sent, as the Windows key is held. To be tried again later.
    UnsafeToToggle,
    /// The write did not come through: the next mechanism follows.
    Failed,
}

#[derive(Debug, Clone, Copy, PartialEq, Eq, Structural)]
pub enum WriteMechanism {
    ImmCross,
    GjiDirect,
    MsImeDirect,
    KanjiToggle,
}

/// The mechanisms in order of preference.
pub open spec fn all_mechanisms() -> Seq<WriteMechanism> {
    seq![
        WriteMechanism::ImmCross,
        WriteMechanism::GjiDirect,
        WriteMechanism::MsImeDirect,
        WriteMechanism::KanjiToggle,
    ]
}

/// Whether a mechanism works for a window and an IME.
pub open spec fn applicable(mechanism: WriteMechanism, view: ImeControlView) -> bool {
    match mechanism {
        WriteMechanism::ImmCross => view.focus.profile is Standard,
        WriteMechanism::GjiDirect => view.observed.active_ime_kind is GoogleJapaneseInput,
        WriteMechanism::MsImeDirect => view.observed.active_ime_kind is MicrosoftIme && !(
        view.focus.profile is Standard),
        WriteMechanism::KanjiToggle => true,
    }
}

impl WriteMechanism {
    /// The mechanisms in order of preference.
    #[must_use]
    pub fn all() -> (r: Vec<WriteMechanism>)
        ensures
            r@ == all_mechanisms(),
    {
        vec![
            WriteMechanism::ImmCross,
            WriteMechanism::GjiDirect,
            WriteMechanism::MsImeDirect,
            WriteMechanism::KanjiToggle,
        ]
    }

    pub open spec fn label(self) -> Seq<char> {
        match self {
            WriteMechanism::ImmCross => "ImmCross"@,
            WriteMechanism::GjiDirect => "GjiDirect"@,
            WriteMechanism::MsImeDirect => "MsImeDirect"@,
            WriteMechanism::KanjiToggle => "KanjiToggle"@,
        }
    }

    #[must_use]
    pub fn name(self) -> (r: &'static str)
        ensures
            r@ == self.label(),
    {
        match self {
            WriteMechanism::ImmCross => "ImmCross",
            WriteMechanism::GjiDirect => "GjiDirect",
            WriteMechanism::MsImeDirect => "MsImeDirect",
            WriteMechanism::KanjiToggle => "KanjiToggle",
        }
    }

    /// Whether a write through the mechanism can fail. A key that is sent does not report back.
    #[must_use]
    pub fn may_return_failed(self) -> (r: bool)
        ensures
            r == (self is ImmCross),
    {
        matches!(self, WriteMechanism::ImmCross)
    }
}

/// Whether a mechanism works for what was observed.
#[must_use]
pub fn mechanism_is_applicable(mechanism: WriteMechanism, view: &ImeControlView) -> (r: bool)
    ensures
        r == applicable(mechanism, *view),
{
    match mechanism {
        WriteMechanism::ImmCross => view.focus.profile.can_use_imm32_cross_process(),
        WriteMechanism::GjiDirect => matches!(
            view.observed.active_ime_kind,
            ActiveImeKind::GoogleJapaneseInput
        ),
        WriteMechanism::MsImeDirect => matches!(
            view.observed.active_ime_kind,
            ActiveImeKind::MicrosoftIme
        ) && !view.focus.profile.can_use_imm32_cross_process(),
        WriteMechanism::KanjiToggle => true,
    }
}

/// The mechanisms that are tried, in order. Where messages to the window work they come first,
/// followed by what does not depend on the window.
pub open spec fn chain_of(profile: AppImeProfile, kind: ActiveImeKind) -> Seq<WriteMechanism> {
    match (profile, kind) {
        (AppImeProfile::Standard, ActiveImeKind::GoogleJapaneseInput) => seq![
            WriteMechanism::ImmCross,
            WriteMechanism::GjiDirect,
        ],
        (AppImeProfile::Standard, ActiveImeKind::MicrosoftIme) => seq![
            WriteMechanism::ImmCross,
            WriteMechanism::KanjiToggle,
        ],
        (_, ActiveImeKind::GoogleJapaneseInput) => seq![WriteMechanism::GjiDirect],
        (_, ActiveImeKind::MicrosoftIme) => seq![WriteMechanism::MsImeDirect],
    }
}

pub open spec fn view_chain(view: ImeControlView) -> Seq<WriteMechanism> {
    chain_of(view.focus.profile, view.observed.active_ime_kind)
}

/// The mechanisms that are tried for what was observed, in order.
#[must_use]
pub fn caps_chain_for(view: &ImeControlView) -> (r: Vec<WriteMechanism>)
    ensures
        r@ == view_chain(*view),
{
    match (view.focus.profile, view.observed.active_ime_kind) {
        (AppImeProfile::Standard, ActiveImeKind::GoogleJapaneseInput) => vec![
            WriteMechanism::ImmCross,
            WriteMechanism::GjiDirect,
        ],
        (AppImeProfile::Standard, ActiveImeKind::MicrosoftIme) => vec![
            WriteMechanism::ImmCross,
            WriteMechanism::KanjiToggle,
        ],
        (_, ActiveImeKind::GoogleJapaneseInput) => vec![WriteMechanism::GjiDirect],
        (_, ActiveImeKind::MicrosoftIme) => vec![WriteMechanism::MsImeDirect],
    }
}

/// Microsoft IME opens with kana input where its romaji bit is not set, and neither the message
/// nor the key sets it. It is set first, unless the user has chosen kana input.
pub open spec fn needs_romaji(mechanism: WriteMechanism, open: bool, view: ImeControlView) -> bool {
    &&& open
    &&& mechanism is ImmCross || mechanism is MsImeDirect
    &&& view.observed.active_ime_kind is MicrosoftIme
    &&& !(view.belief_input_mode is ObservedKana)
}

#[must_use]
pub fn needs_romaji_pre_write(mechanism: WriteMechanism, open: bool, view: &ImeControlView) -> (r:
    bool)
    ensures
        r == needs_romaji(mechanism, open, *view),
{
    open && matches!(mechanism, WriteMechanism::ImmCross | WriteMechanism::MsImeDirect) && matches!(
        view.observed.active_ime_kind,
        ActiveImeKind::MicrosoftIme
    ) && !matches!(view.belief_input_mode, InputModeState::ObservedKana)
}

/// What to write.
#[derive(Debug, Clone, Copy, PartialEq, Eq, Structural)]
pub enum Write {
    /// Nothing: the IME is in that state already.
    Nothing,
    /// The open status, by a message to the window in focus.
    OpenStatus(bool),
    /// A press of a mode key.
    ModeKey(u16),
    /// A press of the toggle key.
    ToggleKey,
}

/// One write through one mechanism.
#[derive(Debug, Clone, Copy, PartialEq, Eq, Structural)]
pub struct WriteStep {
    pub mechanism: WriteMechanism,
    /// The romaji bit is to be set first.
    pub romaji_first: bool,
    pub write: Write,
}

pub open spec fn mode_key(open: bool) -> u16 {
    if open {
        VK_IME_ON
    } else {
        VK_IME_OFF
    }
}

/// The write of a mechanism. A key that opens is spared where the IME was switched on through
/// Google Japanese Input already.
pub open spec fn step_of(mechanism: WriteMechanism, open: bool, view: ImeControlView) -> WriteStep {
    WriteStep {
        mechanism,
        romaji_first: needs_romaji(mechanism, open, view),
        write: match mechanism {
            WriteMechanism::ImmCross => Write::OpenStatus(open),
            WriteMechanism::GjiDirect => if open && view.control.shadow_on {
                Write::Nothing
            } else {
                Write::ModeKey(mode_key(open))
            },
            WriteMechanism::MsImeDirect => Write::ModeKey(mode_key(open)),
            WriteMechanism::KanjiToggle => Write::ToggleKey,
        },
    }
}

/// What to write to switch the IME through a mechanism.
#[must_use]
pub fn apply_mechanism(mechanism: WriteMechanism, open: bool, view: &ImeControlView) -> (r:
    WriteStep)
    ensures
        r == step_of(mechanism, open, *view),
{
    let key = if open {
        VK_IME_ON
    } else {
        VK_IME_OFF
    };
    let write = match mechanism {
        WriteMechanism::ImmCross => Write::OpenStatus(open),
        WriteMechanism::GjiDirect => {
            if open && view.control.shadow_on {
                Write::Nothing
            } else {
                Write::ModeKey(key)
            }
        },
        WriteMechanism::MsImeDirect => Write::ModeKey(key),
        WriteMechanism::KanjiToggle => Write::ToggleKey,
    };
    WriteStep { mechanism, romaji_first: needs_romaji_pre_write(mechanism, open, view), write }
}

/// The outcome of a write, given whether it came through.
pub open spec fn outcome_of(write: Write, sent: bool) -> ImeOpenOutcome {
    match write {
        Write::Nothing => ImeOpenOutcome::AlreadyMatched,
        Write::OpenStatus(_) => if sent {
            ImeOpenOutcome::Applied
        } else {
            ImeOpenOutcome::Failed
        },
        // A key that was not sent must not count as applied, or it would never be sent again.
        Write::ModeKey(_) => if sent {
            ImeOpenOutcome::Applied
        } else {
            ImeOpenOutcome::UnsafeToToggle
        },
        Write::ToggleKey => ImeOpenOutcome::FallbackSent,
    }
}

impl WriteStep {
    /// The outcome of the write, given whether it came through.
    #[must_use]
    pub fn outcome(&self, sent: bool) -> (r: ImeOpenOutcome)
        ensures
            r == outcome_of(self.write, sent),
    {
        match self.write {
            Write::Nothing => ImeOpenOutcome::AlreadyMatched,
            Write::OpenStatus(_) => {
                if sent {
                    ImeOpenOutcome::Applied
                } else {
                    ImeOpenOutcome::Failed
                }
            },
            Write::ModeKey(_) => {
                if sent {
                    ImeOpenOutcome::Applied
                } else {
                    ImeOpenOutcome::UnsafeToToggle
                }
            },
            Write::ToggleKey => ImeOpenOutcome::FallbackSent,
        }
    }
}

/// A walk along a chain of mechanisms.
#[derive(Debug)]
pub struct ChainRun {
    view: ImeControlView,
    open: bool,
    chain: Vec<WriteMechanism>,
    at: usize,
}

pub ghost struct RunView {
    pub view: ImeControlView,
    pub open: bool,
    /// Mechanisms that are still to be tried.
    pub rest: Seq<WriteMechanism>,
}

/// The applicable mechanisms of a chain, in order.
pub open spec fn usable(chain: Seq<WriteMechanism>, view: ImeControlView) -> Seq<WriteMechanism>
    decreases chain.len(),
{
    if chain.len() == 0 {
        Seq::empty()
    } else if applicable(chain.first(), view) {
        seq![chain.first()] + usable(chain.drop_first(), view)
    } else {
        usable(chain.drop_first(), view)
    }
}

impl View for ChainRun {
    type V = RunView;

    closed spec fn view(&self) -> RunView {
        RunView {
            view: self.view,
            open: self.open,
            rest: usable(self.chain@.skip(self.at as int), self.view),
        }
    }
}

impl ChainRun {
    pub closed spec fn wf(&self) -> bool {
        self.at <= self.chain@.len()
    }

    /// The next write to try: that of the next applicable mechanism. To be called for the first
    /// write, and again whenever a write has failed. Where there is none left, the switch as a
    /// whole has failed.
    pub fn next_write(&mut self) -> (step: Option<WriteStep>)
        requires
            old(self).wf(),
        ensures
            final(self).wf(),
            final(self)@.view == old(self)@.view,
            final(self)@.open == old(self)@.open,
            old(self)@.rest.len() == 0 ==> step is None && final(self)@.rest == old(self)@.rest,
            old(self)@.rest.len() > 0 ==> step == Some(
                step_of(old(self)@.rest.first(), old(self)@.open, old(self)@.view),
            ) && final(self)@.rest == old(self)@.rest.drop_first(),
    {
        let ghost rest = self@.rest;
        while self.at < self.chain.len()
            invariant
                self.at <= self.chain@.len(),
                self.view == old(self).view,
                self.open == old(self).open,
                rest == old(self)@.rest,
                usable(self.chain@.skip(self.at as int), self.view) == rest,
            decreases self.chain@.len() - self.at,
        {
            let mechanism = self.chain[self.at];
            assert(self.chain@.skip(self.at as int).drop_first() =~= self.chain@.skip(
                self.at + 1,
            ));
            assert(self.chain@.skip(self.at as int).first() == mechanism);
            self.at = self.at + 1;
            if mechanism_is_applicable(mechanism, &self.view) {
                assert(rest.drop_first() =~= usable(self.chain@.skip(self.at as int), self.view));
                return Some(apply_mechanism(mechanism, self.open, &self.view));
            }
        }
        None
    }

    /// Takes the outcome of a write. Only where it failed does the walk go on; otherwise the
    /// outcome is that of the switch.
    #[must_use]
    pub fn falls_through(outcome: ImeOpenOutcome) -> (r: bool)
        ensures
            r == (outcome is Failed),
    {
        matches!(outcome, ImeOpenOutcome::Failed)
    }
}

/// How a switch ends, given whether the write of each mechanism comes through: as the first write
/// that does not fail.
pub open spec fn run_outcome(
    rest: Seq<WriteMechanism>,
    open: bool,
    view: ImeControlView,
    sent: spec_fn(WriteMechanism) -> bool,
) -> ImeOpenOutcome
    decreases rest.len(),
{
    if rest.len() == 0 {
        ImeOpenOutcome::Failed
    } else {
        let outcome = outcome_of(step_of(rest.first(), open, view).write, sent(rest.first()));
        if outcome is Failed {
            run_outcome(rest.drop_first(), open, view, sent)
        } else {
            outcome
        }
    }
}

#[derive(Debug, Clone, Copy, PartialEq, Eq, Structural)]
pub struct ImeController;

impl ImeController {
    /// Starts to switch the IME.
    #[must_use]
    pub fn apply(open: bool, view: &ImeControlView) -> (run: ChainRun)
        ensures
            run.wf(),
            run@ == (RunView { view: *view, open, rest: usable(view_chain(*view), *view) }),
    {
        let run = ChainRun { view: *view, open, chain: caps_chain_for(view), at: 0 };
        assert(run.chain@.skip(0) =~= run.chain@);
        run
    }

    /// Whether a message to the window is what is tried first. That one is waited for, the others
    /// are not.
    #[must_use]
    pub fn imm_cross_is_first_applicable(view: &ImeControlView) -> (r: bool)
        ensures
            r == (view_chain(*view).first() is ImmCross && applicable(
                WriteMechanism::ImmCross,
                *view,
            )),
    {
        let chain = caps_chain_for(view);
        match chain[0] {
            WriteMechanism::ImmCross => mechanism_is_applicable(WriteMechanism::ImmCross, view),
            _ => false,
        }
    }

    /// The name of the first mechanism of all that is applicable.
    fn first_applicable_name(view: &ImeControlView) -> (r: &'static str)
        ensures
            r@ == first_label(0, *view),
    {
        first_name_from(0, view)
    }

    /// The same without the message to the window.
    fn first_applicable_name_skipping_imm(view: &ImeControlView) -> (r: &'static str)
        ensures
            r@ == first_label(1, *view),
    {
        first_name_from(1, view)
    }
}

/// The name of the first applicable mechanism from a place in the order on.
pub open spec fn first_label(from: int, view: ImeControlView) -> Seq<char> {
    let found = usable(all_mechanisms().skip(from), view);
    if found.len() > 0 {
        found.first().label()
    } else {
        "None"@
    }
}

fn first_name_from(from: usize, view: &ImeControlView) -> (r: &'static str)
    requires
        from <= 4,
    ensures
        r@ == first_label(from as int, *view),
{
    let all = WriteMechanism::all();
    let mut i: usize = from;
    while i < all.len()
        invariant
            all@ == all_mechanisms(),
            i <= all@.len(),
            usable(all@.skip(i as int), *view) == usable(all@.skip(from as int), *view),
        decreases all@.len() - i,
    {
        assert(all@.skip(i as int).drop_first() =~= all@.skip(i + 1));
        assert(all@.skip(i as int).first() == all@[i as int]);
        if mechanism_is_applicable(all[i], view) {
            return all[i].name();
        }
        i += 1;
    }
    "None"
}

/// A profile by its name.
pub open spec fn profile_named(name: Seq<char>) -> Option<AppImeProfile> {
    if name == "Standard"@ {
        Some(AppImeProfile::Standard)
    } else if name == "Imm32Unavailable"@ {
        Some(AppImeProfile::Imm32Unavailable)
    } else if name == "TsfNative"@ {
        Some(AppImeProfile::TsfNative)
    } else {
        None
    }
}

/// The view of a given window and IME about which nothing else is known.
pub open spec fn plain_view(profile: AppImeProfile, active_gji: bool) -> ImeControlView {
    ImeControlView {
        focus: FocusFacts { profile },
        observed: ObservedState {
            active_ime_kind: if active_gji {
                ActiveImeKind::GoogleJapaneseInput
            } else {
                ActiveImeKind::MicrosoftIme
            },
        },
        control: ControlLog { shadow_on: false },
        belief_input_mode: InputModeState::Unknown,
    }
}

/// Name of the mechanism that is chosen, with `skip_imm` that chosen once the message to the
/// window has failed.
#[must_use]
pub fn characterize_strategy(active_gji: bool, profile: &str, skip_imm: bool) -> (r: &'static str)
    requires
        profile_named(profile@) is Some,
    ensures
        r@ == first_label(
            if skip_imm {
                1
            } else {
                0
            },
            plain_view(profile_named(profile@)->0, active_gji),
        ),
{
    let profile = if text::same(profile, "Standard") {
        AppImeProfile::Standard
    } else if text::same(profile, "Imm32Unavailable") {
        AppImeProfile::Imm32Unavailable
    } else {
        AppImeProfile::TsfNative
    };
    let active_ime_kind = if active_gji {
        ActiveImeKind::GoogleJapaneseInput
    } else {
        ActiveImeKind::MicrosoftIme
    };
    let view = ImeControlView {
        focus: FocusFacts { profile },
        observed: ObservedState { active_ime_kind },
        control: ControlLog { shadow_on: false },
        belief_input_mode: InputModeState::Unknown,
    };
    if skip_imm {
        ImeController::first_applicable_name_skipping_imm(&view)
    } else {
        ImeController::first_applicable_name(&view)
    }
}

// ---- Laws ----

/// A chain cut behind the first mechanism that cannot fail: nothing behind it is ever reached.
pub open spec fn reached(chain: Seq<WriteMechanism>) -> Seq<WriteMechanism>
    decreases chain.len(),
{
    if chain.len() == 0 {
        Seq::empty()
    } else if chain.first() is ImmCross {
        seq![chain.first()] + reached(chain.drop_first())
    } else {
        seq![chain.first()]
    }
}

proof fn lemma_usable_of_all(view: ImeControlView)
    ensures
        usable(all_mechanisms(), view) =~= (if view.focus.profile is Standard {
            seq![WriteMechanism::ImmCross]
        } else {
            Seq::empty()
        }) + (if view.observed.active_ime_kind is GoogleJapaneseInput {
            seq![WriteMechanism::GjiDirect]
        } else if view.focus.profile is Standard {
            Seq::empty()
        } else {
            seq![WriteMechanism::MsImeDirect]
        }) + seq![WriteMechanism::KanjiToggle],
{
    let all = all_mechanisms();
    assert(all.drop_first() =~= seq![
        WriteMechanism::GjiDirect,
        WriteMechanism::MsImeDirect,
        WriteMechanism::KanjiToggle,
    ]);
    assert(all.drop_first().drop_first() =~= seq![
        WriteMechanism::MsImeDirect,
        WriteMechanism::KanjiToggle,
    ]);
    assert(all.drop_first().drop_first().drop_first() =~= seq![WriteMechanism::KanjiToggle]);
    assert(all.drop_first().drop_first().drop_first().drop_first() =~= Seq::empty());
    reveal_with_fuel(usable, 5);
}

proof fn lemma_usable_chain(view: ImeControlView)
    ensures
        usable(view_chain(view), view) == view_chain(view),
{
    let chain = view_chain(view);
    reveal_with_fuel(usable, 3);
    if chain.len() == 2 {
        assert(chain.drop_first() =~= seq![chain[1]]);
        assert(chain.drop_first().drop_first() =~= Seq::empty());
        assert(chain =~= seq![chain[0]] + (seq![chain[1]] + Seq::empty()));
    } else {
        assert(chain.drop_first() =~= Seq::empty());
        assert(chain =~= seq![chain[0]] + Seq::empty());
    }
}

/// For each window and IME, the chain holds exactly the mechanisms that a walk over all of them
/// could reach.
pub proof fn law_chain_is_what_can_be_reached(view: ImeControlView)
    ensures
        usable(view_chain(view), view) == reached(usable(all_mechanisms(), view)),
{
    lemma_usable_of_all(view);
    lemma_usable_chain(view);
    let u = usable(all_mechanisms(), view);
    reveal_with_fuel(reached, 3);
    if u.first() is ImmCross {
        assert(u.drop_first().first() == u[1]);
    }
    assert(reached(u) =~= view_chain(view));
}

/// Every mechanism of a chain is applicable.
pub proof fn law_chain_is_applicable(view: ImeControlView, i: int)
    requires
        0 <= i < view_chain(view).len(),
    ensures
        applicable(view_chain(view)[i], view),
{
}

/// Whether a message comes first is the same whether the chain or all mechanisms are asked.
pub proof fn law_message_comes_first_where_it_works(view: ImeControlView)
    ensures
        (view_chain(view).first() is ImmCross && applicable(WriteMechanism::ImmCross, view)) <==> (
        usable(all_mechanisms(), view).first() is ImmCross),
{
    lemma_usable_of_all(view);
}

/// A switch never fails as a whole: the last mechanism of each chain always has an outcome.
pub proof fn law_switch_has_an_outcome(
    view: ImeControlView,
    open: bool,
    sent: spec_fn(WriteMechanism) -> bool,
)
    ensures
        !(run_outcome(usable(view_chain(view), view), open, view, sent) is Failed),
{
    lemma_usable_chain(view);
    let chain = view_chain(view);
    reveal_with_fuel(run_outcome, 3);
    if chain.len() == 2 {
        assert(chain.drop_first() =~= seq![chain[1]]);
    }
}

/// The toggle key, which may do the wrong thing, is pressed in one case only: for a window that
/// messages reach, with Microsoft IME, once the message has failed.
pub proof fn law_toggle_is_the_last_resort(view: ImeControlView, i: int)
    requires
        0 <= i < view_chain(view).len(),
        view_chain(view)[i] is KanjiToggle,
    ensures
        view.focus.profile is Standard,
        view.observed.active_ime_kind is MicrosoftIme,
        i == 1,
        view_chain(view)[0] is ImmCross,
{
}

/// Kana input that the user has chosen is never overwritten, and nothing is set where the IME is
/// closed.
pub proof fn law_kana_input_is_kept(mechanism: WriteMechanism, open: bool, view: ImeControlView)
    requires
        view.belief_input_mode is ObservedKana || !open,
    ensures
        !step_of(mechanism, open, view).romaji_first,
{
}

} // verus!
