//! What the engine is told and what it decides.

use std::time::Duration;

use vstd::prelude::*;

use crate::config::{ConfirmMode, ParsedKeyCombo};
use crate::ngram::NgramModel;
use crate::types::{ContextChange, KeyAction, ModifierState, RawKeyEvent, Timestamp};
use crate::yab::YabLayout;

verus! {

/// What is known of the IME's input mode.
#[derive(Debug, Clone, Copy, PartialEq, Eq, Structural)]
pub enum InputModeState {
    ObservedRomaji,
    ObservedKana,
    Unknown,
}

impl InputModeState {
    pub open spec fn romaji_capable(self) -> bool {
        !(self is ObservedKana)
    }

    /// Romaji can be fed to the IME, as far as is known.
    #[must_use]
    pub fn is_romaji_capable(self) -> (r: bool)
        ensures
            r == self.romaji_capable(),
    {
        !matches!(self, InputModeState::ObservedKana)
    }
}

/// Snapshot of the environment, taken by the platform layer for each call.
#[derive(Debug, Clone, Copy, PartialEq, Eq, Structural)]
pub struct InputContext {
    pub ime_on: bool,
    pub input_mode: InputModeState,
    pub is_japanese_ime: bool,
    pub composing: bool,
    pub modifiers: ModifierState,
    pub left_thumb_down: Option<Timestamp>,
    pub right_thumb_down: Option<Timestamp>,
}

/// Why the engine is not active.
#[derive(Debug, Clone, Copy, PartialEq, Eq, Structural)]
pub enum InactiveReason {
    UserDisabled,
    NotJapaneseIme,
    ImeOff,
    NotRomajiInput,
}

#[derive(Debug, Clone, Copy, PartialEq, Eq, Structural)]
pub enum ActivationState {
    Active,
    Inactive(InactiveReason),
}

impl ActivationState {
    #[must_use]
    pub fn is_active(self) -> (r: bool)
        ensures
            r == (self is Active),
    {
        matches!(self, ActivationState::Active)
    }

    pub open spec fn context_change_spec(self) -> ContextChange {
        match self {
            ActivationState::Active => ContextChange::ImeOff,
            ActivationState::Inactive(InactiveReason::UserDisabled) => ContextChange::EngineDisabled,
            ActivationState::Inactive(
                InactiveReason::NotJapaneseIme,
            ) => ContextChange::InputLanguageChanged,
            ActivationState::Inactive(InactiveReason::ImeOff) => ContextChange::ImeOff,
            ActivationState::Inactive(
                InactiveReason::NotRomajiInput,
            ) => ContextChange::InputLanguageChanged,
        }
    }

    /// The change of context that leaving the active state for this one means.
    #[must_use]
    pub fn to_context_change(self) -> (r: ContextChange)
        ensures
            r == self.context_change_spec(),
    {
        match self {
            ActivationState::Active => ContextChange::ImeOff,
            ActivationState::Inactive(InactiveReason::UserDisabled) => ContextChange::EngineDisabled,
            ActivationState::Inactive(
                InactiveReason::NotJapaneseIme,
            ) => ContextChange::InputLanguageChanged,
            ActivationState::Inactive(InactiveReason::ImeOff) => ContextChange::ImeOff,
            ActivationState::Inactive(
                InactiveReason::NotRomajiInput,
            ) => ContextChange::InputLanguageChanged,
        }
    }
}

/// Who wants the IME opened or closed.
#[derive(Debug, Clone, Copy, PartialEq, Eq, Structural)]
pub enum SetOpenOrigin {
    /// The user asked for it with this very operation.
    ExplicitUserAction,
    /// The engine follows a change of its own activation.
    ActivationSync,
}

#[derive(Debug)]
pub enum InputEffect {
    SendKeys(Vec<KeyAction>),
    ReinjectKey(RawKeyEvent),
}

#[derive(Debug, Clone, Copy)]
pub enum TimerEffect {
    /// Start the timer, or restart it.
    Start { id: usize, duration: Duration },
    Kill(usize),
}

#[derive(Debug, Clone, Copy, PartialEq, Eq, Structural)]
pub enum ImeEffect {
    SetOpen { open: bool, origin: SetOpenOrigin },
}

#[derive(Debug, Clone, Copy, PartialEq, Eq, Structural)]
pub enum UiEffect {
    EngineStateChanged { enabled: bool, send_ime_key: bool },
}

/// A side effect for the platform layer to carry out.
#[derive(Debug)]
pub enum Effect {
    Input(InputEffect),
    Timer(TimerEffect),
    Ime(ImeEffect),
    Ui(UiEffect),
}

pub type EffectVec = Vec<Effect>;

/// An effect with the keys to send as a sequence.
pub ghost enum EffectView {
    SendKeys(Seq<KeyAction>),
    ReinjectKey(RawKeyEvent),
    Timer(TimerEffect),
    Ime(ImeEffect),
    Ui(UiEffect),
}

impl View for Effect {
    type V = EffectView;

    open spec fn view(&self) -> EffectView {
        match *self {
            Effect::Input(InputEffect::SendKeys(keys)) => EffectView::SendKeys(keys@),
            Effect::Input(InputEffect::ReinjectKey(ev)) => EffectView::ReinjectKey(ev),
            Effect::Timer(t) => EffectView::Timer(t),
            Effect::Ime(i) => EffectView::Ime(i),
            Effect::Ui(u) => EffectView::Ui(u),
        }
    }
}

/// Views of a list of effects.
pub open spec fn effect_views(effects: Seq<Effect>) -> Seq<EffectView> {
    effects.map_values(|e: Effect| e@)
}

/// What becomes of an event, and the effects that go with it.
#[derive(Debug)]
pub enum Decision {
    PassThrough,
    PassThroughWith { effects: EffectVec },
    Consume { effects: EffectVec },
}

#[verifier::ext_equal]
pub ghost enum DecisionView {
    PassThrough,
    PassThroughWith(Seq<EffectView>),
    Consume(Seq<EffectView>),
}

impl DecisionView {
    pub open spec fn is_consumed(self) -> bool {
        self is Consume
    }

    pub open spec fn effects(self) -> Seq<EffectView> {
        match self {
            DecisionView::PassThrough => Seq::empty(),
            DecisionView::PassThroughWith(e) => e,
            DecisionView::Consume(e) => e,
        }
    }

    /// Not consumed, with exactly these effects; the bare form where there are none.
    pub open spec fn passed(effects: Seq<EffectView>) -> DecisionView {
        if effects.len() == 0 {
            DecisionView::PassThrough
        } else {
            DecisionView::PassThroughWith(effects)
        }
    }

    /// The decision with further effects at its end.
    pub open spec fn and_effects(self, more: Seq<EffectView>) -> DecisionView {
        match self {
            DecisionView::PassThrough => DecisionView::passed(more),
            DecisionView::PassThroughWith(e) => DecisionView::PassThroughWith(e + more),
            DecisionView::Consume(e) => DecisionView::Consume(e + more),
        }
    }

    /// The decision with further effects at its front.
    pub open spec fn after_effects(self, first: Seq<EffectView>) -> DecisionView {
        match self {
            DecisionView::PassThrough => DecisionView::passed(first),
            DecisionView::PassThroughWith(e) => DecisionView::PassThroughWith(first + e),
            DecisionView::Consume(e) => DecisionView::Consume(first + e),
        }
    }
}

impl View for Decision {
    type V = DecisionView;

    open spec fn view(&self) -> DecisionView {
        match *self {
            Decision::PassThrough => DecisionView::PassThrough,
            Decision::PassThroughWith { effects } => DecisionView::PassThroughWith(
                effect_views(effects@),
            ),
            Decision::Consume { effects } => DecisionView::Consume(effect_views(effects@)),
        }
    }
}

/// Appends `more` to `effects`.
pub(crate) fn extend_effects(effects: &mut EffectVec, more: EffectVec)
    ensures
        effect_views(final(effects)@) == effect_views(old(effects)@) + effect_views(more@),
{
    let ghost tail = more@;
    let mut more = more;
    effects.append(&mut more);
    assert(effect_views(effects@) =~= effect_views(old(effects)@) + effect_views(tail));
}

/// Appends one effect.
pub(crate) fn push_effect_to(effects: &mut EffectVec, effect: Effect)
    ensures
        effect_views(final(effects)@) == effect_views(old(effects)@).push(effect@),
{
    effects.push(effect);
    assert(effect_views(effects@) =~= effect_views(old(effects)@).push(effect@));
}

impl Decision {
    #[must_use]
    pub fn pass_through() -> (d: Self)
        ensures
            d@ == DecisionView::PassThrough,
    {
        Decision::PassThrough
    }

    #[must_use]
    pub fn pass_through_with(effects: EffectVec) -> (d: Self)
        ensures
            d@ == DecisionView::PassThroughWith(effect_views(effects@)),
    {
        Decision::PassThroughWith { effects }
    }

    /// Not consumed, with exactly these effects; the bare form where there are none.
    #[must_use]
    pub fn passed(effects: EffectVec) -> (d: Self)
        ensures
            d@ == DecisionView::passed(effect_views(effects@)),
    {
        if effects.is_empty() {
            Decision::PassThrough
        } else {
            Decision::PassThroughWith { effects }
        }
    }

    #[must_use]
    pub fn consumed() -> (d: Self)
        ensures
            d@ == DecisionView::Consume(Seq::empty()),
    {
        let d = Decision::Consume { effects: Vec::new() };
        assert(d@->Consume_0 =~= Seq::empty());
        d
    }

    #[must_use]
    pub fn consumed_with(effects: EffectVec) -> (d: Self)
        ensures
            d@ == DecisionView::Consume(effect_views(effects@)),
    {
        Decision::Consume { effects }
    }

    #[must_use]
    pub fn is_consumed(&self) -> (r: bool)
        ensures
            r == self@.is_consumed(),
    {
        matches!(self, Decision::Consume { .. })
    }

    /// Adds effects at the end.
    #[must_use]
    pub fn with_effects(self, more: EffectVec) -> (d: Self)
        ensures
            d@ == self@.and_effects(effect_views(more@)),
    {
        match self {
            Decision::PassThrough => Self::passed(more),
            Decision::PassThroughWith { effects } => {
                let mut effects = effects;
                extend_effects(&mut effects, more);
                Decision::PassThroughWith { effects }
            },
            Decision::Consume { effects } => {
                let mut effects = effects;
                extend_effects(&mut effects, more);
                Decision::Consume { effects }
            },
        }
    }

    /// Adds one effect at the end.
    pub fn push_effect(&mut self, effect: Effect)
        ensures
            final(self)@ == old(self)@.and_effects(seq![effect@]),
    {
        let mut taken = Decision::PassThrough;
        std::mem::swap(self, &mut taken);
        let one = vec![effect];
        assert(effect_views(one@) =~= seq![effect@]);
        *self = taken.with_effects(one);
    }

    /// Adds effects at the front.
    pub fn prepend_effects(&mut self, first: EffectVec)
        ensures
            final(self)@ == old(self)@.after_effects(effect_views(first@)),
    {
        let mut taken = Decision::PassThrough;
        std::mem::swap(self, &mut taken);
        let mut front = first;
        *self = match taken {
            Decision::PassThrough => Self::passed(front),
            Decision::PassThroughWith { effects } => {
                extend_effects(&mut front, effects);
                Decision::PassThroughWith { effects: front }
            },
            Decision::Consume { effects } => {
                extend_effects(&mut front, effects);
                Decision::Consume { effects: front }
            },
        };
    }
}

/// Key combinations that control the engine and the IME.
#[derive(Debug)]
pub struct SpecialKeyCombos {
    pub engine_on: Vec<ParsedKeyCombo>,
    pub engine_off: Vec<ParsedKeyCombo>,
    pub ime_on: Vec<ParsedKeyCombo>,
    pub ime_off: Vec<ParsedKeyCombo>,
    pub ime_toggle: Vec<ParsedKeyCombo>,
}

/// A command from outside the key stream.
#[derive(Debug)]
pub enum EngineCommand {
    ToggleEngine,
    InvalidateContext(ContextChange),
    SwapLayout(YabLayout),
    ReloadKeys { special: SpecialKeyCombos },
    UpdateFsmParams { threshold_ms: u32, confirm_mode: ConfirmMode, speculative_delay_ms: u32 },
    SetNgramModel(NgramModel),
    RefreshState,
    FocusChanged,
    ForceEngineOn,
}

} // verus!
