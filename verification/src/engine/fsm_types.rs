//! Types of the simultaneous-stroke state machine.

use smallvec::SmallVec;
use timed_fsm::TimerCommand;
use vstd::prelude::*;
use vstd::string::*;

use crate::diagnostics;
use crate::engine::output_history::OutputEntry;
use crate::scanmap::PhysicalPos;
use crate::text;
use crate::timing;
use crate::types::{KeyAction, ModifierKey, ScanCode, Timestamp, VkCode};

pub use crate::types::ModifierState;

verus! {

/// Timer of the simultaneous-stroke decision.
pub const TIMER_PENDING: usize = 1;

/// Timer between the short wait and the speculative output.
pub const TIMER_SPECULATIVE: usize = 2;

/// Class of a key, decided once when its event arrives.
#[derive(Debug, Clone, Copy, PartialEq, Eq, Structural)]
pub enum KeyClass {
    /// A key that the layout converts.
    Char,
    LeftThumb,
    RightThumb,
    /// Modifiers, function keys, navigation and the like.
    Passthrough,
}

impl KeyClass {
    #[must_use]
    pub fn is_thumb(self) -> (r: bool)
        ensures
            r == (self is LeftThumb || self is RightThumb),
    {
        matches!(self, KeyClass::LeftThumb | KeyClass::RightThumb)
    }

    #[must_use]
    pub fn is_left_thumb(self) -> (r: bool)
        ensures
            r == (self is LeftThumb),
    {
        matches!(self, KeyClass::LeftThumb)
    }
}

/// A key event with its class and physical position.
#[derive(Debug, Clone, Copy, PartialEq, Eq, Structural)]
pub struct ClassifiedEvent {
    pub key_class: KeyClass,
    /// Physical position; set for character keys only.
    pub pos: Option<PhysicalPos>,
    pub scan_code: ScanCode,
    pub vk_code: VkCode,
    pub timestamp: Timestamp,
    /// The key controls the IME.
    pub is_ime_control: bool,
    /// The key is one of the OS modifiers.
    pub modifier_key: Option<ModifierKey>,
}

impl ClassifiedEvent {
    /// Stands for the event where a timer, not a key, drives the machine.
    #[must_use]
    pub fn dummy() -> (ev: Self)
        ensures
            ev == (ClassifiedEvent {
                key_class: KeyClass::Passthrough,
                pos: None,
                scan_code: ScanCode(0),
                vk_code: VkCode(0),
                timestamp: 0,
                is_ime_control: false,
                modifier_key: None,
            }),
    {
        ClassifiedEvent {
            key_class: KeyClass::Passthrough,
            pos: None,
            scan_code: ScanCode(0),
            vk_code: VkCode(0),
            timestamp: 0,
            is_ime_control: false,
            modifier_key: None,
        }
    }
}

/// A face of the layout.
#[derive(Debug, Clone, Copy, PartialEq, Eq, Structural)]
pub enum Face {
    Normal,
    LeftThumb,
    RightThumb,
    Shift,
    LeftThumbShift,
    RightThumbShift,
}

#[derive(Debug, Clone, Copy, PartialEq, Eq, Structural)]
pub enum ThumbSide {
    Left,
    Right,
}

impl Face {
    pub open spec fn resolve_spec(thumb: Option<ThumbSide>, shift_held: bool) -> Face {
        match (thumb, shift_held) {
            (None, false) => Face::Normal,
            (None, true) => Face::Shift,
            (Some(ThumbSide::Left), false) => Face::LeftThumb,
            (Some(ThumbSide::Left), true) => Face::LeftThumbShift,
            (Some(ThumbSide::Right), false) => Face::RightThumb,
            (Some(ThumbSide::Right), true) => Face::RightThumbShift,
        }
    }

    pub open spec fn thumb_side_spec(self) -> Option<ThumbSide> {
        match self {
            Face::LeftThumb | Face::LeftThumbShift => Some(ThumbSide::Left),
            Face::RightThumb | Face::RightThumbShift => Some(ThumbSide::Right),
            Face::Normal | Face::Shift => None,
        }
    }

    /// Face of a thumb key; the normal face for any other key.
    #[must_use]
    pub fn from_thumb(key_class: KeyClass) -> (face: Self)
        ensures
            face == (match key_class {
                KeyClass::LeftThumb => Face::LeftThumb,
                KeyClass::RightThumb => Face::RightThumb,
                _ => Face::Normal,
            }),
    {
        match key_class {
            KeyClass::LeftThumb => Self::resolve(Some(ThumbSide::Left), false),
            KeyClass::RightThumb => Self::resolve(Some(ThumbSide::Right), false),
            _ => Face::Normal,
        }
    }

    #[must_use]
    pub fn from_thumb_bool(is_left: bool) -> (face: Self)
        ensures
            face == (if is_left {
                Face::LeftThumb
            } else {
                Face::RightThumb
            }),
    {
        if is_left {
            Self::resolve(Some(ThumbSide::Left), false)
        } else {
            Self::resolve(Some(ThumbSide::Right), false)
        }
    }

    /// Thumb key that the face uses up, if it is a thumb face.
    #[must_use]
    pub fn thumb_side(self) -> (side: Option<ThumbSide>)
        ensures
            side == self.thumb_side_spec(),
    {
        match self {
            Face::LeftThumb | Face::LeftThumbShift => Some(ThumbSide::Left),
            Face::RightThumb | Face::RightThumbShift => Some(ThumbSide::Right),
            Face::Normal | Face::Shift => None,
        }
    }

    /// The face of a held thumb key and the little-finger shift.
    #[must_use]
    pub fn resolve(thumb: Option<ThumbSide>, shift_held: bool) -> (face: Self)
        ensures
            face == Face::resolve_spec(thumb, shift_held),
    {
        match (thumb, shift_held) {
            (None, false) => Face::Normal,
            (None, true) => Face::Shift,
            (Some(ThumbSide::Left), false) => Face::LeftThumb,
            (Some(ThumbSide::Left), true) => Face::LeftThumbShift,
            (Some(ThumbSide::Right), false) => Face::RightThumb,
            (Some(ThumbSide::Right), true) => Face::RightThumbShift,
        }
    }
}

/// A face keeps the thumb key it was resolved from, and no two combinations of a thumb key
/// and the shift level share a face.
pub proof fn law_faces_are_distinct(
    thumb: Option<ThumbSide>,
    shift: bool,
    thumb2: Option<ThumbSide>,
    shift2: bool,
)
    ensures
        Face::resolve_spec(thumb, shift).thumb_side_spec() == thumb,
        Face::resolve_spec(thumb, shift) == Face::resolve_spec(thumb2, shift2) ==> thumb == thumb2
            && shift == shift2,
{
}

/// A short list of actions, kept inline for up to two.
#[derive(Debug)]
#[verifier::external_body]
pub struct ActionVec {
    items: SmallVec<[KeyAction; 2]>,
}

/// The actions that a list holds, in order.
pub uninterp spec fn action_items(v: ActionVec) -> Seq<KeyAction>;

/// `SmallVec::new` makes a list that holds nothing.
#[verifier::external_body]
fn smallvec_new() -> (v: ActionVec)
    ensures
        action_items(v) == Seq::<KeyAction>::empty(),
{
    ActionVec { items: SmallVec::new() }
}

/// `SmallVec::push` appends one item.
#[verifier::external_body]
fn smallvec_push(v: &mut ActionVec, action: KeyAction)
    ensures
        action_items(*final(v)) == action_items(*old(v)).push(action),
{
    v.items.push(action);
}

/// `SmallVec::len` counts the items.
#[verifier::external_body]
fn smallvec_len(v: &ActionVec) -> (n: usize)
    ensures
        n == action_items(*v).len(),
{
    v.items.len()
}

/// `SmallVec::into_vec` moves the items, in order, to a `Vec`.
#[verifier::external_body]
fn smallvec_into_vec(v: ActionVec) -> (r: Vec<KeyAction>)
    ensures
        r@ == action_items(v),
{
    v.items.into_vec()
}

impl View for ActionVec {
    type V = Seq<KeyAction>;

    open spec fn view(&self) -> Seq<KeyAction> {
        action_items(*self)
    }
}

impl ActionVec {
    #[must_use]
    pub fn new() -> (v: Self)
        ensures
            v@ == Seq::<KeyAction>::empty(),
    {
        smallvec_new()
    }

    pub fn push(&mut self, action: KeyAction)
        ensures
            final(self)@ == old(self)@.push(action),
    {
        smallvec_push(self, action);
    }

    #[must_use]
    pub fn len(&self) -> (n: usize)
        ensures
            n == self@.len(),
    {
        smallvec_len(self)
    }

    #[must_use]
    pub fn is_empty(&self) -> (r: bool)
        ensures
            r == (self@.len() == 0),
    {
        smallvec_len(self) == 0
    }

    #[must_use]
    pub fn into_vec(self) -> (r: Vec<KeyAction>)
        ensures
            r@ == self@,
    {
        smallvec_into_vec(self)
    }
}

/// Actions to send and what to note of them.
#[derive(Debug)]
pub struct ResolvedAction {
    pub actions: ActionVec,
    pub output: OutputUpdate,
}

impl ResolvedAction {
    /// The step that sends these actions and goes on with `remaining`.
    #[must_use]
    pub fn into_reduce_and_continue(self, remaining: ClassifiedEvent) -> (r: ParseAction)
        ensures
            r == (ParseAction::ReduceAndContinue {
                actions: self.actions,
                record: self.output,
                remaining,
            }),
    {
        ParseAction::ReduceAndContinue { actions: self.actions, record: self.output, remaining }
    }
}

/// One step of the machine.
#[derive(Debug)]
pub enum ParseAction {
    /// Keep the token and wait for more.
    Shift { timer: TimerIntent },
    /// A pattern is complete.
    Reduce { actions: ActionVec, record: OutputUpdate, timer: TimerIntent },
    /// A part of a pattern is complete; the remaining token is looked at again.
    ReduceAndContinue { actions: ActionVec, record: OutputUpdate, remaining: ClassifiedEvent },
    /// The token is not for this machine.
    PassThrough { timer: TimerIntent },
}

/// What to do with the timers.
#[derive(Debug, Clone, Copy, PartialEq, Eq, Structural)]
pub enum TimerIntent {
    /// Stop both timers.
    CancelAll,
    /// Start `TIMER_PENDING` for the threshold.
    Pending,
    /// Start `TIMER_SPECULATIVE` for the speculative delay.
    SpeculativeWait,
    /// Stop `TIMER_SPECULATIVE` and start `TIMER_PENDING` for the time that is left.
    Phase2Transition { remaining_us: u64 },
    /// Leave the timers alone.
    Keep,
}

impl TimerIntent {
    pub open spec fn commands_spec(
        self,
        threshold_us: u64,
        speculative_delay_us: u64,
    ) -> Seq<TimerCommand<usize>> {
        let kill_pending = TimerCommand::Kill { id: TIMER_PENDING };
        let kill_speculative = TimerCommand::Kill { id: TIMER_SPECULATIVE };
        match self {
            TimerIntent::CancelAll => seq![kill_pending, kill_speculative],
            TimerIntent::Pending => seq![
                kill_pending,
                kill_speculative,
                TimerCommand::Set { id: TIMER_PENDING, duration: timing::micros(threshold_us) },
            ],
            TimerIntent::SpeculativeWait => seq![
                kill_pending,
                kill_speculative,
                TimerCommand::Set {
                    id: TIMER_SPECULATIVE,
                    duration: timing::micros(speculative_delay_us),
                },
            ],
            TimerIntent::Phase2Transition { remaining_us } => seq![
                kill_speculative,
                TimerCommand::Set { id: TIMER_PENDING, duration: timing::micros(remaining_us) },
            ],
            TimerIntent::Keep => seq![],
        }
    }

    /// The timer commands of this intent, in the order in which they are to run.
    #[must_use]
    pub fn to_commands(self, threshold_us: u64, speculative_delay_us: u64) -> (cmds: Vec<
        TimerCommand<usize>,
    >)
        ensures
            cmds@ == self.commands_spec(threshold_us, speculative_delay_us),
    {
        match self {
            TimerIntent::CancelAll => vec![
                TimerCommand::Kill { id: TIMER_PENDING },
                TimerCommand::Kill { id: TIMER_SPECULATIVE },
            ],
            TimerIntent::Pending => vec![
                TimerCommand::Kill { id: TIMER_PENDING },
                TimerCommand::Kill { id: TIMER_SPECULATIVE },
                TimerCommand::Set {
                    id: TIMER_PENDING,
                    duration: timing::duration_from_micros(threshold_us),
                },
            ],
            TimerIntent::SpeculativeWait => vec![
                TimerCommand::Kill { id: TIMER_PENDING },
                TimerCommand::Kill { id: TIMER_SPECULATIVE },
                TimerCommand::Set {
                    id: TIMER_SPECULATIVE,
                    duration: timing::duration_from_micros(speculative_delay_us),
                },
            ],
            TimerIntent::Phase2Transition { remaining_us } => vec![
                TimerCommand::Kill { id: TIMER_SPECULATIVE },
                TimerCommand::Set {
                    id: TIMER_PENDING,
                    duration: timing::duration_from_micros(remaining_us),
                },
            ],
            TimerIntent::Keep => vec![],
        }
    }
}

/// The command starts the timer `id`.
pub open spec fn starts(command: TimerCommand<usize>, id: usize) -> bool {
    match command {
        TimerCommand::Set { id: i, duration: _ } => i == id,
        TimerCommand::Kill { id: _ } => false,
    }
}

/// The command stops the timer `id`.
pub open spec fn stops(command: TimerCommand<usize>, id: usize) -> bool {
    match command {
        TimerCommand::Set { id: _, duration: _ } => false,
        TimerCommand::Kill { id: i } => i == id,
    }
}

pub open spec fn other_timer(id: usize) -> usize {
    if id == TIMER_PENDING {
        TIMER_SPECULATIVE
    } else {
        TIMER_PENDING
    }
}

/// A timer is started by the last command of an intent, after one that stops the other
/// timer: the two never run at once.
pub proof fn law_one_timer_runs(
    intent: TimerIntent,
    threshold_us: u64,
    delay_us: u64,
    i: int,
    id: usize,
)
    requires
        0 <= i < intent.commands_spec(threshold_us, delay_us).len(),
        starts(intent.commands_spec(threshold_us, delay_us)[i], id),
    ensures
        ({
            let cmds = intent.commands_spec(threshold_us, delay_us);
            &&& i == cmds.len() - 1
            &&& id == TIMER_PENDING || id == TIMER_SPECULATIVE
            &&& exists|j: int| 0 <= j < i && #[trigger] stops(cmds[j], other_timer(id))
        }),
{
    let cmds = intent.commands_spec(threshold_us, delay_us);
    assert(intent is SpeculativeWait ==> stops(cmds[0], other_timer(id)));
    assert(intent is Phase2Transition ==> stops(cmds[0], other_timer(id)));
    assert(intent is Pending ==> stops(cmds[1], other_timer(id)));
}

/// What a key that arrives in the idle state is meant for.
#[derive(Debug, Clone, Copy, PartialEq, Eq, Structural)]
pub enum IdleIntent {
    /// The little-finger shift is held: decide at once on the shift face.
    ShiftPlane,
    /// An unused thumb key is held: decide at once on its face.
    ActiveThumb(Face),
    /// The layout does not hold the key.
    PassThrough,
    /// The confirm mode decides.
    ConfirmMode,
}

/// How far a `composing` flag can be trusted when a pending key is flushed.
#[derive(Debug, Clone, Copy, PartialEq, Eq, Structural)]
pub enum ComposingHint {
    /// The flag belongs to the context the pending key was typed in.
    Trusted(bool),
    /// The context has changed: suppress unconditionally.
    Unknown,
}

/// What to note of an output.
#[derive(Debug)]
pub enum OutputUpdate {
    Record(OutputEntry),
    /// Take the last output back and note this one instead.
    RetractAndRecord(OutputEntry),
    /// Nothing to note.
    Unchanged,
}

impl Clone for OutputUpdate {
    fn clone(&self) -> (r: Self)
        ensures
            r == *self,
    {
        match self {
            OutputUpdate::Record(e) => OutputUpdate::Record(e.clone()),
            OutputUpdate::RetractAndRecord(e) => OutputUpdate::RetractAndRecord(e.clone()),
            OutputUpdate::Unchanged => OutputUpdate::Unchanged,
        }
    }
}

impl OutputUpdate {
    /// A record of `action`, with the romaji that the action carries.
    #[must_use]
    pub fn record(scan_code: ScanCode, action: &KeyAction, kana: Option<char>) -> (r: Self)
        ensures
            r matches OutputUpdate::Record(entry) && entry.scan_code == scan_code
                && entry.romaji@ == action.romaji_spec() && entry.kana == kana && entry.action
                == *action,
    {
        OutputUpdate::Record(
            OutputEntry {
                scan_code,
                romaji: action.romaji().to_owned(),
                kana,
                action: action.clone(),
            },
        )
    }
}

/// Why a key does not reach the machine.
#[derive(Debug, Clone, Copy, PartialEq, Eq, Structural)]
pub enum BypassReason {
    /// Not a key that the layout converts.
    Passthrough,
    /// A key that controls the IME.
    ImeControl,
    /// Ctrl, Alt or the OS key is held.
    OsModifierHeld,
}

/// State of the machine.
#[derive(Debug, Clone, Copy, PartialEq, Eq, Structural)]
pub enum EngineState {
    Idle,
    PendingChar(PendingKey),
    PendingThumb(PendingThumbData),
    /// A character key, then a thumb key: a third key may still come.
    PendingCharThumb {
        char_key: PendingKey,
        thumb: PendingThumbData,
        /// When the character key was released; `None` while it is held.
        char1_released_at: Option<Timestamp>,
    },
    /// The normal face was sent and may be replaced by a simultaneous stroke.
    SpeculativeChar(PendingKey),
}

impl EngineState {
    /// The label of the state. Key codes appear only where `detailed` is set.
    pub open spec fn label(self, detailed: bool) -> Seq<char> {
        match self {
            EngineState::Idle => "Idle"@,
            EngineState::PendingChar(k) => if detailed {
                "PendingChar(vk="@ + text::hex_code(k.vk_code.0 as nat) + ")"@
            } else {
                "PendingChar"@
            },
            EngineState::PendingThumb(t) => if detailed {
                "PendingThumb(vk="@ + text::hex_code(t.vk_code.0 as nat) + ",left="@
                    + text::bool_text(t.is_left) + ")"@
            } else {
                "PendingThumb(left="@ + text::bool_text(t.is_left) + ")"@
            },
            EngineState::PendingCharThumb { char_key, thumb, char1_released_at } => if detailed {
                "PendingCharThumb(char="@ + text::hex_code(char_key.vk_code.0 as nat) + ",thumb="@
                    + text::hex_code(thumb.vk_code.0 as nat) + ",left="@ + text::bool_text(
                    thumb.is_left,
                ) + ",released_at="@ + text::optional_decimal(char1_released_at) + ")"@
            } else {
                "PendingCharThumb(left="@ + text::bool_text(thumb.is_left) + ",released="@
                    + text::bool_text(char1_released_at is Some) + ")"@
            },
            EngineState::SpeculativeChar(k) => if detailed {
                "SpeculativeChar(vk="@ + text::hex_code(k.vk_code.0 as nat) + ")"@
            } else {
                "SpeculativeChar"@
            },
        }
    }

    #[must_use]
    pub fn is_idle(&self) -> (r: bool)
        ensures
            r == (self is Idle),
    {
        matches!(self, EngineState::Idle)
    }

    /// Label for diagnostic logs. Key codes appear only where `key_content`, the value of
    /// [`diagnostics::KEY_CONTENT_ENV`], opts in.
    #[must_use]
    pub fn debug_label(&self, key_content: Option<&str>) -> (r: String)
        ensures
            r@ == self.label(diagnostics::opted_in(diagnostics::str_option_view(key_content))),
    {
        self.debug_label_with(diagnostics::key_content_value_enabled(key_content))
    }

    /// Label with the opt-in already decided.
    #[must_use]
    pub fn debug_label_with(&self, detailed: bool) -> (r: String)
        ensures
            r@ == self.label(detailed),
    {
        let mut out = String::new();
        match self {
            EngineState::Idle => {
                out.append("Idle");
            },
            EngineState::PendingChar(k) => {
                if detailed {
                    out.append("PendingChar(vk=");
                    text::push_hex_code(&mut out, k.vk_code.0);
                    out.append(")");
                } else {
                    out.append("PendingChar");
                }
            },
            EngineState::PendingThumb(t) => {
                if detailed {
                    out.append("PendingThumb(vk=");
                    text::push_hex_code(&mut out, t.vk_code.0);
                    out.append(",left=");
                    text::push_bool(&mut out, t.is_left);
                    out.append(")");
                } else {
                    out.append("PendingThumb(left=");
                    text::push_bool(&mut out, t.is_left);
                    out.append(")");
                }
            },
            EngineState::PendingCharThumb { char_key, thumb, char1_released_at } => {
                if detailed {
                    out.append("PendingCharThumb(char=");
                    text::push_hex_code(&mut out, char_key.vk_code.0);
                    out.append(",thumb=");
                    text::push_hex_code(&mut out, thumb.vk_code.0);
                    out.append(",left=");
                    text::push_bool(&mut out, thumb.is_left);
                    out.append(",released_at=");
                    text::push_optional_decimal(&mut out, *char1_released_at);
                    out.append(")");
                } else {
                    out.append("PendingCharThumb(left=");
                    text::push_bool(&mut out, thumb.is_left);
                    out.append(",released=");
                    text::push_bool(&mut out, char1_released_at.is_some());
                    out.append(")");
                }
            },
            EngineState::SpeculativeChar(k) => {
                if detailed {
                    out.append("SpeculativeChar(vk=");
                    text::push_hex_code(&mut out, k.vk_code.0);
                    out.append(")");
                } else {
                    out.append("SpeculativeChar");
                }
            },
        }
        assert(out@ =~= self.label(detailed));
        out
    }

    #[must_use]
    pub fn expect_pending_char(self) -> (k: PendingKey)
        requires
            self is PendingChar,
        ensures
            self == EngineState::PendingChar(k),
    {
        match self {
            EngineState::PendingChar(k) => k,
            _ => {
                assert(false);
                vstd::pervasive::unreached()
            },
        }
    }

    #[must_use]
    pub fn expect_pending_thumb(self) -> (t: PendingThumbData)
        requires
            self is PendingThumb,
        ensures
            self == EngineState::PendingThumb(t),
    {
        match self {
            EngineState::PendingThumb(t) => t,
            _ => {
                assert(false);
                vstd::pervasive::unreached()
            },
        }
    }

    #[must_use]
    pub fn expect_speculative_char(self) -> (k: PendingKey)
        requires
            self is SpeculativeChar,
        ensures
            self == EngineState::SpeculativeChar(k),
    {
        match self {
            EngineState::SpeculativeChar(k) => k,
            _ => {
                assert(false);
                vstd::pervasive::unreached()
            },
        }
    }

    #[must_use]
    pub fn expect_pending_char_thumb(self) -> (r: (PendingKey, PendingThumbData, Option<Timestamp>))
        requires
            self is PendingCharThumb,
        ensures
            self == (EngineState::PendingCharThumb {
                char_key: r.0,
                thumb: r.1,
                char1_released_at: r.2,
            }),
    {
        match self {
            EngineState::PendingCharThumb { char_key, thumb, char1_released_at } => (
                char_key,
                thumb,
                char1_released_at,
            ),
            _ => {
                assert(false);
                vstd::pervasive::unreached()
            },
        }
    }
}

/// Without the opt-in the label tells the shape of the state and nothing of the keys: states
/// that differ only in codes, positions and times read the same.
pub proof fn law_default_label_hides_keys(a: EngineState, b: EngineState)
    requires
        match (a, b) {
            (EngineState::Idle, EngineState::Idle) => true,
            (EngineState::PendingChar(_), EngineState::PendingChar(_)) => true,
            (EngineState::PendingThumb(t), EngineState::PendingThumb(u)) => t.is_left == u.is_left,
            (
                EngineState::PendingCharThumb { thumb: t, char1_released_at: r, .. },
                EngineState::PendingCharThumb { thumb: u, char1_released_at: q, .. },
            ) => t.is_left == u.is_left && r is Some == q is Some,
            (EngineState::SpeculativeChar(_), EngineState::SpeculativeChar(_)) => true,
            _ => false,
        },
    ensures
        a.label(false) == b.label(false),
{
}

/// A label with detail tells the codes of the keys that wait, and which thumb key it is.
pub proof fn law_detailed_labels_tell_the_keys(k: PendingKey, t: PendingThumbData)
    ensures
        EngineState::Idle.label(true) == "Idle"@,
        EngineState::PendingChar(k).label(true) == "PendingChar(vk="@ + text::hex_code(
            k.vk_code.0 as nat,
        ) + ")"@,
        EngineState::SpeculativeChar(k).label(true) == "SpeculativeChar(vk="@ + text::hex_code(
            k.vk_code.0 as nat,
        ) + ")"@,
        EngineState::PendingThumb(t).label(true) == "PendingThumb(vk="@ + text::hex_code(
            t.vk_code.0 as nat,
        ) + ",left="@ + (if t.is_left {
            "true"@
        } else {
            "false"@
        }) + ")"@,
{
}

/// A character key that waits.
#[derive(Debug, Clone, Copy, PartialEq, Eq, Structural)]
pub struct PendingKey {
    pub scan_code: ScanCode,
    pub vk_code: VkCode,
    pub pos: Option<PhysicalPos>,
    pub timestamp: Timestamp,
}

impl PendingKey {
    pub open spec fn from_event_spec(ev: ClassifiedEvent) -> PendingKey {
        PendingKey {
            scan_code: ev.scan_code,
            vk_code: ev.vk_code,
            pos: ev.pos,
            timestamp: ev.timestamp,
        }
    }

    #[must_use]
    pub fn from_event(ev: &ClassifiedEvent) -> (k: Self)
        ensures
            k == PendingKey::from_event_spec(*ev),
    {
        PendingKey {
            scan_code: ev.scan_code,
            vk_code: ev.vk_code,
            pos: ev.pos,
            timestamp: ev.timestamp,
        }
    }
}

/// A thumb key that waits.
#[derive(Debug, Clone, Copy, PartialEq, Eq, Structural)]
pub struct PendingThumbData {
    pub scan_code: ScanCode,
    pub vk_code: VkCode,
    pub is_left: bool,
    pub timestamp: Timestamp,
    /// The OS modifier that the thumb key is assigned to, if any.
    pub modifier_key: Option<ModifierKey>,
}

impl PendingThumbData {
    pub open spec fn from_event_spec(ev: ClassifiedEvent) -> PendingThumbData {
        PendingThumbData {
            scan_code: ev.scan_code,
            vk_code: ev.vk_code,
            is_left: ev.key_class is LeftThumb,
            timestamp: ev.timestamp,
            modifier_key: ev.modifier_key,
        }
    }

    #[must_use]
    pub fn from_event(ev: &ClassifiedEvent) -> (t: Self)
        ensures
            t == PendingThumbData::from_event_spec(*ev),
    {
        PendingThumbData {
            scan_code: ev.scan_code,
            vk_code: ev.vk_code,
            is_left: ev.key_class.is_left_thumb(),
            timestamp: ev.timestamp,
            modifier_key: ev.modifier_key,
        }
    }

    pub open spec fn side_spec(self) -> ThumbSide {
        if self.is_left {
            ThumbSide::Left
        } else {
            ThumbSide::Right
        }
    }

    /// The face of this thumb key.
    #[must_use]
    pub fn face(self) -> (face: Face)
        ensures
            face == Face::resolve_spec(Some(self.side_spec()), false),
    {
        Face::from_thumb_bool(self.is_left)
    }

    #[must_use]
    pub fn side(self) -> (side: ThumbSide)
        ensures
            side == self.side_spec(),
    {
        if self.is_left {
            ThumbSide::Left
        } else {
            ThumbSide::Right
        }
    }
}

/// What a tap of the muhenkan or henkan key alone does.
#[derive(Debug, Clone, Copy, PartialEq, Eq, Structural)]
pub enum GuardAction {
    /// Nothing is sent.
    Suppress,
    /// The raw key is sent.
    Passthrough,
}

impl Default for GuardAction {
    fn default() -> (r: Self)
        ensures
            r == GuardAction::Suppress,
    {
        GuardAction::Suppress
    }
}

/// Action of a tap alone, for either state of the composition.
#[derive(Debug, Clone, Copy, PartialEq, Eq, Structural)]
pub struct ModeKeyConfig {
    /// Action while nothing is being composed.
    pub idle: GuardAction,
    /// Action during a composition.
    pub composing: GuardAction,
}

impl ModeKeyConfig {
    pub open spec fn for_composing_spec(self, composing: bool) -> GuardAction {
        if composing {
            self.composing
        } else {
            self.idle
        }
    }

    /// Builds the table from the two configuration flags. `always_suppress` comes first;
    /// without it an idle tap goes through, and a composing one does where
    /// `ignore_composing_guard` is set.
    #[must_use]
    pub fn from_legacy_bools(ignore_composing_guard: bool, always_suppress: bool) -> (r: Self)
        ensures
            forall|composing: bool| #[trigger]
                r.for_composing_spec(composing) == (if !always_suppress && (!composing
                    || ignore_composing_guard) {
                    GuardAction::Passthrough
                } else {
                    GuardAction::Suppress
                }),
            r.idle == r.for_composing_spec(false),
            r.composing == r.for_composing_spec(true),
    {
        if always_suppress {
            ModeKeyConfig { idle: GuardAction::Suppress, composing: GuardAction::Suppress }
        } else if ignore_composing_guard {
            ModeKeyConfig { idle: GuardAction::Passthrough, composing: GuardAction::Passthrough }
        } else {
            ModeKeyConfig { idle: GuardAction::Passthrough, composing: GuardAction::Suppress }
        }
    }

    /// The action for the given state of the composition.
    #[must_use]
    pub fn for_composing(self, composing: bool) -> (r: GuardAction)
        ensures
            r == self.for_composing_spec(composing),
    {
        if composing {
            self.composing
        } else {
            self.idle
        }
    }

    /// An idle tap alone goes through.
    #[must_use]
    pub fn is_passthrough(self) -> (r: bool)
        ensures
            r == (self.idle is Passthrough),
    {
        matches!(self.idle, GuardAction::Passthrough)
    }
}

/// What finally happens on a tap alone.
#[derive(Debug, Clone, Copy, PartialEq, Eq, Structural)]
pub enum SoloTapAction {
    Suppress,
    Passthrough,
    /// A function key is sent in place of the tapped key.
    DedicatedFnKey(VkCode),
}

impl From<GuardAction> for SoloTapAction {
    fn from(action: GuardAction) -> (r: Self) {
        match action {
            GuardAction::Suppress => SoloTapAction::Suppress,
            GuardAction::Passthrough => SoloTapAction::Passthrough,
        }
    }
}

impl vstd::std_specs::convert::FromSpecImpl<GuardAction> for SoloTapAction {
    open spec fn obeys_from_spec() -> bool {
        true
    }

    open spec fn from_spec(action: GuardAction) -> SoloTapAction {
        match action {
            GuardAction::Suppress => SoloTapAction::Suppress,
            GuardAction::Passthrough => SoloTapAction::Passthrough,
        }
    }
}

/// Settings of a thumb key that also types text (space, enter).
#[derive(Debug, Clone, Copy, PartialEq, Eq, Structural)]
pub struct TextKeyConfig {
    /// Send the raw key during a composition too.
    pub ignore_composing_guard: bool,
    /// With shift held, send the raw key at once.
    pub shift_literal: bool,
}

} // verus!
