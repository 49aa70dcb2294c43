//! Which modifier and thumb keys are physically held, and whether a composition goes on.

use vstd::prelude::*;

use crate::engine::decision::InputContext;
use crate::types::{KeyClassification, KeyEventType, ModifierState, RawKeyEvent, Timestamp};

verus! {

/// Snapshot of the held modifier and thumb keys at an event.
#[derive(Debug, Clone, Copy, PartialEq, Eq, Structural)]
pub struct PhysicalKeyState {
    pub modifiers: ModifierState,
    /// When the left thumb key went down, while it is held.
    pub left_thumb_down: Option<Timestamp>,
    pub right_thumb_down: Option<Timestamp>,
    /// The IME is composing.
    pub composing: bool,
}

impl PhysicalKeyState {
    pub open spec fn empty_spec() -> PhysicalKeyState {
        PhysicalKeyState {
            modifiers: ModifierState { ctrl: false, alt: false, shift: false, win: false },
            left_thumb_down: None,
            right_thumb_down: None,
            composing: false,
        }
    }

    pub open spec fn of_context(ctx: InputContext) -> PhysicalKeyState {
        PhysicalKeyState {
            modifiers: ctx.modifiers,
            left_thumb_down: ctx.left_thumb_down,
            right_thumb_down: ctx.right_thumb_down,
            composing: ctx.composing,
        }
    }

    /// Nothing is held.
    #[must_use]
    pub fn empty() -> (r: Self)
        ensures
            r == PhysicalKeyState::empty_spec(),
    {
        PhysicalKeyState {
            modifiers: ModifierState::default(),
            left_thumb_down: None,
            right_thumb_down: None,
            composing: false,
        }
    }

    /// The keys that the context reports. The platform layer has already entered the event
    /// that the context was made for.
    #[must_use]
    pub fn from_ctx(ctx: &InputContext) -> (r: Self)
        ensures
            r == PhysicalKeyState::of_context(*ctx),
    {
        PhysicalKeyState {
            modifiers: ctx.modifiers,
            left_thumb_down: ctx.left_thumb_down,
            right_thumb_down: ctx.right_thumb_down,
            composing: ctx.composing,
        }
    }

    /// State of one thumb key after an event of that key: the time of the first key-down
    /// stands until the key-up, however often the key repeats.
    pub open spec fn thumb_after(held: Option<Timestamp>, event: RawKeyEvent) -> Option<Timestamp> {
        if event.event_type is KeyDown {
            match held {
                Some(t) => Some(t),
                None => Some(event.timestamp),
            }
        } else {
            None
        }
    }

    pub open spec fn after(self, event: RawKeyEvent) -> PhysicalKeyState {
        PhysicalKeyState {
            modifiers: self.modifiers.updated(event),
            left_thumb_down: if event.key_classification is LeftThumb {
                Self::thumb_after(self.left_thumb_down, event)
            } else {
                self.left_thumb_down
            },
            right_thumb_down: if event.key_classification is RightThumb {
                Self::thumb_after(self.right_thumb_down, event)
            } else {
                self.right_thumb_down
            },
            composing: self.composing,
        }
    }

    fn thumb_event(held: Option<Timestamp>, event: &RawKeyEvent) -> (r: Option<Timestamp>)
        ensures
            r == Self::thumb_after(held, *event),
    {
        if matches!(event.event_type, KeyEventType::KeyDown) {
            match held {
                Some(t) => Some(t),
                None => Some(event.timestamp),
            }
        } else {
            None
        }
    }

    /// Enters an event.
    pub fn update(&mut self, event: &RawKeyEvent)
        ensures
            *final(self) == old(self).after(*event),
    {
        self.modifiers.update(event);
        match event.key_classification {
            KeyClassification::LeftThumb => {
                self.left_thumb_down = Self::thumb_event(self.left_thumb_down, event);
            },
            KeyClassification::RightThumb => {
                self.right_thumb_down = Self::thumb_event(self.right_thumb_down, event);
            },
            KeyClassification::Char | KeyClassification::Passthrough => {},
        }
    }
}

/// Follows the key stream.
#[derive(Debug)]
pub struct InputTracker {
    state: PhysicalKeyState,
}

impl InputTracker {
    pub closed spec fn state_spec(self) -> PhysicalKeyState {
        self.state
    }

    #[must_use]
    pub fn new() -> (r: Self)
        ensures
            r.state_spec() == PhysicalKeyState::empty_spec(),
    {
        InputTracker { state: PhysicalKeyState::empty() }
    }

    /// Enters an event and returns the state after it.
    pub fn process(&mut self, event: &RawKeyEvent) -> (r: PhysicalKeyState)
        ensures
            r == old(self).state_spec().after(*event),
            final(self).state_spec() == r,
    {
        self.state.update(event);
        self.state
    }

    #[must_use]
    pub fn snapshot(&self) -> (r: PhysicalKeyState)
        ensures
            r == self.state_spec(),
    {
        self.state
    }
}

} // verus!
