//! What passes between the event loop and the program.

use vstd::prelude::*;

verus! {

/// What becomes of an event of the tap.
#[derive(Debug, Clone, Copy, PartialEq, Eq, Structural)]
pub enum TapAction {
    /// Goes on to the application.
    Pass,
    /// Is swallowed.
    Consume,
}

/// What the user chose from the menu bar.
#[derive(Debug, Clone, Copy, PartialEq, Eq, Structural)]
pub enum MenuAction {
    ToggleEngine,
    ToggleLoginItem,
}

} // verus!
