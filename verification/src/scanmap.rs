//! Physical key positions and keyboard models.

use vstd::prelude::*;

verus! {

/// Position of a key on the physical keyboard, independent of the layout.
#[derive(Debug, Clone, Copy, PartialEq, Eq, Structural, Hash)]
pub struct PhysicalPos {
    pub row: u8,
    pub col: u8,
}

impl PhysicalPos {
    #[must_use]
    pub fn new(row: u8, col: u8) -> (pos: Self)
        ensures
            pos == (PhysicalPos { row, col }),
    {
        PhysicalPos { row, col }
    }
}

/// Physical keyboard model the layouts are written for.
#[derive(Debug, Clone, Copy, PartialEq, Eq, Structural)]
pub enum KeyboardModel {
    Jis,
    Us,
}

} // verus!
