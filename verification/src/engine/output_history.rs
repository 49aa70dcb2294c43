//! What the engine has sent.

use vstd::prelude::*;

use crate::types::{KeyAction, ScanCode};

verus! {

/// One output of the engine.
#[derive(Debug)]
pub struct OutputEntry {
    pub scan_code: ScanCode,
    pub romaji: String,
    pub kana: Option<char>,
    pub action: KeyAction,
}

impl Clone for OutputEntry {
    fn clone(&self) -> (r: Self)
        ensures
            r == *self,
    {
        OutputEntry {
            scan_code: self.scan_code,
            romaji: self.romaji.clone(),
            kana: self.kana,
            action: self.action.clone(),
        }
    }
}

} // verus!
