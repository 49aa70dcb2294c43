//! Classification of macOS key codes.

use vstd::prelude::*;

use crate::macos::scanmap;
use crate::scanmap::PhysicalPos;
use crate::types::{KeyClassification, ModifierKey, VkCode};

verus! {

/// `kVK_JIS_Eisu`: switches the IME off.
pub const KEYCODE_EISU: u16 = 0x66;

/// `kVK_JIS_Kana`: switches the IME on.
pub const KEYCODE_KANA: u16 = 0x68;

/// The modifier that a key code is, on either side of the keyboard.
pub open spec fn modifier_of(keycode: u16) -> Option<ModifierKey> {
    match keycode {
        0x38u16 | 0x3Cu16 => Some(ModifierKey::Shift),
        0x3Bu16 | 0x3Eu16 => Some(ModifierKey::Ctrl),
        0x3Au16 | 0x3Du16 => Some(ModifierKey::Alt),
        0x37u16 | 0x36u16 => Some(ModifierKey::Meta),
        _ => None,
    }
}

#[must_use]
pub fn classify_modifier(keycode: u16) -> (r: Option<ModifierKey>)
    ensures
        r == modifier_of(keycode),
{
    match keycode {
        0x38u16 | 0x3Cu16 => Some(ModifierKey::Shift),
        0x3Bu16 | 0x3Eu16 => Some(ModifierKey::Ctrl),
        0x3Au16 | 0x3Du16 => Some(ModifierKey::Alt),
        0x37u16 | 0x36u16 => Some(ModifierKey::Meta),
        _ => None,
    }
}

/// The two keys that are set up as thumb keys.
#[derive(Debug, Clone, Copy, PartialEq, Eq, Structural)]
pub struct ThumbKeys {
    pub left: VkCode,
    pub right: VkCode,
}

impl ThumbKeys {
    /// A thumb key is a thumb key before it is anything else.
    pub open spec fn class_of(self, keycode: u16) -> KeyClassification {
        if keycode == self.left.0 {
            KeyClassification::LeftThumb
        } else if keycode == self.right.0 {
            KeyClassification::RightThumb
        } else if scanmap::pos_of(keycode) is Some {
            KeyClassification::Char
        } else {
            KeyClassification::Passthrough
        }
    }

    /// Class of a key, and its position where it is a character key.
    #[must_use]
    pub fn classify_key(&self, keycode: u16) -> (r: (KeyClassification, Option<PhysicalPos>))
        ensures
            r.0 == self.class_of(keycode),
            r.1 == (if r.0 is Char {
                scanmap::pos_of(keycode)
            } else {
                None
            }),
    {
        if keycode == self.left.0 {
            return (KeyClassification::LeftThumb, None);
        }
        if keycode == self.right.0 {
            return (KeyClassification::RightThumb, None);
        }
        let pos = scanmap::keycode_to_pos(keycode);
        if pos.is_some() {
            (KeyClassification::Char, pos)
        } else {
            (KeyClassification::Passthrough, None)
        }
    }

    pub open spec fn shift_faces_usable(self) -> bool {
        modifier_of(self.left.0) != Some(ModifierKey::Shift) && modifier_of(self.right.0) != Some(
            ModifierKey::Shift,
        )
    }

    /// The faces of a thumb key together with shift can be told apart: neither thumb key is
    /// itself a shift key.
    #[must_use]
    pub fn shift_faces_enabled(&self) -> (r: bool)
        ensures
            r == self.shift_faces_usable(),
    {
        !matches!(classify_modifier(self.left.0), Some(ModifierKey::Shift)) && !matches!(
            classify_modifier(self.right.0),
            Some(ModifierKey::Shift)
        )
    }

    pub open spec fn switches_ime(self) -> bool {
        is_switch_key(self.left.0) && is_switch_key(self.right.0)
    }

    /// Both thumb keys are keys that switch the IME.
    #[must_use]
    pub fn are_ime_switch(&self) -> (r: bool)
        ensures
            r == self.switches_ime(),
    {
        (self.left.0 == KEYCODE_EISU || self.left.0 == KEYCODE_KANA) && (self.right.0
            == KEYCODE_EISU || self.right.0 == KEYCODE_KANA)
    }
}

pub open spec fn is_switch_key(keycode: u16) -> bool {
    keycode == KEYCODE_EISU || keycode == KEYCODE_KANA
}

/// The faces of a thumb key with shift are in use unless a thumb key is one of the two shift keys, and
/// the thumb keys switch the IME where each is the eisu or the kana key.
pub proof fn law_thumb_keys_that_are_something_else(thumbs: ThumbKeys)
    ensures
        thumbs.shift_faces_usable() <==> thumbs.left.0 != 0x38 && thumbs.left.0 != 0x3C
            && thumbs.right.0 != 0x38 && thumbs.right.0 != 0x3C,
        thumbs.switches_ime() <==> (thumbs.left.0 == 0x66 || thumbs.left.0 == 0x68) && (
        thumbs.right.0 == 0x66 || thumbs.right.0 == 0x68),
{
}

} // verus!
