//! Physical positions of the macOS key codes on a JIS keyboard.

use vstd::prelude::*;

use crate::scanmap::PhysicalPos;

verus! {

/// Position of a key code: the character keys of the number row and the three letter rows.
pub open spec fn pos_of(keycode: u16) -> Option<PhysicalPos> {
    match keycode {
        0x12u16 => Some(PhysicalPos { row: 0, col: 0 }),
        0x13u16 => Some(PhysicalPos { row: 0, col: 1 }),
        0x14u16 => Some(PhysicalPos { row: 0, col: 2 }),
        0x15u16 => Some(PhysicalPos { row: 0, col: 3 }),
        0x17u16 => Some(PhysicalPos { row: 0, col: 4 }),
        0x16u16 => Some(PhysicalPos { row: 0, col: 5 }),
        0x1Au16 => Some(PhysicalPos { row: 0, col: 6 }),
        0x1Cu16 => Some(PhysicalPos { row: 0, col: 7 }),
        0x19u16 => Some(PhysicalPos { row: 0, col: 8 }),
        0x1Du16 => Some(PhysicalPos { row: 0, col: 9 }),
        0x1Bu16 => Some(PhysicalPos { row: 0, col: 10 }),
        0x18u16 => Some(PhysicalPos { row: 0, col: 11 }),
        0x5Du16 => Some(PhysicalPos { row: 0, col: 12 }),
        0x0Cu16 => Some(PhysicalPos { row: 1, col: 0 }),
        0x0Du16 => Some(PhysicalPos { row: 1, col: 1 }),
        0x0Eu16 => Some(PhysicalPos { row: 1, col: 2 }),
        0x0Fu16 => Some(PhysicalPos { row: 1, col: 3 }),
        0x11u16 => Some(PhysicalPos { row: 1, col: 4 }),
        0x10u16 => Some(PhysicalPos { row: 1, col: 5 }),
        0x20u16 => Some(PhysicalPos { row: 1, col: 6 }),
        0x22u16 => Some(PhysicalPos { row: 1, col: 7 }),
        0x1Fu16 => Some(PhysicalPos { row: 1, col: 8 }),
        0x23u16 => Some(PhysicalPos { row: 1, col: 9 }),
        0x21u16 => Some(PhysicalPos { row: 1, col: 10 }),
        0x1Eu16 => Some(PhysicalPos { row: 1, col: 11 }),
        0x00u16 => Some(PhysicalPos { row: 2, col: 0 }),
        0x01u16 => Some(PhysicalPos { row: 2, col: 1 }),
        0x02u16 => Some(PhysicalPos { row: 2, col: 2 }),
        0x03u16 => Some(PhysicalPos { row: 2, col: 3 }),
        0x05u16 => Some(PhysicalPos { row: 2, col: 4 }),
        0x04u16 => Some(PhysicalPos { row: 2, col: 5 }),
        0x26u16 => Some(PhysicalPos { row: 2, col: 6 }),
        0x28u16 => Some(PhysicalPos { row: 2, col: 7 }),
        0x25u16 => Some(PhysicalPos { row: 2, col: 8 }),
        0x29u16 => Some(PhysicalPos { row: 2, col: 9 }),
        0x27u16 => Some(PhysicalPos { row: 2, col: 10 }),
        0x2Au16 => Some(PhysicalPos { row: 2, col: 11 }),
        0x06u16 => Some(PhysicalPos { row: 3, col: 0 }),
        0x07u16 => Some(PhysicalPos { row: 3, col: 1 }),
        0x08u16 => Some(PhysicalPos { row: 3, col: 2 }),
        0x09u16 => Some(PhysicalPos { row: 3, col: 3 }),
        0x0Bu16 => Some(PhysicalPos { row: 3, col: 4 }),
        0x2Du16 => Some(PhysicalPos { row: 3, col: 5 }),
        0x2Eu16 => Some(PhysicalPos { row: 3, col: 6 }),
        0x2Bu16 => Some(PhysicalPos { row: 3, col: 7 }),
        0x2Fu16 => Some(PhysicalPos { row: 3, col: 8 }),
        0x2Cu16 => Some(PhysicalPos { row: 3, col: 9 }),
        0x5Eu16 => Some(PhysicalPos { row: 3, col: 10 }),
        _ => None,
    }
}

/// Position of a macOS key code. Thumb keys have none.
#[must_use]
pub fn keycode_to_pos(keycode: u16) -> (r: Option<PhysicalPos>)
    ensures
        r == pos_of(keycode),
{
    let (row, col): (u8, u8) = match keycode {
        0x12 => (0, 0), // kVK_ANSI_1
        0x13 => (0, 1), // kVK_ANSI_2
        0x14 => (0, 2), // kVK_ANSI_3
        0x15 => (0, 3), // kVK_ANSI_4
        0x17 => (0, 4), // kVK_ANSI_5
        0x16 => (0, 5), // kVK_ANSI_6
        0x1A => (0, 6), // kVK_ANSI_7
        0x1C => (0, 7), // kVK_ANSI_8
        0x19 => (0, 8), // kVK_ANSI_9
        0x1D => (0, 9), // kVK_ANSI_0
        0x1B => (0, 10), // kVK_ANSI_Minus
        0x18 => (0, 11), // kVK_ANSI_Equal (JIS: ^)
        0x5D => (0, 12), // kVK_JIS_Yen (¥)
        0x0C => (1, 0), // kVK_ANSI_Q
        0x0D => (1, 1), // kVK_ANSI_W
        0x0E => (1, 2), // kVK_ANSI_E
        0x0F => (1, 3), // kVK_ANSI_R
        0x11 => (1, 4), // kVK_ANSI_T
        0x10 => (1, 5), // kVK_ANSI_Y
        0x20 => (1, 6), // kVK_ANSI_U
        0x22 => (1, 7), // kVK_ANSI_I
        0x1F => (1, 8), // kVK_ANSI_O
        0x23 => (1, 9), // kVK_ANSI_P
        0x21 => (1, 10), // kVK_ANSI_LeftBracket (JIS: @)
        0x1E => (1, 11), // kVK_ANSI_RightBracket (JIS: [)
        0x00 => (2, 0), // kVK_ANSI_A
        0x01 => (2, 1), // kVK_ANSI_S
        0x02 => (2, 2), // kVK_ANSI_D
        0x03 => (2, 3), // kVK_ANSI_F
        0x05 => (2, 4), // kVK_ANSI_G
        0x04 => (2, 5), // kVK_ANSI_H
        0x26 => (2, 6), // kVK_ANSI_J
        0x28 => (2, 7), // kVK_ANSI_K
        0x25 => (2, 8), // kVK_ANSI_L
        0x29 => (2, 9), // kVK_ANSI_Semicolon (JIS: ;)
        0x27 => (2, 10), // kVK_ANSI_Quote (JIS: :)
        0x2A => (2, 11), // kVK_ANSI_Backslash (JIS: ])
        0x06 => (3, 0), // kVK_ANSI_Z
        0x07 => (3, 1), // kVK_ANSI_X
        0x08 => (3, 2), // kVK_ANSI_C
        0x09 => (3, 3), // kVK_ANSI_V
        0x0B => (3, 4), // kVK_ANSI_B
        0x2D => (3, 5), // kVK_ANSI_N
        0x2E => (3, 6), // kVK_ANSI_M
        0x2B => (3, 7), // kVK_ANSI_Comma
        0x2F => (3, 8), // kVK_ANSI_Period
        0x2C => (3, 9), // kVK_ANSI_Slash
        0x5E => (3, 10), // kVK_JIS_Underscore (_)
        _ => {
            return None;
        },
    };
    Some(PhysicalPos::new(row, col))
}

/// No two keys share a position.
pub proof fn law_positions_are_distinct(a: u16, b: u16)
    requires
        pos_of(a) is Some,
        pos_of(a) == pos_of(b),
    ensures
        a == b,
{
}

/// Every position lies on one of the four rows of the keyboard.
pub proof fn law_positions_are_on_the_keyboard(keycode: u16)
    requires
        pos_of(keycode) is Some,
    ensures
        pos_of(keycode)->0.row < 4,
        pos_of(keycode)->0.col < 13,
{
}

} // verus!
