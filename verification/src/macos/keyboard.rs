//! The JIS keyboard as it is printed, and what holds of the key tables because of it.

use vstd::prelude::*;

use crate::macos::hook;
use crate::macos::output;
use crate::macos::scanmap;
use crate::macos::vk;
use crate::scanmap::{KeyboardModel, PhysicalPos};
use crate::text;
use crate::types::{ModifierKey, SpecialKey, VkCode};
use crate::yab;

verus! {

/// The key codes of a row, from left to right.
pub open spec fn row_codes(row: int) -> Seq<u16> {
    if row == 0 {
        seq![0x12, 0x13, 0x14, 0x15, 0x17, 0x16, 0x1A, 0x1C, 0x19, 0x1D, 0x1B, 0x18, 0x5D]
    } else if row == 1 {
        seq![0x0C, 0x0D, 0x0E, 0x0F, 0x11, 0x10, 0x20, 0x22, 0x1F, 0x23, 0x21, 0x1E]
    } else if row == 2 {
        seq![0x00, 0x01, 0x02, 0x03, 0x05, 0x04, 0x26, 0x28, 0x25, 0x29, 0x27, 0x2A]
    } else {
        seq![0x06, 0x07, 0x08, 0x09, 0x0B, 0x2D, 0x2E, 0x2B, 0x2F, 0x2C, 0x5E]
    }
}

/// What the keys of a row type alone, from left to right. The yen key stands for the backslash; the
/// last key of the lowest row types nothing that is used.
pub open spec fn plain_legend(row: int) -> Seq<char> {
    if row == 0 {
        "1234567890-^\\"@
    } else if row == 1 {
        "qwertyuiop@["@
    } else if row == 2 {
        "asdfghjkl;:]"@
    } else {
        "zxcvbnm,./"@
    }
}

/// What the keys of a row type with shift. A blank stands for a key without a shifted character.
pub open spec fn shift_legend(row: int) -> Seq<char> {
    if row == 0 {
        "!\"#$%&'() =~|"@
    } else if row == 1 {
        "QWERTYUIOP {"@
    } else if row == 2 {
        "ASDFGHJKL+*}"@
    } else {
        "ZXCVBNM<>?_"@
    }
}

/// The kana of the keys of a row.
pub open spec fn kana_legend(row: int) -> Seq<char> {
    if row == 0 {
        "ぬふあうえおやゆよわほへー"@
    } else if row == 1 {
        "たていすかんなにらせ゛゜"@
    } else if row == 2 {
        "ちとしはきくまのりれけむ"@
    } else {
        "つさそひこみもねるめろ"@
    }
}

/// The kana of the keys of a row with shift. A blank stands for a key without one.
pub open spec fn shift_kana_legend(row: int) -> Seq<char> {
    if row == 0 {
        "  ぁぅぇぉゃゅょを   "@
    } else if row == 1 {
        "  ぃ        「"@
    } else if row == 2 {
        "           」"@
    } else {
        "っ      、。・ "@
    }
}

/// The positions follow the rows: the key at a place of a row has that place, and no other key code
/// has a position. A row of a layout has as many columns as the keyboard has keys there.
pub proof fn law_positions_follow_the_rows(row: int, col: int, keycode: u16)
    requires
        0 <= row < 4,
        0 <= col < row_codes(row).len(),
    ensures
        scanmap::pos_of(row_codes(row)[col]) == Some(PhysicalPos { row: row as u8, col: col as u8 }),
        scanmap::pos_of(keycode) matches Some(p) ==> p.row < 4 && p.col < row_codes(
            p.row as int,
        ).len() && row_codes(p.row as int)[p.col as int] == keycode,
        yab::columns_of(KeyboardModel::Jis, row) == row_codes(row).len(),
{
}

/// The key of a character is the one that it is printed on, with shift for the upper half.
pub proof fn law_characters_are_typed_by_their_keys(row: int, col: int)
    requires
        0 <= row < 4,
        0 <= col < row_codes(row).len(),
    ensures
        col < plain_legend(row).len() ==> output::ascii_keycode(plain_legend(row)[col]) == Some(
            (row_codes(row)[col], false),
        ),
        shift_legend(row)[col] != ' ' ==> output::ascii_keycode(shift_legend(row)[col]) == Some(
            (row_codes(row)[col], true),
        ),
{
    reveal_strlit("1234567890-^\\");
    reveal_strlit("qwertyuiop@[");
    reveal_strlit("asdfghjkl;:]");
    reveal_strlit("zxcvbnm,./");
    reveal_strlit("!\"#$%&'() =~|");
    reveal_strlit("QWERTYUIOP {");
    reveal_strlit("ASDFGHJKL+*}");
    reveal_strlit("ZXCVBNM<>?_");
}

/// The key of a kana is the one that it is printed on, with shift for the upper half.
pub proof fn law_kana_are_typed_by_their_keys(row: int, col: int)
    requires
        0 <= row < 4,
        0 <= col < row_codes(row).len(),
    ensures
        output::kana_keycode(kana_legend(row)[col]) == Some((row_codes(row)[col], false)),
        shift_kana_legend(row)[col] != ' ' ==> output::kana_keycode(shift_kana_legend(row)[col])
            == Some((row_codes(row)[col], true)),
{
    reveal_strlit("ぬふあうえおやゆよわほへー");
    reveal_strlit("たていすかんなにらせ゛゜");
    reveal_strlit("ちとしはきくまのりれけむ");
    reveal_strlit("つさそひこみもねるめろ");
    reveal_strlit("  ぁぅぇぉゃゅょを   ");
    reveal_strlit("  ぃ        「");
    reveal_strlit("           」");
    reveal_strlit("っ      、。・ ");
}

/// The keys that move the cursor, from the lowest key code on.
pub open spec fn cursor_keys() -> Seq<(SpecialKey, u16)> {
    seq![
        (SpecialKey::Insert, 0x72),
        (SpecialKey::Home, 0x73),
        (SpecialKey::PageUp, 0x74),
        (SpecialKey::Delete, 0x75),
        (SpecialKey::End, 0x77),
        (SpecialKey::PageDown, 0x79),
        (SpecialKey::Left, 0x7B),
        (SpecialKey::Right, 0x7C),
        (SpecialKey::Down, 0x7D),
        (SpecialKey::Up, 0x7E),
    ]
}

/// The special keys are keys of their own: no two share a code, none is on a row of characters, and
/// none is a modifier or a thumb key that switches the IME. The cursor keys have the codes of their
/// block.
pub proof fn law_special_keys_are_keys_of_their_own(a: SpecialKey, b: SpecialKey, i: int)
    requires
        0 <= i < cursor_keys().len(),
    ensures
        output::special_keycode(a) == output::special_keycode(b) ==> a == b,
        scanmap::pos_of(output::special_keycode(a)) is None,
        hook::modifier_of(output::special_keycode(a)) is None,
        !hook::is_switch_key(output::special_keycode(a)),
        output::special_keycode(cursor_keys()[i].0) == cursor_keys()[i].1,
{
}

/// The keys that posts hold down are the modifiers that they are named after, and the two that
/// switch the IME are no modifiers and no character keys.
pub proof fn law_held_keys_are_modifiers()
    ensures
        hook::modifier_of(output::KEYCODE_SHIFT) == Some(ModifierKey::Shift),
        hook::modifier_of(output::KEYCODE_OPTION) == Some(ModifierKey::Alt),
        hook::modifier_of(hook::KEYCODE_EISU) is None,
        hook::modifier_of(hook::KEYCODE_KANA) is None,
        scanmap::pos_of(hook::KEYCODE_EISU) is None,
        scanmap::pos_of(hook::KEYCODE_KANA) is None,
        hook::KEYCODE_EISU != hook::KEYCODE_KANA,
{
}

/// Every character that has a key is printed on one.
pub proof fn law_keys_type_printed_characters(ch: char) -> (at: (int, int))
    requires
        output::ascii_keycode(ch) is Some,
    ensures
        0 <= at.0 < 4,
        0 <= at.1 < row_codes(at.0).len(),
        (output::ascii_keycode(ch)->0).0 == row_codes(at.0)[at.1],
        if (output::ascii_keycode(ch)->0).1 {
            shift_legend(at.0)[at.1] == ch
        } else {
            at.1 < plain_legend(at.0).len() && plain_legend(at.0)[at.1] == ch
        },
{
    reveal_strlit("1234567890-^\\");
    reveal_strlit("qwertyuiop@[");
    reveal_strlit("asdfghjkl;:]");
    reveal_strlit("zxcvbnm,./");
    reveal_strlit("!\"#$%&'() =~|");
    reveal_strlit("QWERTYUIOP {");
    reveal_strlit("ASDFGHJKL+*}");
    reveal_strlit("ZXCVBNM<>?_");
    let code = (output::ascii_keycode(ch)->0).0;
    assert(scanmap::pos_of(code) is Some);
    let p = scanmap::pos_of(code)->0;
    law_positions_follow_the_rows(p.row as int, p.col as int, code);
    (p.row as int, p.col as int)
}

/// Every kana that has a key is printed on one.
pub proof fn law_keys_type_printed_kana(ch: char) -> (at: (int, int))
    requires
        output::kana_keycode(ch) is Some,
    ensures
        0 <= at.0 < 4,
        0 <= at.1 < row_codes(at.0).len(),
        (output::kana_keycode(ch)->0).0 == row_codes(at.0)[at.1],
        if (output::kana_keycode(ch)->0).1 {
            shift_kana_legend(at.0)[at.1] == ch
        } else {
            kana_legend(at.0)[at.1] == ch
        },
{
    reveal_strlit("ぬふあうえおやゆよわほへー");
    reveal_strlit("たていすかんなにらせ゛゜");
    reveal_strlit("ちとしはきくまのりれけむ");
    reveal_strlit("つさそひこみもねるめろ");
    reveal_strlit("  ぁぅぇぉゃゅょを   ");
    reveal_strlit("  ぃ        「");
    reveal_strlit("           」");
    reveal_strlit("っ      、。・ ");
    let code = (output::kana_keycode(ch)->0).0;
    assert(scanmap::pos_of(code) is Some);
    let p = scanmap::pos_of(code)->0;
    law_positions_follow_the_rows(p.row as int, p.col as int, code);
    (p.row as int, p.col as int)
}

/// A small kana is the shifted large one. The large one follows it in Unicode.
pub proof fn law_small_kana_are_shifted_large_ones(small: char)
    requires
        small == 'ぁ' || small == 'ぃ' || small == 'ぅ' || small == 'ぇ' || small == 'ぉ' || small == 'ゃ'
            || small == 'ゅ' || small == 'ょ' || small == 'っ',
    ensures
        output::kana_keycode(((small as u32 + 1) as u32) as char) matches Some((code, shift))
            ==> !shift && output::kana_keycode(small) == Some((code, true)),
        output::kana_keycode(((small as u32 + 1) as u32) as char) is Some,
{
}

/// The kana that take a voicing mark.
pub open spec fn voiceable() -> Seq<char> {
    "かきくけこさしすせそたちつてとはひふへほ"@
}

/// Unicode has the voiced kana right behind the plain one, and the half-voiced one behind that. The
/// marks go with them: a voiced kana is its plain one and the mark, and every other kana but the
/// voiced vowel stands for itself.
pub proof fn law_voicing_follows_unicode(i: int, ch: char)
    requires
        0 <= i < voiceable().len(),
    ensures
        output::voicing(((voiceable()[i] as u32 + 1) as u32) as char) == (
            voiceable()[i],
            Some('゛'),
        ),
        i >= voiceable().len() - 5 ==> output::voicing(
            ((voiceable()[i] as u32 + 2) as u32) as char,
        ) == (voiceable()[i], Some('゜')),
        output::voicing(ch) matches (base, Some(mark)) ==> {
            ||| mark == '゛' && ch as int == base as int + 1
            ||| mark == '゜' && ch as int == base as int + 2
            ||| mark == '゛' && ch == 'ゔ' && base == 'う'
        },
        output::voicing(ch).1 is None ==> output::voicing(ch).0 == ch,
        output::voicing('ゔ') == ('う', Some('゛')),
{
    reveal_strlit("かきくけこさしすせそたちつてとはひふへほ");
}

/// The kana symbols and the characters that the IME turns into them.
pub open spec fn kana_symbols() -> (Seq<char>, Seq<char>) {
    ("ー、。・「」￥"@, "-,./[]\\"@)
}

/// A kana symbol is typed by the character that the IME turns into it, without shift. The marks and
/// brackets of the kana layout are on the very keys of those characters.
pub proof fn law_kana_symbols_are_typed_by_their_characters(i: int, ch: char)
    requires
        0 <= i < kana_symbols().0.len(),
    ensures
        output::kana_symbol_ascii(kana_symbols().0[i]) == Some(seq![kana_symbols().1[i]]),
        output::ascii_keycode(kana_symbols().1[i]) matches Some((_, shift)) && !shift,
        1 <= i <= 5 ==> (output::ascii_keycode(kana_symbols().1[i])->0).0 == (output::kana_keycode(
            kana_symbols().0[i],
        )->0).0,
        output::kana_symbol_ascii(ch) is Some ==> kana_symbols().0.contains(ch),
{
    reveal_strlit("ー、。・「」￥");
    reveal_strlit("-,./[]\\");
    reveal_strlit("-");
    reveal_strlit(",");
    reveal_strlit(".");
    reveal_strlit("/");
    reveal_strlit("[");
    reveal_strlit("]");
    reveal_strlit("\\");
    let symbols = kana_symbols().0;
    assert("-"@ =~= seq!['-']);
    assert(","@ =~= seq![',']);
    assert("."@ =~= seq!['.']);
    assert("/"@ =~= seq!['/']);
    assert("["@ =~= seq!['[']);
    assert("]"@ =~= seq![']']);
    assert("\\"@ =~= seq!['\\']);
    assert(symbols[0] == 'ー' && symbols[1] == '、' && symbols[2] == '。' && symbols[3] == '・'
        && symbols[4] == '「' && symbols[5] == '」' && symbols[6] == '￥');
}

/// A full-width character is its half-width one, shifted by the distance of the two blocks.
pub proof fn law_halfwidth_keeps_the_order(ch: char)
    ensures
        output::halfwidth(ch) is Some <==> '！' <= ch && ch <= '～',
        output::halfwidth(ch) matches Some(h) ==> h as int - '!' as int == ch as int - '！' as int,
{
}

/// A symbol that the IME would change is struck with the key of its half-width character. These are
/// the ones whose plain stroke a kana symbol takes.
pub proof fn law_literal_strokes_are_those_of_the_half_width(ch: char)
    ensures
        output::literal_keystroke(ch) is Some ==> output::halfwidth(ch) is Some
            && output::literal_keystroke(ch) == output::ascii_keycode(output::halfwidth(ch)->0),
        output::literal_keystroke(ch) is Some <==> ch == '／' || ch == '［' || ch == '］',
{
}

/// The modifiers have a key on either side of the keyboard.
pub proof fn law_modifiers_are_on_both_sides(keycode: u16)
    ensures
        hook::modifier_of(keycode) is Some <==> 0x36 <= keycode <= 0x3E && keycode != 0x39
            && keycode != 0x3F,
        hook::modifier_of(0x38) == hook::modifier_of(0x3C),
        hook::modifier_of(0x3A) == hook::modifier_of(0x3D),
        hook::modifier_of(0x3B) == hook::modifier_of(0x3E),
        hook::modifier_of(0x36) == hook::modifier_of(0x37),
        hook::modifier_of(keycode) == Some(ModifierKey::Meta) <==> keycode == 0x36 || keycode
            == 0x37,
        hook::modifier_of(keycode) is Some ==> scanmap::pos_of(keycode) is None,
{
}

/// A key is a thumb key where it is set up as one, and otherwise a character key exactly where it has
/// a place on the rows. Only the left one counts as the left one.
pub proof fn law_keys_are_told_apart(thumbs: hook::ThumbKeys, row: int, col: int, keycode: u16)
    requires
        0 <= row < 4,
        0 <= col < row_codes(row).len(),
    ensures
        ({
            let c = row_codes(row)[col];
            VkCode(c) != thumbs.left && VkCode(c) != thumbs.right ==> thumbs.class_of(c) is Char
        }),
        thumbs.class_of(thumbs.left.0) is LeftThumb,
        thumbs.left != thumbs.right ==> thumbs.class_of(thumbs.right.0) is RightThumb,
        thumbs.class_of(keycode) is LeftThumb ==> VkCode(keycode) == thumbs.left,
        thumbs.class_of(keycode) is RightThumb ==> VkCode(keycode) == thumbs.right,
        thumbs.class_of(keycode) is Char ==> scanmap::pos_of(keycode) is Some,
{
    law_positions_follow_the_rows(row, col, keycode);
}

/// The characters that stand for special keys in a layout, and the keys.
pub open spec fn special_characters() -> (Seq<char>, Seq<SpecialKey>) {
    (
        "後逃入空消挿上下左右家終前次"@,
        seq![
            SpecialKey::Backspace,
            SpecialKey::Escape,
            SpecialKey::Enter,
            SpecialKey::Space,
            SpecialKey::Delete,
            SpecialKey::Insert,
            SpecialKey::Up,
            SpecialKey::Down,
            SpecialKey::Left,
            SpecialKey::Right,
            SpecialKey::Home,
            SpecialKey::End,
            SpecialKey::PageUp,
            SpecialKey::PageDown,
        ],
    )
}

/// Every special key can be written in a layout, by one character.
pub proof fn law_special_keys_can_be_written(i: int, ch: char)
    requires
        0 <= i < special_characters().0.len(),
    ensures
        yab::special_of(special_characters().0[i]) == Some(special_characters().1[i]),
        yab::special_of(ch) is Some ==> special_characters().0.contains(ch),
{
    reveal_strlit("後逃入空消挿上下左右家終前次");
    let c = special_characters().0;
    assert(c[0] == '後' && c[1] == '逃' && c[2] == '入' && c[3] == '空' && c[4] == '消' && c[5] == '挿'
        && c[6] == '上' && c[7] == '下' && c[8] == '左' && c[9] == '右' && c[10] == '家' && c[11] == '終'
        && c[12] == '前' && c[13] == '次');
}

/// A letter or a digit is the name of its key, alone or behind `VK_`: the key that types it.
pub proof fn law_letters_and_digits_name_their_keys(c: char)
    requires
        'A' <= c && c <= 'Z' || '0' <= c && c <= '9',
    ensures
        output::ascii_keycode(c) is Some,
        vk::keycode_of(seq![c]) == Some(VkCode((output::ascii_keycode(c)->0).0)),
        vk::keycode_of("VK_"@ + seq![c]) == Some(VkCode((output::ascii_keycode(c)->0).0)),
{
    reveal_strlit("VK_");
    reveal_strlit("Nonconvert");
    reveal_strlit("VK_NONCONVERT");
    reveal_strlit("VK_MUHENKAN");
    reveal_strlit("無変換");
    reveal_strlit("英数");
    reveal_strlit("Convert");
    reveal_strlit("VK_CONVERT");
    reveal_strlit("Kana");
    reveal_strlit("VK_KANA");
    reveal_strlit("変換");
    reveal_strlit("かな");
    reveal_strlit("A");
    reveal_strlit("VK_A");
    reveal_strlit("S");
    reveal_strlit("VK_S");
    reveal_strlit("D");
    reveal_strlit("VK_D");
    reveal_strlit("F");
    reveal_strlit("VK_F");
    reveal_strlit("H");
    reveal_strlit("VK_H");
    reveal_strlit("G");
    reveal_strlit("VK_G");
    reveal_strlit("Z");
    reveal_strlit("VK_Z");
    reveal_strlit("X");
    reveal_strlit("VK_X");
    reveal_strlit("C");
    reveal_strlit("VK_C");
    reveal_strlit("V");
    reveal_strlit("VK_V");
    reveal_strlit("B");
    reveal_strlit("VK_B");
    reveal_strlit("Q");
    reveal_strlit("VK_Q");
    reveal_strlit("W");
    reveal_strlit("VK_W");
    reveal_strlit("E");
    reveal_strlit("VK_E");
    reveal_strlit("R");
    reveal_strlit("VK_R");
    reveal_strlit("Y");
    reveal_strlit("VK_Y");
    reveal_strlit("T");
    reveal_strlit("VK_T");
    reveal_strlit("O");
    reveal_strlit("VK_O");
    reveal_strlit("U");
    reveal_strlit("VK_U");
    reveal_strlit("I");
    reveal_strlit("VK_I");
    reveal_strlit("P");
    reveal_strlit("VK_P");
    reveal_strlit("L");
    reveal_strlit("VK_L");
    reveal_strlit("J");
    reveal_strlit("VK_J");
    reveal_strlit("K");
    reveal_strlit("VK_K");
    reveal_strlit("N");
    reveal_strlit("VK_N");
    reveal_strlit("M");
    reveal_strlit("VK_M");
    reveal_strlit("1");
    reveal_strlit("VK_1");
    reveal_strlit("2");
    reveal_strlit("VK_2");
    reveal_strlit("3");
    reveal_strlit("VK_3");
    reveal_strlit("4");
    reveal_strlit("VK_4");
    reveal_strlit("5");
    reveal_strlit("VK_5");
    reveal_strlit("6");
    reveal_strlit("VK_6");
    reveal_strlit("7");
    reveal_strlit("VK_7");
    reveal_strlit("8");
    reveal_strlit("VK_8");
    reveal_strlit("9");
    reveal_strlit("VK_9");
    reveal_strlit("0");
    reveal_strlit("VK_0");
    reveal_strlit("Backspace");
    reveal_strlit("VK_BACK");
    reveal_strlit("Enter");
    reveal_strlit("VK_RETURN");
    reveal_strlit("Space");
    reveal_strlit("VK_SPACE");
    reveal_strlit("Escape");
    reveal_strlit("VK_ESCAPE");
    reveal_strlit("Delete");
    reveal_strlit("VK_DELETE");
    reveal_strlit("Tab");
    reveal_strlit("VK_TAB");
    reveal_strlit("F1");
    reveal_strlit("VK_F1");
    reveal_strlit("F2");
    reveal_strlit("VK_F2");
    reveal_strlit("F3");
    reveal_strlit("VK_F3");
    reveal_strlit("F4");
    reveal_strlit("VK_F4");
    reveal_strlit("F5");
    reveal_strlit("VK_F5");
    reveal_strlit("F6");
    reveal_strlit("VK_F6");
    reveal_strlit("F7");
    reveal_strlit("VK_F7");
    reveal_strlit("F8");
    reveal_strlit("VK_F8");
    reveal_strlit("F9");
    reveal_strlit("VK_F9");
    reveal_strlit("F10");
    reveal_strlit("VK_F10");
    reveal_strlit("F11");
    reveal_strlit("VK_F11");
    reveal_strlit("F12");
    reveal_strlit("VK_F12");
    reveal_strlit("Shift");
    reveal_strlit("VK_SHIFT");
    reveal_strlit("VK_LSHIFT");
    reveal_strlit("Ctrl");
    reveal_strlit("Control");
    reveal_strlit("VK_CONTROL");
    reveal_strlit("VK_LCONTROL");
    reveal_strlit("Alt");
    reveal_strlit("VK_MENU");
    reveal_strlit("VK_LMENU");
    let bare = seq![c];
    let long = "VK_"@ + seq![c];
    assert(long.len() == 4 && long[0] == 'V' && long[1] == 'K' && long[2] == '_' && long[3] == c);
    assert(c == 'A' ==> bare =~= "A"@);
    assert(c == 'S' ==> bare =~= "S"@);
    assert(c == 'D' ==> bare =~= "D"@);
    assert(c == 'F' ==> bare =~= "F"@);
    assert(c == 'H' ==> bare =~= "H"@);
    assert(c == 'G' ==> bare =~= "G"@);
    assert(c == 'Z' ==> bare =~= "Z"@);
    assert(c == 'X' ==> bare =~= "X"@);
    assert(c == 'C' ==> bare =~= "C"@);
    assert(c == 'V' ==> bare =~= "V"@);
    assert(c == 'B' ==> bare =~= "B"@);
    assert(c == 'Q' ==> bare =~= "Q"@);
    assert(c == 'W' ==> bare =~= "W"@);
    assert(c == 'E' ==> bare =~= "E"@);
    assert(c == 'R' ==> bare =~= "R"@);
    assert(c == 'Y' ==> bare =~= "Y"@);
    assert(c == 'T' ==> bare =~= "T"@);
    assert(c == 'O' ==> bare =~= "O"@);
    assert(c == 'U' ==> bare =~= "U"@);
    assert(c == 'I' ==> bare =~= "I"@);
    assert(c == 'P' ==> bare =~= "P"@);
    assert(c == 'L' ==> bare =~= "L"@);
    assert(c == 'J' ==> bare =~= "J"@);
    assert(c == 'K' ==> bare =~= "K"@);
    assert(c == 'N' ==> bare =~= "N"@);
    assert(c == 'M' ==> bare =~= "M"@);
    assert(c == '1' ==> bare =~= "1"@);
    assert(c == '2' ==> bare =~= "2"@);
    assert(c == '3' ==> bare =~= "3"@);
    assert(c == '4' ==> bare =~= "4"@);
    assert(c == '5' ==> bare =~= "5"@);
    assert(c == '6' ==> bare =~= "6"@);
    assert(c == '7' ==> bare =~= "7"@);
    assert(c == '8' ==> bare =~= "8"@);
    assert(c == '9' ==> bare =~= "9"@);
    assert(c == '0' ==> bare =~= "0"@);
    assert(c == 'A' ==> long =~= "VK_A"@);
    assert(c == 'S' ==> long =~= "VK_S"@);
    assert(c == 'D' ==> long =~= "VK_D"@);
    assert(c == 'F' ==> long =~= "VK_F"@);
    assert(c == 'H' ==> long =~= "VK_H"@);
    assert(c == 'G' ==> long =~= "VK_G"@);
    assert(c == 'Z' ==> long =~= "VK_Z"@);
    assert(c == 'X' ==> long =~= "VK_X"@);
    assert(c == 'C' ==> long =~= "VK_C"@);
    assert(c == 'V' ==> long =~= "VK_V"@);
    assert(c == 'B' ==> long =~= "VK_B"@);
    assert(c == 'Q' ==> long =~= "VK_Q"@);
    assert(c == 'W' ==> long =~= "VK_W"@);
    assert(c == 'E' ==> long =~= "VK_E"@);
    assert(c == 'R' ==> long =~= "VK_R"@);
    assert(c == 'Y' ==> long =~= "VK_Y"@);
    assert(c == 'T' ==> long =~= "VK_T"@);
    assert(c == 'O' ==> long =~= "VK_O"@);
    assert(c == 'U' ==> long =~= "VK_U"@);
    assert(c == 'I' ==> long =~= "VK_I"@);
    assert(c == 'P' ==> long =~= "VK_P"@);
    assert(c == 'L' ==> long =~= "VK_L"@);
    assert(c == 'J' ==> long =~= "VK_J"@);
    assert(c == 'K' ==> long =~= "VK_K"@);
    assert(c == 'N' ==> long =~= "VK_N"@);
    assert(c == 'M' ==> long =~= "VK_M"@);
    assert(c == '1' ==> long =~= "VK_1"@);
    assert(c == '2' ==> long =~= "VK_2"@);
    assert(c == '3' ==> long =~= "VK_3"@);
    assert(c == '4' ==> long =~= "VK_4"@);
    assert(c == '5' ==> long =~= "VK_5"@);
    assert(c == '6' ==> long =~= "VK_6"@);
    assert(c == '7' ==> long =~= "VK_7"@);
    assert(c == '8' ==> long =~= "VK_8"@);
    assert(c == '9' ==> long =~= "VK_9"@);
    assert(c == '0' ==> long =~= "VK_0"@);
}

/// The codes of the function keys, from the first on.
pub open spec fn function_codes() -> Seq<u16> {
    seq![0x7A, 0x78, 0x63, 0x76, 0x60, 0x61, 0x62, 0x64, 0x65, 0x6D, 0x67, 0x6F]
}

/// A function key is named by its number, alone or behind `VK_`.
pub proof fn law_function_keys_are_named_by_number(n: nat)
    requires
        1 <= n <= 12,
    ensures
        vk::keycode_of("F"@ + text::decimal(n)) == Some(VkCode(function_codes()[n - 1])),
        vk::keycode_of("VK_F"@ + text::decimal(n)) == Some(VkCode(function_codes()[n - 1])),
{
    reveal_strlit("F");
    reveal_strlit("VK_F");
    reveal_strlit("F1");
    reveal_strlit("F2");
    reveal_strlit("F3");
    reveal_strlit("F4");
    reveal_strlit("F5");
    reveal_strlit("F6");
    reveal_strlit("F7");
    reveal_strlit("F8");
    reveal_strlit("F9");
    reveal_strlit("F10");
    reveal_strlit("F11");
    reveal_strlit("F12");
    reveal_strlit("VK_F1");
    reveal_strlit("VK_F2");
    reveal_strlit("VK_F3");
    reveal_strlit("VK_F4");
    reveal_strlit("VK_F5");
    reveal_strlit("VK_F6");
    reveal_strlit("VK_F7");
    reveal_strlit("VK_F8");
    reveal_strlit("VK_F9");
    reveal_strlit("VK_F10");
    reveal_strlit("VK_F11");
    reveal_strlit("VK_F12");
    lemma_names_differ();
    lemma_small_decimal(n);
    let digits = text::decimal(n);
    let bare = "F"@ + digits;
    let long = "VK_F"@ + digits;
    assert(n == 1 ==> bare =~= "F1"@ && long =~= "VK_F1"@);
    assert(n == 2 ==> bare =~= "F2"@ && long =~= "VK_F2"@);
    assert(n == 3 ==> bare =~= "F3"@ && long =~= "VK_F3"@);
    assert(n == 4 ==> bare =~= "F4"@ && long =~= "VK_F4"@);
    assert(n == 5 ==> bare =~= "F5"@ && long =~= "VK_F5"@);
    assert(n == 6 ==> bare =~= "F6"@ && long =~= "VK_F6"@);
    assert(n == 7 ==> bare =~= "F7"@ && long =~= "VK_F7"@);
    assert(n == 8 ==> bare =~= "F8"@ && long =~= "VK_F8"@);
    assert(n == 9 ==> bare =~= "F9"@ && long =~= "VK_F9"@);
    assert(n == 10 ==> bare =~= "F10"@ && long =~= "VK_F10"@);
    assert(n == 11 ==> bare =~= "F11"@ && long =~= "VK_F11"@);
    assert(n == 12 ==> bare =~= "F12"@ && long =~= "VK_F12"@);
}

proof fn lemma_small_decimal(n: nat)
    requires
        1 <= n <= 12,
    ensures
        n < 10 ==> text::decimal(n) == seq![text::digit_char(n as int)],
        n >= 10 ==> text::decimal(n) == seq!['1', text::digit_char(n - 10)],
{
    reveal_with_fuel(text::numeral, 3);
    assert(n >= 10 ==> text::decimal(n) =~= seq!['1', text::digit_char(n - 10)]);
}

/// The names of the modifiers are keys that are those modifiers, and the names of the keys that a
/// layout can send are their keys.
pub proof fn law_names_agree_with_the_keys()
    ensures
        hook::modifier_of((vk::keycode_of("Shift"@)->0).0) == Some(ModifierKey::Shift),
        hook::modifier_of((vk::keycode_of("Ctrl"@)->0).0) == Some(ModifierKey::Ctrl),
        hook::modifier_of((vk::keycode_of("Control"@)->0).0) == Some(ModifierKey::Ctrl),
        hook::modifier_of((vk::keycode_of("Alt"@)->0).0) == Some(ModifierKey::Alt),
        vk::keycode_of("VK_SHIFT"@) == vk::keycode_of("Shift"@),
        vk::keycode_of("VK_LSHIFT"@) == vk::keycode_of("Shift"@),
        vk::keycode_of("VK_CONTROL"@) == vk::keycode_of("Ctrl"@),
        vk::keycode_of("VK_LCONTROL"@) == vk::keycode_of("Ctrl"@),
        vk::keycode_of("VK_MENU"@) == vk::keycode_of("Alt"@),
        vk::keycode_of("VK_LMENU"@) == vk::keycode_of("Alt"@),
        vk::keycode_of("Shift"@) == Some(VkCode(output::KEYCODE_SHIFT)),
        vk::keycode_of("Alt"@) == Some(VkCode(output::KEYCODE_OPTION)),
        vk::keycode_of("Ctrl"@) is Some,
        vk::keycode_of("Control"@) is Some,
        vk::keycode_of("Backspace"@) == Some(VkCode(output::special_keycode(SpecialKey::Backspace))),
        vk::keycode_of("VK_BACK"@) == vk::keycode_of("Backspace"@),
        vk::keycode_of("Enter"@) == Some(VkCode(output::special_keycode(SpecialKey::Enter))),
        vk::keycode_of("VK_RETURN"@) == vk::keycode_of("Enter"@),
        vk::keycode_of("Space"@) == Some(VkCode(output::special_keycode(SpecialKey::Space))),
        vk::keycode_of("VK_SPACE"@) == vk::keycode_of("Space"@),
        vk::keycode_of("Escape"@) == Some(VkCode(output::special_keycode(SpecialKey::Escape))),
        vk::keycode_of("VK_ESCAPE"@) == vk::keycode_of("Escape"@),
        vk::keycode_of("Delete"@) == Some(VkCode(output::special_keycode(SpecialKey::Delete))),
        vk::keycode_of("VK_DELETE"@) == vk::keycode_of("Delete"@),
        vk::keycode_of("VK_TAB"@) == vk::keycode_of("Tab"@),
        vk::keycode_of("Tab"@) is Some,
        scanmap::pos_of((vk::keycode_of("Tab"@)->0).0) is None,
        hook::modifier_of((vk::keycode_of("Tab"@)->0).0) is None,
{
    lemma_names_differ();
}

/// The muhenkan key is the one that switches the IME off, and the henkan key the one that switches it
/// on, by whichever name.
pub proof fn law_conversion_keys_are_the_switch_keys()
    ensures
        vk::keycode_of("無変換"@) == Some(VkCode(hook::KEYCODE_EISU)),
        vk::keycode_of("英数"@) == vk::keycode_of("無変換"@),
        vk::keycode_of("Nonconvert"@) == vk::keycode_of("無変換"@),
        vk::keycode_of("VK_NONCONVERT"@) == vk::keycode_of("無変換"@),
        vk::keycode_of("VK_MUHENKAN"@) == vk::keycode_of("無変換"@),
        vk::keycode_of("変換"@) == Some(VkCode(hook::KEYCODE_KANA)),
        vk::keycode_of("かな"@) == vk::keycode_of("変換"@),
        vk::keycode_of("Convert"@) == vk::keycode_of("変換"@),
        vk::keycode_of("VK_CONVERT"@) == vk::keycode_of("変換"@),
        vk::keycode_of("Kana"@) == vk::keycode_of("変換"@),
        vk::keycode_of("VK_KANA"@) == vk::keycode_of("変換"@),
{
    lemma_names_differ();
}

/// The codes that names stand for, each once, and the names that stand for the same key only where
/// they are spellings of one name.
pub open spec fn named_codes() -> Seq<u16> {
    row_codes(0).subrange(0, 10) + row_codes(1).subrange(0, 10) + row_codes(2).subrange(0, 9)
        + row_codes(3).subrange(0, 7) + function_codes()
}

/// No two of the letters, digits and function keys share a key, and none is a modifier or a key that
/// switches the IME.
pub proof fn law_named_keys_are_distinct(i: int, j: int)
    requires
        0 <= i < named_codes().len(),
        0 <= j < named_codes().len(),
        named_codes()[i] == named_codes()[j],
    ensures
        i == j,
        hook::modifier_of(named_codes()[i]) is None,
        !hook::is_switch_key(named_codes()[i]),
{
}

/// The names are of different lengths or differ in a character.
proof fn lemma_names_differ()
    ensures
        "Nonconvert"@.len() == 10,
        "VK_NONCONVERT"@.len() == 13,
        "VK_MUHENKAN"@.len() == 11,
        "無変換"@.len() == 3,
        "英数"@.len() == 2,
        "Convert"@.len() == 7,
        "VK_CONVERT"@.len() == 10,
        "Kana"@.len() == 4,
        "VK_KANA"@.len() == 7,
        "変換"@.len() == 2,
        "かな"@.len() == 2,
        "A"@.len() == 1,
        "VK_A"@.len() == 4,
        "S"@.len() == 1,
        "VK_S"@.len() == 4,
        "D"@.len() == 1,
        "VK_D"@.len() == 4,
        "F"@.len() == 1,
        "VK_F"@.len() == 4,
        "H"@.len() == 1,
        "VK_H"@.len() == 4,
        "G"@.len() == 1,
        "VK_G"@.len() == 4,
        "Z"@.len() == 1,
        "VK_Z"@.len() == 4,
        "X"@.len() == 1,
        "VK_X"@.len() == 4,
        "C"@.len() == 1,
        "VK_C"@.len() == 4,
        "V"@.len() == 1,
        "VK_V"@.len() == 4,
        "B"@.len() == 1,
        "VK_B"@.len() == 4,
        "Q"@.len() == 1,
        "VK_Q"@.len() == 4,
        "W"@.len() == 1,
        "VK_W"@.len() == 4,
        "E"@.len() == 1,
        "VK_E"@.len() == 4,
        "R"@.len() == 1,
        "VK_R"@.len() == 4,
        "Y"@.len() == 1,
        "VK_Y"@.len() == 4,
        "T"@.len() == 1,
        "VK_T"@.len() == 4,
        "O"@.len() == 1,
        "VK_O"@.len() == 4,
        "U"@.len() == 1,
        "VK_U"@.len() == 4,
        "I"@.len() == 1,
        "VK_I"@.len() == 4,
        "P"@.len() == 1,
        "VK_P"@.len() == 4,
        "L"@.len() == 1,
        "VK_L"@.len() == 4,
        "J"@.len() == 1,
        "VK_J"@.len() == 4,
        "K"@.len() == 1,
        "VK_K"@.len() == 4,
        "N"@.len() == 1,
        "VK_N"@.len() == 4,
        "M"@.len() == 1,
        "VK_M"@.len() == 4,
        "1"@.len() == 1,
        "VK_1"@.len() == 4,
        "2"@.len() == 1,
        "VK_2"@.len() == 4,
        "3"@.len() == 1,
        "VK_3"@.len() == 4,
        "4"@.len() == 1,
        "VK_4"@.len() == 4,
        "5"@.len() == 1,
        "VK_5"@.len() == 4,
        "6"@.len() == 1,
        "VK_6"@.len() == 4,
        "7"@.len() == 1,
        "VK_7"@.len() == 4,
        "8"@.len() == 1,
        "VK_8"@.len() == 4,
        "9"@.len() == 1,
        "VK_9"@.len() == 4,
        "0"@.len() == 1,
        "VK_0"@.len() == 4,
        "Backspace"@.len() == 9,
        "VK_BACK"@.len() == 7,
        "Enter"@.len() == 5,
        "VK_RETURN"@.len() == 9,
        "Space"@.len() == 5,
        "VK_SPACE"@.len() == 8,
        "Escape"@.len() == 6,
        "VK_ESCAPE"@.len() == 9,
        "Delete"@.len() == 6,
        "VK_DELETE"@.len() == 9,
        "Tab"@.len() == 3,
        "VK_TAB"@.len() == 6,
        "F1"@.len() == 2,
        "VK_F1"@.len() == 5,
        "F2"@.len() == 2,
        "VK_F2"@.len() == 5,
        "F3"@.len() == 2,
        "VK_F3"@.len() == 5,
        "F4"@.len() == 2,
        "VK_F4"@.len() == 5,
        "F5"@.len() == 2,
        "VK_F5"@.len() == 5,
        "F6"@.len() == 2,
        "VK_F6"@.len() == 5,
        "F7"@.len() == 2,
        "VK_F7"@.len() == 5,
        "F8"@.len() == 2,
        "VK_F8"@.len() == 5,
        "F9"@.len() == 2,
        "VK_F9"@.len() == 5,
        "F10"@.len() == 3,
        "VK_F10"@.len() == 6,
        "F11"@.len() == 3,
        "VK_F11"@.len() == 6,
        "F12"@.len() == 3,
        "VK_F12"@.len() == 6,
        "Shift"@.len() == 5,
        "VK_SHIFT"@.len() == 8,
        "VK_LSHIFT"@.len() == 9,
        "Ctrl"@.len() == 4,
        "Control"@.len() == 7,
        "VK_CONTROL"@.len() == 10,
        "VK_LCONTROL"@.len() == 11,
        "Alt"@.len() == 3,
        "VK_MENU"@.len() == 7,
        "VK_LMENU"@.len() == 8,
        "F1"@ != "英数"@,
        "F1"@ != "変換"@,
        "F1"@ != "かな"@,
        "F2"@ != "英数"@,
        "F2"@ != "変換"@,
        "F2"@ != "かな"@,
        "F2"@ != "F1"@,
        "F3"@ != "英数"@,
        "F3"@ != "変換"@,
        "F3"@ != "かな"@,
        "F3"@ != "F1"@,
        "F3"@ != "F2"@,
        "F4"@ != "英数"@,
        "F4"@ != "変換"@,
        "F4"@ != "かな"@,
        "F4"@ != "F1"@,
        "F4"@ != "F2"@,
        "F4"@ != "F3"@,
        "F5"@ != "英数"@,
        "F5"@ != "変換"@,
        "F5"@ != "かな"@,
        "F5"@ != "F1"@,
        "F5"@ != "F2"@,
        "F5"@ != "F3"@,
        "F5"@ != "F4"@,
        "F6"@ != "英数"@,
        "F6"@ != "変換"@,
        "F6"@ != "かな"@,
        "F6"@ != "F1"@,
        "F6"@ != "F2"@,
        "F6"@ != "F3"@,
        "F6"@ != "F4"@,
        "F6"@ != "F5"@,
        "F7"@ != "英数"@,
        "F7"@ != "変換"@,
        "F7"@ != "かな"@,
        "F7"@ != "F1"@,
        "F7"@ != "F2"@,
        "F7"@ != "F3"@,
        "F7"@ != "F4"@,
        "F7"@ != "F5"@,
        "F7"@ != "F6"@,
        "F8"@ != "英数"@,
        "F8"@ != "変換"@,
        "F8"@ != "かな"@,
        "F8"@ != "F1"@,
        "F8"@ != "F2"@,
        "F8"@ != "F3"@,
        "F8"@ != "F4"@,
        "F8"@ != "F5"@,
        "F8"@ != "F6"@,
        "F8"@ != "F7"@,
        "F9"@ != "英数"@,
        "F9"@ != "変換"@,
        "F9"@ != "かな"@,
        "F9"@ != "F1"@,
        "F9"@ != "F2"@,
        "F9"@ != "F3"@,
        "F9"@ != "F4"@,
        "F9"@ != "F5"@,
        "F9"@ != "F6"@,
        "F9"@ != "F7"@,
        "F9"@ != "F8"@,
        "F10"@ != "無変換"@,
        "F10"@ != "Tab"@,
        "F11"@ != "無変換"@,
        "F11"@ != "Tab"@,
        "F11"@ != "F10"@,
        "F12"@ != "無変換"@,
        "F12"@ != "Tab"@,
        "F12"@ != "F10"@,
        "F12"@ != "F11"@,
        "VK_F1"@ != "Enter"@,
        "VK_F1"@ != "Space"@,
        "VK_F2"@ != "Enter"@,
        "VK_F2"@ != "Space"@,
        "VK_F2"@ != "VK_F1"@,
        "VK_F3"@ != "Enter"@,
        "VK_F3"@ != "Space"@,
        "VK_F3"@ != "VK_F1"@,
        "VK_F3"@ != "VK_F2"@,
        "VK_F4"@ != "Enter"@,
        "VK_F4"@ != "Space"@,
        "VK_F4"@ != "VK_F1"@,
        "VK_F4"@ != "VK_F2"@,
        "VK_F4"@ != "VK_F3"@,
        "VK_F5"@ != "Enter"@,
        "VK_F5"@ != "Space"@,
        "VK_F5"@ != "VK_F1"@,
        "VK_F5"@ != "VK_F2"@,
        "VK_F5"@ != "VK_F3"@,
        "VK_F5"@ != "VK_F4"@,
        "VK_F6"@ != "Enter"@,
        "VK_F6"@ != "Space"@,
        "VK_F6"@ != "VK_F1"@,
        "VK_F6"@ != "VK_F2"@,
        "VK_F6"@ != "VK_F3"@,
        "VK_F6"@ != "VK_F4"@,
        "VK_F6"@ != "VK_F5"@,
        "VK_F7"@ != "Enter"@,
        "VK_F7"@ != "Space"@,
        "VK_F7"@ != "VK_F1"@,
        "VK_F7"@ != "VK_F2"@,
        "VK_F7"@ != "VK_F3"@,
        "VK_F7"@ != "VK_F4"@,
        "VK_F7"@ != "VK_F5"@,
        "VK_F7"@ != "VK_F6"@,
        "VK_F8"@ != "Enter"@,
        "VK_F8"@ != "Space"@,
        "VK_F8"@ != "VK_F1"@,
        "VK_F8"@ != "VK_F2"@,
        "VK_F8"@ != "VK_F3"@,
        "VK_F8"@ != "VK_F4"@,
        "VK_F8"@ != "VK_F5"@,
        "VK_F8"@ != "VK_F6"@,
        "VK_F8"@ != "VK_F7"@,
        "VK_F9"@ != "Enter"@,
        "VK_F9"@ != "Space"@,
        "VK_F9"@ != "VK_F1"@,
        "VK_F9"@ != "VK_F2"@,
        "VK_F9"@ != "VK_F3"@,
        "VK_F9"@ != "VK_F4"@,
        "VK_F9"@ != "VK_F5"@,
        "VK_F9"@ != "VK_F6"@,
        "VK_F9"@ != "VK_F7"@,
        "VK_F9"@ != "VK_F8"@,
        "VK_F10"@ != "Escape"@,
        "VK_F10"@ != "Delete"@,
        "VK_F10"@ != "VK_TAB"@,
        "VK_F11"@ != "Escape"@,
        "VK_F11"@ != "Delete"@,
        "VK_F11"@ != "VK_TAB"@,
        "VK_F11"@ != "VK_F10"@,
        "VK_F12"@ != "Escape"@,
        "VK_F12"@ != "Delete"@,
        "VK_F12"@ != "VK_TAB"@,
        "VK_F12"@ != "VK_F10"@,
        "VK_F12"@ != "VK_F11"@,
        "Shift"@ != "Enter"@,
        "Shift"@ != "Space"@,
        "Shift"@ != "VK_F1"@,
        "Shift"@ != "VK_F2"@,
        "Shift"@ != "VK_F3"@,
        "Shift"@ != "VK_F4"@,
        "Shift"@ != "VK_F5"@,
        "Shift"@ != "VK_F6"@,
        "Shift"@ != "VK_F7"@,
        "Shift"@ != "VK_F8"@,
        "Shift"@ != "VK_F9"@,
        "Ctrl"@ != "Kana"@,
        "Ctrl"@ != "VK_A"@,
        "Ctrl"@ != "VK_S"@,
        "Ctrl"@ != "VK_D"@,
        "Ctrl"@ != "VK_F"@,
        "Ctrl"@ != "VK_H"@,
        "Ctrl"@ != "VK_G"@,
        "Ctrl"@ != "VK_Z"@,
        "Ctrl"@ != "VK_X"@,
        "Ctrl"@ != "VK_C"@,
        "Ctrl"@ != "VK_V"@,
        "Ctrl"@ != "VK_B"@,
        "Ctrl"@ != "VK_Q"@,
        "Ctrl"@ != "VK_W"@,
        "Ctrl"@ != "VK_E"@,
        "Ctrl"@ != "VK_R"@,
        "Ctrl"@ != "VK_Y"@,
        "Ctrl"@ != "VK_T"@,
        "Ctrl"@ != "VK_O"@,
        "Ctrl"@ != "VK_U"@,
        "Ctrl"@ != "VK_I"@,
        "Ctrl"@ != "VK_P"@,
        "Ctrl"@ != "VK_L"@,
        "Ctrl"@ != "VK_J"@,
        "Ctrl"@ != "VK_K"@,
        "Ctrl"@ != "VK_N"@,
        "Ctrl"@ != "VK_M"@,
        "Ctrl"@ != "VK_1"@,
        "Ctrl"@ != "VK_2"@,
        "Ctrl"@ != "VK_3"@,
        "Ctrl"@ != "VK_4"@,
        "Ctrl"@ != "VK_5"@,
        "Ctrl"@ != "VK_6"@,
        "Ctrl"@ != "VK_7"@,
        "Ctrl"@ != "VK_8"@,
        "Ctrl"@ != "VK_9"@,
        "Ctrl"@ != "VK_0"@,
        "Control"@ != "Convert"@,
        "Control"@ != "VK_KANA"@,
        "Control"@ != "VK_BACK"@,
        "Alt"@ != "無変換"@,
        "Alt"@ != "Tab"@,
        "Alt"@ != "F10"@,
        "Alt"@ != "F11"@,
        "Alt"@ != "F12"@,
        "VK_SHIFT"@ != "VK_SPACE"@,
        "VK_LSHIFT"@ != "Backspace"@,
        "VK_LSHIFT"@ != "VK_RETURN"@,
        "VK_LSHIFT"@ != "VK_ESCAPE"@,
        "VK_LSHIFT"@ != "VK_DELETE"@,
        "VK_CONTROL"@ != "Nonconvert"@,
        "VK_CONTROL"@ != "VK_CONVERT"@,
        "VK_LCONTROL"@ != "VK_MUHENKAN"@,
        "VK_MENU"@ != "Convert"@,
        "VK_MENU"@ != "VK_KANA"@,
        "VK_MENU"@ != "VK_BACK"@,
        "VK_MENU"@ != "Control"@,
        "VK_LMENU"@ != "VK_SPACE"@,
        "VK_LMENU"@ != "VK_SHIFT"@,
        "VK_BACK"@ != "Convert"@,
        "VK_BACK"@ != "VK_KANA"@,
        "VK_RETURN"@ != "Backspace"@,
        "Space"@ != "Enter"@,
        "VK_ESCAPE"@ != "Backspace"@,
        "VK_ESCAPE"@ != "VK_RETURN"@,
        "Delete"@ != "Escape"@,
        "VK_DELETE"@ != "Backspace"@,
        "VK_DELETE"@ != "VK_RETURN"@,
        "VK_DELETE"@ != "VK_ESCAPE"@,
        "Tab"@ != "無変換"@,
        "VK_TAB"@ != "Escape"@,
        "VK_TAB"@ != "Delete"@,
        "変換"@ != "英数"@,
        "かな"@ != "英数"@,
        "かな"@ != "変換"@,
        "VK_CONVERT"@ != "Nonconvert"@,
        "VK_KANA"@ != "Convert"@,
{
    reveal_strlit("Nonconvert");
    reveal_strlit("VK_NONCONVERT");
    reveal_strlit("VK_MUHENKAN");
    reveal_strlit("無変換");
    reveal_strlit("英数");
    reveal_strlit("Convert");
    reveal_strlit("VK_CONVERT");
    reveal_strlit("Kana");
    reveal_strlit("VK_KANA");
    reveal_strlit("変換");
    reveal_strlit("かな");
    reveal_strlit("A");
    reveal_strlit("VK_A");
    reveal_strlit("S");
    reveal_strlit("VK_S");
    reveal_strlit("D");
    reveal_strlit("VK_D");
    reveal_strlit("F");
    reveal_strlit("VK_F");
    reveal_strlit("H");
    reveal_strlit("VK_H");
    reveal_strlit("G");
    reveal_strlit("VK_G");
    reveal_strlit("Z");
    reveal_strlit("VK_Z");
    reveal_strlit("X");
    reveal_strlit("VK_X");
    reveal_strlit("C");
    reveal_strlit("VK_C");
    reveal_strlit("V");
    reveal_strlit("VK_V");
    reveal_strlit("B");
    reveal_strlit("VK_B");
    reveal_strlit("Q");
    reveal_strlit("VK_Q");
    reveal_strlit("W");
    reveal_strlit("VK_W");
    reveal_strlit("E");
    reveal_strlit("VK_E");
    reveal_strlit("R");
    reveal_strlit("VK_R");
    reveal_strlit("Y");
    reveal_strlit("VK_Y");
    reveal_strlit("T");
    reveal_strlit("VK_T");
    reveal_strlit("O");
    reveal_strlit("VK_O");
    reveal_strlit("U");
    reveal_strlit("VK_U");
    reveal_strlit("I");
    reveal_strlit("VK_I");
    reveal_strlit("P");
    reveal_strlit("VK_P");
    reveal_strlit("L");
    reveal_strlit("VK_L");
    reveal_strlit("J");
    reveal_strlit("VK_J");
    reveal_strlit("K");
    reveal_strlit("VK_K");
    reveal_strlit("N");
    reveal_strlit("VK_N");
    reveal_strlit("M");
    reveal_strlit("VK_M");
    reveal_strlit("1");
    reveal_strlit("VK_1");
    reveal_strlit("2");
    reveal_strlit("VK_2");
    reveal_strlit("3");
    reveal_strlit("VK_3");
    reveal_strlit("4");
    reveal_strlit("VK_4");
    reveal_strlit("5");
    reveal_strlit("VK_5");
    reveal_strlit("6");
    reveal_strlit("VK_6");
    reveal_strlit("7");
    reveal_strlit("VK_7");
    reveal_strlit("8");
    reveal_strlit("VK_8");
    reveal_strlit("9");
    reveal_strlit("VK_9");
    reveal_strlit("0");
    reveal_strlit("VK_0");
    reveal_strlit("Backspace");
    reveal_strlit("VK_BACK");
    reveal_strlit("Enter");
    reveal_strlit("VK_RETURN");
    reveal_strlit("Space");
    reveal_strlit("VK_SPACE");
    reveal_strlit("Escape");
    reveal_strlit("VK_ESCAPE");
    reveal_strlit("Delete");
    reveal_strlit("VK_DELETE");
    reveal_strlit("Tab");
    reveal_strlit("VK_TAB");
    reveal_strlit("F1");
    reveal_strlit("VK_F1");
    reveal_strlit("F2");
    reveal_strlit("VK_F2");
    reveal_strlit("F3");
    reveal_strlit("VK_F3");
    reveal_strlit("F4");
    reveal_strlit("VK_F4");
    reveal_strlit("F5");
    reveal_strlit("VK_F5");
    reveal_strlit("F6");
    reveal_strlit("VK_F6");
    reveal_strlit("F7");
    reveal_strlit("VK_F7");
    reveal_strlit("F8");
    reveal_strlit("VK_F8");
    reveal_strlit("F9");
    reveal_strlit("VK_F9");
    reveal_strlit("F10");
    reveal_strlit("VK_F10");
    reveal_strlit("F11");
    reveal_strlit("VK_F11");
    reveal_strlit("F12");
    reveal_strlit("VK_F12");
    reveal_strlit("Shift");
    reveal_strlit("VK_SHIFT");
    reveal_strlit("VK_LSHIFT");
    reveal_strlit("Ctrl");
    reveal_strlit("Control");
    reveal_strlit("VK_CONTROL");
    reveal_strlit("VK_LCONTROL");
    reveal_strlit("Alt");
    reveal_strlit("VK_MENU");
    reveal_strlit("VK_LMENU");
    assert("F1"@[0] != "英数"@[0]);
    assert("F1"@[0] != "変換"@[0]);
    assert("F1"@[0] != "かな"@[0]);
    assert("F2"@[0] != "英数"@[0]);
    assert("F2"@[0] != "変換"@[0]);
    assert("F2"@[0] != "かな"@[0]);
    assert("F2"@[1] != "F1"@[1]);
    assert("F3"@[0] != "英数"@[0]);
    assert("F3"@[0] != "変換"@[0]);
    assert("F3"@[0] != "かな"@[0]);
    assert("F3"@[1] != "F1"@[1]);
    assert("F3"@[1] != "F2"@[1]);
    assert("F4"@[0] != "英数"@[0]);
    assert("F4"@[0] != "変換"@[0]);
    assert("F4"@[0] != "かな"@[0]);
    assert("F4"@[1] != "F1"@[1]);
    assert("F4"@[1] != "F2"@[1]);
    assert("F4"@[1] != "F3"@[1]);
    assert("F5"@[0] != "英数"@[0]);
    assert("F5"@[0] != "変換"@[0]);
    assert("F5"@[0] != "かな"@[0]);
    assert("F5"@[1] != "F1"@[1]);
    assert("F5"@[1] != "F2"@[1]);
    assert("F5"@[1] != "F3"@[1]);
    assert("F5"@[1] != "F4"@[1]);
    assert("F6"@[0] != "英数"@[0]);
    assert("F6"@[0] != "変換"@[0]);
    assert("F6"@[0] != "かな"@[0]);
    assert("F6"@[1] != "F1"@[1]);
    assert("F6"@[1] != "F2"@[1]);
    assert("F6"@[1] != "F3"@[1]);
    assert("F6"@[1] != "F4"@[1]);
    assert("F6"@[1] != "F5"@[1]);
    assert("F7"@[0] != "英数"@[0]);
    assert("F7"@[0] != "変換"@[0]);
    assert("F7"@[0] != "かな"@[0]);
    assert("F7"@[1] != "F1"@[1]);
    assert("F7"@[1] != "F2"@[1]);
    assert("F7"@[1] != "F3"@[1]);
    assert("F7"@[1] != "F4"@[1]);
    assert("F7"@[1] != "F5"@[1]);
    assert("F7"@[1] != "F6"@[1]);
    assert("F8"@[0] != "英数"@[0]);
    assert("F8"@[0] != "変換"@[0]);
    assert("F8"@[0] != "かな"@[0]);
    assert("F8"@[1] != "F1"@[1]);
    assert("F8"@[1] != "F2"@[1]);
    assert("F8"@[1] != "F3"@[1]);
    assert("F8"@[1] != "F4"@[1]);
    assert("F8"@[1] != "F5"@[1]);
    assert("F8"@[1] != "F6"@[1]);
    assert("F8"@[1] != "F7"@[1]);
    assert("F9"@[0] != "英数"@[0]);
    assert("F9"@[0] != "変換"@[0]);
    assert("F9"@[0] != "かな"@[0]);
    assert("F9"@[1] != "F1"@[1]);
    assert("F9"@[1] != "F2"@[1]);
    assert("F9"@[1] != "F3"@[1]);
    assert("F9"@[1] != "F4"@[1]);
    assert("F9"@[1] != "F5"@[1]);
    assert("F9"@[1] != "F6"@[1]);
    assert("F9"@[1] != "F7"@[1]);
    assert("F9"@[1] != "F8"@[1]);
    assert("F10"@[0] != "無変換"@[0]);
    assert("F10"@[0] != "Tab"@[0]);
    assert("F11"@[0] != "無変換"@[0]);
    assert("F11"@[0] != "Tab"@[0]);
    assert("F11"@[2] != "F10"@[2]);
    assert("F12"@[0] != "無変換"@[0]);
    assert("F12"@[0] != "Tab"@[0]);
    assert("F12"@[2] != "F10"@[2]);
    assert("F12"@[2] != "F11"@[2]);
    assert("VK_F1"@[0] != "Enter"@[0]);
    assert("VK_F1"@[0] != "Space"@[0]);
    assert("VK_F2"@[0] != "Enter"@[0]);
    assert("VK_F2"@[0] != "Space"@[0]);
    assert("VK_F2"@[4] != "VK_F1"@[4]);
    assert("VK_F3"@[0] != "Enter"@[0]);
    assert("VK_F3"@[0] != "Space"@[0]);
    assert("VK_F3"@[4] != "VK_F1"@[4]);
    assert("VK_F3"@[4] != "VK_F2"@[4]);
    assert("VK_F4"@[0] != "Enter"@[0]);
    assert("VK_F4"@[0] != "Space"@[0]);
    assert("VK_F4"@[4] != "VK_F1"@[4]);
    assert("VK_F4"@[4] != "VK_F2"@[4]);
    assert("VK_F4"@[4] != "VK_F3"@[4]);
    assert("VK_F5"@[0] != "Enter"@[0]);
    assert("VK_F5"@[0] != "Space"@[0]);
    assert("VK_F5"@[4] != "VK_F1"@[4]);
    assert("VK_F5"@[4] != "VK_F2"@[4]);
    assert("VK_F5"@[4] != "VK_F3"@[4]);
    assert("VK_F5"@[4] != "VK_F4"@[4]);
    assert("VK_F6"@[0] != "Enter"@[0]);
    assert("VK_F6"@[0] != "Space"@[0]);
    assert("VK_F6"@[4] != "VK_F1"@[4]);
    assert("VK_F6"@[4] != "VK_F2"@[4]);
    assert("VK_F6"@[4] != "VK_F3"@[4]);
    assert("VK_F6"@[4] != "VK_F4"@[4]);
    assert("VK_F6"@[4] != "VK_F5"@[4]);
    assert("VK_F7"@[0] != "Enter"@[0]);
    assert("VK_F7"@[0] != "Space"@[0]);
    assert("VK_F7"@[4] != "VK_F1"@[4]);
    assert("VK_F7"@[4] != "VK_F2"@[4]);
    assert("VK_F7"@[4] != "VK_F3"@[4]);
    assert("VK_F7"@[4] != "VK_F4"@[4]);
    assert("VK_F7"@[4] != "VK_F5"@[4]);
    assert("VK_F7"@[4] != "VK_F6"@[4]);
    assert("VK_F8"@[0] != "Enter"@[0]);
    assert("VK_F8"@[0] != "Space"@[0]);
    assert("VK_F8"@[4] != "VK_F1"@[4]);
    assert("VK_F8"@[4] != "VK_F2"@[4]);
    assert("VK_F8"@[4] != "VK_F3"@[4]);
    assert("VK_F8"@[4] != "VK_F4"@[4]);
    assert("VK_F8"@[4] != "VK_F5"@[4]);
    assert("VK_F8"@[4] != "VK_F6"@[4]);
    assert("VK_F8"@[4] != "VK_F7"@[4]);
    assert("VK_F9"@[0] != "Enter"@[0]);
    assert("VK_F9"@[0] != "Space"@[0]);
    assert("VK_F9"@[4] != "VK_F1"@[4]);
    assert("VK_F9"@[4] != "VK_F2"@[4]);
    assert("VK_F9"@[4] != "VK_F3"@[4]);
    assert("VK_F9"@[4] != "VK_F4"@[4]);
    assert("VK_F9"@[4] != "VK_F5"@[4]);
    assert("VK_F9"@[4] != "VK_F6"@[4]);
    assert("VK_F9"@[4] != "VK_F7"@[4]);
    assert("VK_F9"@[4] != "VK_F8"@[4]);
    assert("VK_F10"@[0] != "Escape"@[0]);
    assert("VK_F10"@[0] != "Delete"@[0]);
    assert("VK_F10"@[3] != "VK_TAB"@[3]);
    assert("VK_F11"@[0] != "Escape"@[0]);
    assert("VK_F11"@[0] != "Delete"@[0]);
    assert("VK_F11"@[3] != "VK_TAB"@[3]);
    assert("VK_F11"@[5] != "VK_F10"@[5]);
    assert("VK_F12"@[0] != "Escape"@[0]);
    assert("VK_F12"@[0] != "Delete"@[0]);
    assert("VK_F12"@[3] != "VK_TAB"@[3]);
    assert("VK_F12"@[5] != "VK_F10"@[5]);
    assert("VK_F12"@[5] != "VK_F11"@[5]);
    assert("Shift"@[0] != "Enter"@[0]);
    assert("Shift"@[1] != "Space"@[1]);
    assert("Shift"@[0] != "VK_F1"@[0]);
    assert("Shift"@[0] != "VK_F2"@[0]);
    assert("Shift"@[0] != "VK_F3"@[0]);
    assert("Shift"@[0] != "VK_F4"@[0]);
    assert("Shift"@[0] != "VK_F5"@[0]);
    assert("Shift"@[0] != "VK_F6"@[0]);
    assert("Shift"@[0] != "VK_F7"@[0]);
    assert("Shift"@[0] != "VK_F8"@[0]);
    assert("Shift"@[0] != "VK_F9"@[0]);
    assert("Ctrl"@[0] != "Kana"@[0]);
    assert("Ctrl"@[0] != "VK_A"@[0]);
    assert("Ctrl"@[0] != "VK_S"@[0]);
    assert("Ctrl"@[0] != "VK_D"@[0]);
    assert("Ctrl"@[0] != "VK_F"@[0]);
    assert("Ctrl"@[0] != "VK_H"@[0]);
    assert("Ctrl"@[0] != "VK_G"@[0]);
    assert("Ctrl"@[0] != "VK_Z"@[0]);
    assert("Ctrl"@[0] != "VK_X"@[0]);
    assert("Ctrl"@[0] != "VK_C"@[0]);
    assert("Ctrl"@[0] != "VK_V"@[0]);
    assert("Ctrl"@[0] != "VK_B"@[0]);
    assert("Ctrl"@[0] != "VK_Q"@[0]);
    assert("Ctrl"@[0] != "VK_W"@[0]);
    assert("Ctrl"@[0] != "VK_E"@[0]);
    assert("Ctrl"@[0] != "VK_R"@[0]);
    assert("Ctrl"@[0] != "VK_Y"@[0]);
    assert("Ctrl"@[0] != "VK_T"@[0]);
    assert("Ctrl"@[0] != "VK_O"@[0]);
    assert("Ctrl"@[0] != "VK_U"@[0]);
    assert("Ctrl"@[0] != "VK_I"@[0]);
    assert("Ctrl"@[0] != "VK_P"@[0]);
    assert("Ctrl"@[0] != "VK_L"@[0]);
    assert("Ctrl"@[0] != "VK_J"@[0]);
    assert("Ctrl"@[0] != "VK_K"@[0]);
    assert("Ctrl"@[0] != "VK_N"@[0]);
    assert("Ctrl"@[0] != "VK_M"@[0]);
    assert("Ctrl"@[0] != "VK_1"@[0]);
    assert("Ctrl"@[0] != "VK_2"@[0]);
    assert("Ctrl"@[0] != "VK_3"@[0]);
    assert("Ctrl"@[0] != "VK_4"@[0]);
    assert("Ctrl"@[0] != "VK_5"@[0]);
    assert("Ctrl"@[0] != "VK_6"@[0]);
    assert("Ctrl"@[0] != "VK_7"@[0]);
    assert("Ctrl"@[0] != "VK_8"@[0]);
    assert("Ctrl"@[0] != "VK_9"@[0]);
    assert("Ctrl"@[0] != "VK_0"@[0]);
    assert("Control"@[3] != "Convert"@[3]);
    assert("Control"@[0] != "VK_KANA"@[0]);
    assert("Control"@[0] != "VK_BACK"@[0]);
    assert("Alt"@[0] != "無変換"@[0]);
    assert("Alt"@[0] != "Tab"@[0]);
    assert("Alt"@[0] != "F10"@[0]);
    assert("Alt"@[0] != "F11"@[0]);
    assert("Alt"@[0] != "F12"@[0]);
    assert("VK_SHIFT"@[4] != "VK_SPACE"@[4]);
    assert("VK_LSHIFT"@[0] != "Backspace"@[0]);
    assert("VK_LSHIFT"@[3] != "VK_RETURN"@[3]);
    assert("VK_LSHIFT"@[3] != "VK_ESCAPE"@[3]);
    assert("VK_LSHIFT"@[3] != "VK_DELETE"@[3]);
    assert("VK_CONTROL"@[0] != "Nonconvert"@[0]);
    assert("VK_CONTROL"@[6] != "VK_CONVERT"@[6]);
    assert("VK_LCONTROL"@[3] != "VK_MUHENKAN"@[3]);
    assert("VK_MENU"@[0] != "Convert"@[0]);
    assert("VK_MENU"@[3] != "VK_KANA"@[3]);
    assert("VK_MENU"@[3] != "VK_BACK"@[3]);
    assert("VK_MENU"@[0] != "Control"@[0]);
    assert("VK_LMENU"@[3] != "VK_SPACE"@[3]);
    assert("VK_LMENU"@[3] != "VK_SHIFT"@[3]);
    assert("VK_BACK"@[0] != "Convert"@[0]);
    assert("VK_BACK"@[3] != "VK_KANA"@[3]);
    assert("VK_RETURN"@[0] != "Backspace"@[0]);
    assert("Space"@[0] != "Enter"@[0]);
    assert("VK_ESCAPE"@[0] != "Backspace"@[0]);
    assert("VK_ESCAPE"@[3] != "VK_RETURN"@[3]);
    assert("Delete"@[0] != "Escape"@[0]);
    assert("VK_DELETE"@[0] != "Backspace"@[0]);
    assert("VK_DELETE"@[3] != "VK_RETURN"@[3]);
    assert("VK_DELETE"@[3] != "VK_ESCAPE"@[3]);
    assert("Tab"@[0] != "無変換"@[0]);
    assert("VK_TAB"@[0] != "Escape"@[0]);
    assert("VK_TAB"@[0] != "Delete"@[0]);
    assert("変換"@[0] != "英数"@[0]);
    assert("かな"@[0] != "英数"@[0]);
    assert("かな"@[0] != "変換"@[0]);
    assert("VK_CONVERT"@[0] != "Nonconvert"@[0]);
    assert("VK_KANA"@[0] != "Convert"@[0]);
}

} // verus!
