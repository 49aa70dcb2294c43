//! Key output on macOS: which key events an action is posted as.

use vstd::prelude::*;
use vstd::string::*;

use crate::kana_table;
use crate::kana_table::{CharRomaji, KanaTable};
use crate::text;
use crate::types::{KeyAction, KeyEventType, SpecialKey, VkCode};

verus! {

pub const KEYCODE_SHIFT: u16 = 0x38;

pub const KEYCODE_OPTION: u16 = 0x3A;

/// Marks the events that the program posts itself, so that the tap lets them through.
pub const INJECT_MARKER: i64 = 0x0A0A_5E00;

/// How text reaches the IME.
#[derive(Debug, Clone, Copy, PartialEq, Eq, Structural)]
pub enum OutputStyle {
    /// As romaji key strokes; the IME takes romaji.
    Romaji,
    /// As key strokes of the JIS kana layout; the IME takes kana.
    Kana,
}

// ---- Key codes ----

pub open spec fn special_keycode(sk: SpecialKey) -> u16 {
    match sk {
        SpecialKey::Backspace => 0x33u16,
        SpecialKey::Escape => 0x35u16,
        SpecialKey::Enter => 0x24u16,
        SpecialKey::Space => 0x31u16,
        SpecialKey::Delete => 0x75u16,
        SpecialKey::Insert => 0x72u16,
        SpecialKey::Up => 0x7Eu16,
        SpecialKey::Down => 0x7Du16,
        SpecialKey::Left => 0x7Bu16,
        SpecialKey::Right => 0x7Cu16,
        SpecialKey::Home => 0x73u16,
        SpecialKey::End => 0x77u16,
        SpecialKey::PageUp => 0x74u16,
        SpecialKey::PageDown => 0x79u16,
    }
}

#[must_use]
pub fn special_key_to_keycode(sk: SpecialKey) -> (r: u16)
    ensures
        r == special_keycode(sk),
{
    match sk {
        SpecialKey::Backspace => 0x33u16,
        SpecialKey::Escape => 0x35u16,
        SpecialKey::Enter => 0x24u16,
        SpecialKey::Space => 0x31u16,
        SpecialKey::Delete => 0x75u16,
        SpecialKey::Insert => 0x72u16,
        SpecialKey::Up => 0x7Eu16,
        SpecialKey::Down => 0x7Du16,
        SpecialKey::Left => 0x7Bu16,
        SpecialKey::Right => 0x7Cu16,
        SpecialKey::Home => 0x73u16,
        SpecialKey::End => 0x77u16,
        SpecialKey::PageUp => 0x74u16,
        SpecialKey::PageDown => 0x79u16,
    }
}

pub open spec fn letter_keycode(ch: char) -> Option<u16> {
    match ch {
        'a' => Some(0x00u16),
        'b' => Some(0x0Bu16),
        'c' => Some(0x08u16),
        'd' => Some(0x02u16),
        'e' => Some(0x0Eu16),
        'f' => Some(0x03u16),
        'g' => Some(0x05u16),
        'h' => Some(0x04u16),
        'i' => Some(0x22u16),
        'j' => Some(0x26u16),
        'k' => Some(0x28u16),
        'l' => Some(0x25u16),
        'm' => Some(0x2Eu16),
        'n' => Some(0x2Du16),
        'o' => Some(0x1Fu16),
        'p' => Some(0x23u16),
        'q' => Some(0x0Cu16),
        'r' => Some(0x0Fu16),
        's' => Some(0x01u16),
        't' => Some(0x11u16),
        'u' => Some(0x20u16),
        'v' => Some(0x09u16),
        'w' => Some(0x0Du16),
        'x' => Some(0x07u16),
        'y' => Some(0x10u16),
        'z' => Some(0x06u16),
        _ => None,
    }
}

fn letter_to_keycode(ch: char) -> (r: Option<u16>)
    ensures
        r == letter_keycode(ch),
{
    match ch {
        'a' => Some(0x00u16),
        'b' => Some(0x0Bu16),
        'c' => Some(0x08u16),
        'd' => Some(0x02u16),
        'e' => Some(0x0Eu16),
        'f' => Some(0x03u16),
        'g' => Some(0x05u16),
        'h' => Some(0x04u16),
        'i' => Some(0x22u16),
        'j' => Some(0x26u16),
        'k' => Some(0x28u16),
        'l' => Some(0x25u16),
        'm' => Some(0x2Eu16),
        'n' => Some(0x2Du16),
        'o' => Some(0x1Fu16),
        'p' => Some(0x23u16),
        'q' => Some(0x0Cu16),
        'r' => Some(0x0Fu16),
        's' => Some(0x01u16),
        't' => Some(0x11u16),
        'u' => Some(0x20u16),
        'v' => Some(0x09u16),
        'w' => Some(0x0Du16),
        'x' => Some(0x07u16),
        'y' => Some(0x10u16),
        'z' => Some(0x06u16),
        _ => None,
    }
}

pub open spec fn symbol_keycode(ch: char) -> Option<(u16, bool)> {
    match ch {
        '0' => Some((0x1Du16, false)),
        '1' => Some((0x12u16, false)),
        '2' => Some((0x13u16, false)),
        '3' => Some((0x14u16, false)),
        '4' => Some((0x15u16, false)),
        '5' => Some((0x17u16, false)),
        '6' => Some((0x16u16, false)),
        '7' => Some((0x1Au16, false)),
        '8' => Some((0x1Cu16, false)),
        '9' => Some((0x19u16, false)),
        '-' => Some((0x1Bu16, false)),
        '.' => Some((0x2Fu16, false)),
        ',' => Some((0x2Bu16, false)),
        '/' => Some((0x2Cu16, false)),
        '[' => Some((0x1Eu16, false)),
        ']' => Some((0x2Au16, false)),
        '{' => Some((0x1Eu16, true)),
        '}' => Some((0x2Au16, true)),
        '(' => Some((0x1Cu16, true)),
        ')' => Some((0x19u16, true)),
        '?' => Some((0x2Cu16, true)),
        '!' => Some((0x12u16, true)),
        '^' => Some((0x18u16, false)),
        '~' => Some((0x18u16, true)),
        '@' => Some((0x21u16, false)),
        ';' => Some((0x29u16, false)),
        ':' => Some((0x27u16, false)),
        '_' => Some((0x5Eu16, true)),
        '"' => Some((0x13u16, true)),
        '#' => Some((0x14u16, true)),
        '$' => Some((0x15u16, true)),
        '%' => Some((0x17u16, true)),
        '&' => Some((0x16u16, true)),
        '\'' => Some((0x1Au16, true)),
        '=' => Some((0x1Bu16, true)),
        '+' => Some((0x29u16, true)),
        '*' => Some((0x27u16, true)),
        '<' => Some((0x2Bu16, true)),
        '>' => Some((0x2Fu16, true)),
        '|' => Some((0x5Du16, true)),
        '\\' => Some((0x5Du16, false)),
        _ => None,
    }
}

fn symbol_to_keycode(ch: char) -> (r: Option<(u16, bool)>)
    ensures
        r == symbol_keycode(ch),
{
    match ch {
        '0' => Some((0x1Du16, false)),
        '1' => Some((0x12u16, false)),
        '2' => Some((0x13u16, false)),
        '3' => Some((0x14u16, false)),
        '4' => Some((0x15u16, false)),
        '5' => Some((0x17u16, false)),
        '6' => Some((0x16u16, false)),
        '7' => Some((0x1Au16, false)),
        '8' => Some((0x1Cu16, false)),
        '9' => Some((0x19u16, false)),
        '-' => Some((0x1Bu16, false)),
        '.' => Some((0x2Fu16, false)),
        ',' => Some((0x2Bu16, false)),
        '/' => Some((0x2Cu16, false)),
        '[' => Some((0x1Eu16, false)),
        ']' => Some((0x2Au16, false)),
        '{' => Some((0x1Eu16, true)),
        '}' => Some((0x2Au16, true)),
        '(' => Some((0x1Cu16, true)),
        ')' => Some((0x19u16, true)),
        '?' => Some((0x2Cu16, true)),
        '!' => Some((0x12u16, true)),
        '^' => Some((0x18u16, false)),
        '~' => Some((0x18u16, true)),
        '@' => Some((0x21u16, false)),
        ';' => Some((0x29u16, false)),
        ':' => Some((0x27u16, false)),
        '_' => Some((0x5Eu16, true)),
        '"' => Some((0x13u16, true)),
        '#' => Some((0x14u16, true)),
        '$' => Some((0x15u16, true)),
        '%' => Some((0x17u16, true)),
        '&' => Some((0x16u16, true)),
        '\'' => Some((0x1Au16, true)),
        '=' => Some((0x1Bu16, true)),
        '+' => Some((0x29u16, true)),
        '*' => Some((0x27u16, true)),
        '<' => Some((0x2Bu16, true)),
        '>' => Some((0x2Fu16, true)),
        '|' => Some((0x5Du16, true)),
        '\\' => Some((0x5Du16, false)),
        _ => None,
    }
}

/// Key code on a JIS keyboard, and whether shift is needed. An upper-case letter is the shifted
/// lower-case one.
pub open spec fn ascii_keycode(ch: char) -> Option<(u16, bool)> {
    match letter_keycode(text::ascii_lower(ch)) {
        Some(k) => Some((k, 'A' <= ch && ch <= 'Z')),
        None => symbol_keycode(ch),
    }
}

#[must_use]
pub fn ascii_to_keycode(ch: char) -> (r: Option<(u16, bool)>)
    ensures
        r == ascii_keycode(ch),
{
    if 'A' <= ch && ch <= 'Z' {
        match letter_to_keycode(((ch as u8) + 32) as char) {
            Some(k) => Some((k, true)),
            None => symbol_to_keycode(ch),
        }
    } else {
        match letter_to_keycode(ch) {
            Some(k) => Some((k, false)),
            None => symbol_to_keycode(ch),
        }
    }
}

/// No two characters are typed by the same stroke.
pub proof fn law_ascii_strokes_are_distinct(a: char, b: char)
    requires
        ascii_keycode(a) is Some,
        ascii_keycode(a) == ascii_keycode(b),
    ensures
        a == b,
{
}

/// The kana without its voicing mark, and the mark.
pub open spec fn voicing(ch: char) -> (char, Option<char>) {
    match ch {
        'が' => ('か', Some('゛')),
        'ぎ' => ('き', Some('゛')),
        'ぐ' => ('く', Some('゛')),
        'げ' => ('け', Some('゛')),
        'ご' => ('こ', Some('゛')),
        'ざ' => ('さ', Some('゛')),
        'じ' => ('し', Some('゛')),
        'ず' => ('す', Some('゛')),
        'ぜ' => ('せ', Some('゛')),
        'ぞ' => ('そ', Some('゛')),
        'だ' => ('た', Some('゛')),
        'ぢ' => ('ち', Some('゛')),
        'づ' => ('つ', Some('゛')),
        'で' => ('て', Some('゛')),
        'ど' => ('と', Some('゛')),
        'ば' => ('は', Some('゛')),
        'び' => ('ひ', Some('゛')),
        'ぶ' => ('ふ', Some('゛')),
        'べ' => ('へ', Some('゛')),
        'ぼ' => ('ほ', Some('゛')),
        'ゔ' => ('う', Some('゛')),
        'ぱ' => ('は', Some('゜')),
        'ぴ' => ('ひ', Some('゜')),
        'ぷ' => ('ふ', Some('゜')),
        'ぺ' => ('へ', Some('゜')),
        'ぽ' => ('ほ', Some('゜')),
        _ => (ch, None),
    }
}

#[must_use]
pub fn split_voicing(ch: char) -> (r: (char, Option<char>))
    ensures
        r == voicing(ch),
{
    match ch {
        'が' => ('か', Some('゛')),
        'ぎ' => ('き', Some('゛')),
        'ぐ' => ('く', Some('゛')),
        'げ' => ('け', Some('゛')),
        'ご' => ('こ', Some('゛')),
        'ざ' => ('さ', Some('゛')),
        'じ' => ('し', Some('゛')),
        'ず' => ('す', Some('゛')),
        'ぜ' => ('せ', Some('゛')),
        'ぞ' => ('そ', Some('゛')),
        'だ' => ('た', Some('゛')),
        'ぢ' => ('ち', Some('゛')),
        'づ' => ('つ', Some('゛')),
        'で' => ('て', Some('゛')),
        'ど' => ('と', Some('゛')),
        'ば' => ('は', Some('゛')),
        'び' => ('ひ', Some('゛')),
        'ぶ' => ('ふ', Some('゛')),
        'べ' => ('へ', Some('゛')),
        'ぼ' => ('ほ', Some('゛')),
        'ゔ' => ('う', Some('゛')),
        'ぱ' => ('は', Some('゜')),
        'ぴ' => ('ひ', Some('゜')),
        'ぷ' => ('ふ', Some('゜')),
        'ぺ' => ('へ', Some('゜')),
        'ぽ' => ('ほ', Some('゜')),
        _ => (ch, None),
    }
}

/// Key code of a kana on the JIS kana layout, and whether shift is needed.
pub open spec fn kana_keycode(ch: char) -> Option<(u16, bool)> {
    match ch {
        'ぬ' => Some((0x12u16, false)),
        'ふ' => Some((0x13u16, false)),
        'あ' => Some((0x14u16, false)),
        'う' => Some((0x15u16, false)),
        'え' => Some((0x17u16, false)),
        'お' => Some((0x16u16, false)),
        'や' => Some((0x1Au16, false)),
        'ゆ' => Some((0x1Cu16, false)),
        'よ' => Some((0x19u16, false)),
        'わ' => Some((0x1Du16, false)),
        'ほ' => Some((0x1Bu16, false)),
        'へ' => Some((0x18u16, false)),
        'ー' => Some((0x5Du16, false)),
        'ぁ' => Some((0x14u16, true)),
        'ぅ' => Some((0x15u16, true)),
        'ぇ' => Some((0x17u16, true)),
        'ぉ' => Some((0x16u16, true)),
        'ゃ' => Some((0x1Au16, true)),
        'ゅ' => Some((0x1Cu16, true)),
        'ょ' => Some((0x19u16, true)),
        'を' => Some((0x1Du16, true)),
        'た' => Some((0x0Cu16, false)),
        'て' => Some((0x0Du16, false)),
        'い' => Some((0x0Eu16, false)),
        'す' => Some((0x0Fu16, false)),
        'か' => Some((0x11u16, false)),
        'ん' => Some((0x10u16, false)),
        'な' => Some((0x20u16, false)),
        'に' => Some((0x22u16, false)),
        'ら' => Some((0x1Fu16, false)),
        'せ' => Some((0x23u16, false)),
        '゛' => Some((0x21u16, false)),
        '゜' => Some((0x1Eu16, false)),
        'ぃ' => Some((0x0Eu16, true)),
        '「' => Some((0x1Eu16, true)),
        'ち' => Some((0x00u16, false)),
        'と' => Some((0x01u16, false)),
        'し' => Some((0x02u16, false)),
        'は' => Some((0x03u16, false)),
        'き' => Some((0x05u16, false)),
        'く' => Some((0x04u16, false)),
        'ま' => Some((0x26u16, false)),
        'の' => Some((0x28u16, false)),
        'り' => Some((0x25u16, false)),
        'れ' => Some((0x29u16, false)),
        'け' => Some((0x27u16, false)),
        'む' => Some((0x2Au16, false)),
        '」' => Some((0x2Au16, true)),
        'つ' => Some((0x06u16, false)),
        'さ' => Some((0x07u16, false)),
        'そ' => Some((0x08u16, false)),
        'ひ' => Some((0x09u16, false)),
        'こ' => Some((0x0Bu16, false)),
        'み' => Some((0x2Du16, false)),
        'も' => Some((0x2Eu16, false)),
        'ね' => Some((0x2Bu16, false)),
        'る' => Some((0x2Fu16, false)),
        'め' => Some((0x2Cu16, false)),
        'ろ' => Some((0x5Eu16, false)),
        'っ' => Some((0x06u16, true)),
        '、' => Some((0x2Bu16, true)),
        '。' => Some((0x2Fu16, true)),
        '・' => Some((0x2Cu16, true)),
        _ => None,
    }
}

#[must_use]
pub fn jis_kana_keycode(ch: char) -> (r: Option<(u16, bool)>)
    ensures
        r == kana_keycode(ch),
{
    match ch {
        'ぬ' => Some((0x12u16, false)),
        'ふ' => Some((0x13u16, false)),
        'あ' => Some((0x14u16, false)),
        'う' => Some((0x15u16, false)),
        'え' => Some((0x17u16, false)),
        'お' => Some((0x16u16, false)),
        'や' => Some((0x1Au16, false)),
        'ゆ' => Some((0x1Cu16, false)),
        'よ' => Some((0x19u16, false)),
        'わ' => Some((0x1Du16, false)),
        'ほ' => Some((0x1Bu16, false)),
        'へ' => Some((0x18u16, false)),
        'ー' => Some((0x5Du16, false)),
        'ぁ' => Some((0x14u16, true)),
        'ぅ' => Some((0x15u16, true)),
        'ぇ' => Some((0x17u16, true)),
        'ぉ' => Some((0x16u16, true)),
        'ゃ' => Some((0x1Au16, true)),
        'ゅ' => Some((0x1Cu16, true)),
        'ょ' => Some((0x19u16, true)),
        'を' => Some((0x1Du16, true)),
        'た' => Some((0x0Cu16, false)),
        'て' => Some((0x0Du16, false)),
        'い' => Some((0x0Eu16, false)),
        'す' => Some((0x0Fu16, false)),
        'か' => Some((0x11u16, false)),
        'ん' => Some((0x10u16, false)),
        'な' => Some((0x20u16, false)),
        'に' => Some((0x22u16, false)),
        'ら' => Some((0x1Fu16, false)),
        'せ' => Some((0x23u16, false)),
        '゛' => Some((0x21u16, false)),
        '゜' => Some((0x1Eu16, false)),
        'ぃ' => Some((0x0Eu16, true)),
        '「' => Some((0x1Eu16, true)),
        'ち' => Some((0x00u16, false)),
        'と' => Some((0x01u16, false)),
        'し' => Some((0x02u16, false)),
        'は' => Some((0x03u16, false)),
        'き' => Some((0x05u16, false)),
        'く' => Some((0x04u16, false)),
        'ま' => Some((0x26u16, false)),
        'の' => Some((0x28u16, false)),
        'り' => Some((0x25u16, false)),
        'れ' => Some((0x29u16, false)),
        'け' => Some((0x27u16, false)),
        'む' => Some((0x2Au16, false)),
        '」' => Some((0x2Au16, true)),
        'つ' => Some((0x06u16, false)),
        'さ' => Some((0x07u16, false)),
        'そ' => Some((0x08u16, false)),
        'ひ' => Some((0x09u16, false)),
        'こ' => Some((0x0Bu16, false)),
        'み' => Some((0x2Du16, false)),
        'も' => Some((0x2Eu16, false)),
        'ね' => Some((0x2Bu16, false)),
        'る' => Some((0x2Fu16, false)),
        'め' => Some((0x2Cu16, false)),
        'ろ' => Some((0x5Eu16, false)),
        'っ' => Some((0x06u16, true)),
        '、' => Some((0x2Bu16, true)),
        '。' => Some((0x2Fu16, true)),
        '・' => Some((0x2Cu16, true)),
        _ => None,
    }
}

/// No two kana are typed by the same stroke.
pub proof fn law_kana_strokes_are_distinct(a: char, b: char)
    requires
        kana_keycode(a) is Some,
        kana_keycode(a) == kana_keycode(b),
    ensures
        a == b,
{
}

/// A kana with a voicing mark has no stroke of its own; its base and its mark both have one,
/// and the base is unmarked.
pub proof fn law_voiced_kana_take_two_strokes(ch: char)
    requires
        voicing(ch).1 is Some,
    ensures
        kana_keycode(ch) is None,
        kana_keycode(voicing(ch).0) is Some,
        kana_keycode(voicing(ch).1->0) is Some,
        voicing(voicing(ch).0) == (voicing(ch).0, None::<char>),
{
}

/// No two kana are typed by the same base and mark.
pub proof fn law_voicing_is_reversible(a: char, b: char)
    requires
        voicing(a) == voicing(b),
    ensures
        a == b,
{
}

/// The stroke that the IME turns into a kana symbol.
pub open spec fn kana_symbol_ascii(ch: char) -> Option<Seq<char>> {
    match ch {
        'ー' => Some("-"@),
        '、' => Some(","@),
        '。' => Some("."@),
        '・' => Some("/"@),
        '「' => Some("["@),
        '」' => Some("]"@),
        '￥' => Some("\\"@),
        _ => None,
    }
}

#[must_use]
pub fn kana_symbol_to_ascii(ch: char) -> (r: Option<&'static str>)
    ensures
        match r {
            Some(s) => kana_symbol_ascii(ch) == Some(s@),
            None => kana_symbol_ascii(ch) is None,
        },
{
    match ch {
        'ー' => Some("-"),
        '、' => Some(","),
        '。' => Some("."),
        '・' => Some("/"),
        '「' => Some("["),
        '」' => Some("]"),
        '￥' => Some("\\"),
        _ => None,
    }
}

/// The key that, with the option key held, types the symbol itself where the IME would turn the
/// plain stroke into something else.
pub open spec fn literal_keystroke(ch: char) -> Option<(u16, bool)> {
    match ch {
        '／' => Some((0x2Cu16, false)),
        '［' => Some((0x1Eu16, false)),
        '］' => Some((0x2Au16, false)),
        _ => None,
    }
}

#[must_use]
pub fn ime_literal_keystroke(ch: char) -> (r: Option<(u16, bool)>)
    ensures
        r == literal_keystroke(ch),
{
    match ch {
        '／' => Some((0x2Cu16, false)),
        '［' => Some((0x1Eu16, false)),
        '］' => Some((0x2Au16, false)),
        _ => None,
    }
}

/// The ASCII character of a full-width one.
pub open spec fn halfwidth(ch: char) -> Option<char> {
    if 0xFF01 <= ch as u32 <= 0xFF5E {
        Some(((ch as u32 - 0xFEE0) as u8) as char)
    } else {
        None
    }
}

#[must_use]
pub fn fullwidth_to_ascii(ch: char) -> (r: Option<char>)
    ensures
        r == halfwidth(ch),
{
    let code = ch as u32;
    if 0xFF01 <= code && code <= 0xFF5E {
        Some(((code - 0xFEE0) as u8) as char)
    } else {
        None
    }
}

/// The full-width characters and the printable ASCII characters correspond one to one.
pub proof fn law_fullwidth_is_one_to_one(a: char, b: char)
    requires
        halfwidth(a) is Some,
    ensures
        '!' <= halfwidth(a)->0 && halfwidth(a)->0 <= '~',
        halfwidth(a) == halfwidth(b) ==> a == b,
{
}

// ---- Posts ----

/// One event to post.
#[derive(Debug, Clone, Copy, PartialEq, Eq, Structural)]
pub enum KeyPost {
    Key { keycode: u16, down: bool, shift: bool, option: bool },
    /// A character as the text of an event, past the IME.
    Char(char),
}

pub open spec fn key_post(keycode: u16, down: bool, shift: bool) -> KeyPost {
    KeyPost::Key { keycode, down, shift, option: false }
}

/// Press and release, inside a press and release of shift where shift is needed.
pub open spec fn press(keycode: u16, shift: bool) -> Seq<KeyPost> {
    if shift {
        seq![
            key_post(KEYCODE_SHIFT, true, false),
            key_post(keycode, true, true),
            key_post(keycode, false, true),
            key_post(KEYCODE_SHIFT, false, false),
        ]
    } else {
        seq![key_post(keycode, true, false), key_post(keycode, false, false)]
    }
}

pub open spec fn ascii_press(ch: char) -> Seq<KeyPost> {
    match ascii_keycode(ch) {
        Some((keycode, shift)) => press(keycode, shift),
        None => Seq::empty(),
    }
}

/// The strokes of the characters in order; a character without a key is left out.
pub open spec fn ascii_posts(s: Seq<char>) -> Seq<KeyPost>
    decreases s.len(),
{
    if s.len() == 0 {
        Seq::empty()
    } else {
        ascii_posts(s.drop_last()) + ascii_press(s.last())
    }
}

/// The strokes of a kana: its base, then its voicing mark.
pub open spec fn kana_posts(ch: char) -> Option<Seq<KeyPost>> {
    let (base, mark) = voicing(ch);
    match kana_keycode(base) {
        None => None,
        Some((keycode, shift)) => Some(
            press(keycode, shift) + match mark {
                Some(m) => match kana_keycode(m) {
                    Some((mark_code, mark_shift)) => press(mark_code, mark_shift),
                    None => Seq::empty(),
                },
                None => Seq::empty(),
            },
        ),
    }
}

/// A stroke with the option key held around it.
pub open spec fn literal_posts(keycode: u16, shift: bool) -> Seq<KeyPost> {
    let inner = seq![
        KeyPost::Key { keycode, down: true, shift, option: true },
        KeyPost::Key { keycode, down: false, shift, option: true },
    ];
    let shifted = if shift {
        seq![key_post(KEYCODE_SHIFT, true, false)] + inner + seq![
            key_post(KEYCODE_SHIFT, false, false),
        ]
    } else {
        inner
    };
    seq![key_post(KEYCODE_OPTION, true, false)] + shifted + seq![
        key_post(KEYCODE_OPTION, false, false),
    ]
}

/// No modifier stays down: the posts of a stroke release what they press, and the key itself
/// goes down once and up once.
pub proof fn law_strokes_release_what_they_press(keycode: u16, shift: bool)
    requires
        keycode != KEYCODE_SHIFT,
    ensures
        ({
            let p = press(keycode, shift);
            &&& p.len() == (if shift {
                4nat
            } else {
                2
            })
            &&& forall|i: int|
                0 <= i < p.len() ==> #[trigger] p[i] is Key && p[p.len() - 1 - i]->keycode
                    == p[i]->keycode && p[p.len() - 1 - i]->down == !p[i]->down
        }),
{
}

/// Decides what is posted for each action.
#[derive(Debug)]
pub struct Output {
    pub style: OutputStyle,
    /// Characters with a romaji spelling that the user has given the IME. Where a character is
    /// listed twice the first entry counts.
    pub symbol_romaji: Vec<CharRomaji>,
    /// Kana and their romaji.
    pub kana: KanaTable,
    /// The IME probably holds text that is not settled yet. There is no way to ask it: strokes
    /// that feed the IME set the hint, and keys that settle or drop the text clear it.
    pub composing_hint: bool,
}

/// What is posted, and the hint afterwards.
pub ghost struct Posted {
    pub posts: Seq<KeyPost>,
    pub composing: bool,
}

impl Output {
    #[must_use]
    pub fn new(style: OutputStyle, symbol_romaji: Vec<CharRomaji>) -> (r: Self)
        ensures
            r.style == style,
            r.symbol_romaji == symbol_romaji,
            r.kana@ == kana_table::kana_spellings(),
            !r.composing_hint,
    {
        Output { style, symbol_romaji, kana: KanaTable::build(), composing_hint: false }
    }

    /// The text has been settled or dropped.
    pub fn note_composition_break(&mut self)
        ensures
            *final(self) == (Output { composing_hint: false, ..*old(self) }),
    {
        self.composing_hint = false;
    }

    pub open spec fn as_ascii(s: Seq<char>) -> Posted {
        Posted { posts: ascii_posts(s), composing: true }
    }

    pub open spec fn as_char(self, ch: char) -> Posted {
        Posted { posts: seq![KeyPost::Char(ch)], composing: self.composing_hint }
    }

    /// How a character goes out, by the first way that it has:
    /// the spelling that the user gave the IME; in the kana style the kana strokes, or else the
    /// half-width character past the IME; in the romaji style the romaji of a kana, the stroke of
    /// a kana symbol, the option stroke of a symbol that the IME would change, the stroke of the
    /// half-width character, or else the character itself past the IME.
    pub open spec fn char_posted(self, ch: char) -> Posted {
        match kana_table::romaji_of(kana_table::spellings(self.symbol_romaji@), ch) {
            Some(s) => Self::as_ascii(s),
            None => match self.style {
                OutputStyle::Kana => match kana_posts(ch) {
                    Some(posts) => Posted { posts, composing: true },
                    None => self.as_char(
                        match halfwidth(ch) {
                            Some(c) => c,
                            None => ch,
                        },
                    ),
                },
                OutputStyle::Romaji => self.char_posted_as_romaji(ch),
            },
        }
    }

    pub open spec fn char_posted_as_romaji(self, ch: char) -> Posted {
        match kana_table::romaji_of(self.kana@, ch) {
            Some(s) => Self::as_ascii(s),
            None => match kana_symbol_ascii(ch) {
                Some(s) => Self::as_ascii(s),
                None => match literal_keystroke(ch) {
                    Some((keycode, shift)) => Posted {
                        posts: literal_posts(keycode, shift),
                        composing: true,
                    },
                    None => match halfwidth(ch) {
                        Some(c) if ascii_keycode(c) is Some => Self::as_ascii(seq![c]),
                        _ => self.as_char(ch),
                    },
                },
            },
        }
    }

    pub open spec fn action_posted(self, action: KeyAction) -> Posted {
        match action {
            KeyAction::SpecialKey(sk) => Posted {
                posts: press(special_keycode(sk), false),
                composing: self.composing_hint && !(sk is Enter) && !(sk is Escape),
            },
            KeyAction::Key(vk) => Posted {
                posts: seq![key_post(vk.0, true, false)],
                composing: self.composing_hint,
            },
            KeyAction::KeyUp(vk) => Posted {
                posts: seq![key_post(vk.0, false, false)],
                composing: self.composing_hint,
            },
            KeyAction::Char(ch) => self.char_posted(ch),
            KeyAction::Romaji(s) => self.romaji_posted(s@),
            KeyAction::KeySequence(s) => Self::as_ascii(s@),
            KeyAction::Suppress => Posted {
                posts: Seq::empty(),
                composing: self.composing_hint,
            },
        }
    }

    /// In the kana style romaji becomes the strokes of its kana, where it has one.
    pub open spec fn romaji_posted(self, s: Seq<char>) -> Posted {
        match (self.style, kana_table::char_of(self.kana@, s)) {
            (OutputStyle::Kana, Some(ch)) => match kana_posts(ch) {
                Some(posts) => Posted { posts, composing: true },
                None => Self::as_ascii(s),
            },
            _ => Self::as_ascii(s),
        }
    }

    /// The actions one after the other, each with the hint that the ones before it left.
    pub open spec fn actions_posted(self, actions: Seq<KeyAction>) -> Posted
        decreases actions.len(),
    {
        if actions.len() == 0 {
            Posted { posts: Seq::empty(), composing: self.composing_hint }
        } else {
            let before = self.actions_posted(actions.drop_last());
            let last = (Output { composing_hint: before.composing, ..self }).action_posted(
                actions.last(),
            );
            Posted { posts: before.posts + last.posts, composing: last.composing }
        }
    }

    fn send_ascii_sequence(&mut self, s: &str, posts: &mut Vec<KeyPost>)
        ensures
            *final(self) == (Output { composing_hint: true, ..*old(self) }),
            final(posts)@ == old(posts)@ + ascii_posts(s@),
    {
        let chars = text::chars_of(s);
        push_ascii(&chars, posts);
        self.composing_hint = true;
    }

    fn send_kana_strokes(&mut self, ch: char, posts: &mut Vec<KeyPost>) -> (sent: bool)
        ensures
            sent == (kana_posts(ch) is Some),
            sent ==> *final(self) == (Output { composing_hint: true, ..*old(self) }),
            sent ==> final(posts)@ == old(posts)@ + kana_posts(ch)->0,
            !sent ==> *final(self) == *old(self) && final(posts)@ == old(posts)@,
    {
        let ghost p0 = posts@;
        let (base, mark) = split_voicing(ch);
        match jis_kana_keycode(base) {
            None => false,
            Some((keycode, shift)) => {
                press_with_shift(keycode, shift, posts);
                if let Some(m) = mark {
                    if let Some((mark_code, mark_shift)) = jis_kana_keycode(m) {
                        press_with_shift(mark_code, mark_shift, posts);
                    }
                }
                assert(posts@ =~= p0 + kana_posts(ch)->0);
                self.composing_hint = true;
                true
            },
        }
    }

    fn send_char(&mut self, ch: char, posts: &mut Vec<KeyPost>)
        ensures
            *final(self) == (Output {
                composing_hint: old(self).char_posted(ch).composing,
                ..*old(self)
            }),
            final(posts)@ == old(posts)@ + old(self).char_posted(ch).posts,
    {
        if let Some(s) = kana_table::find_romaji(&self.symbol_romaji, ch) {
            let chars = text::chars_of(s);
            push_ascii(&chars, posts);
            self.composing_hint = true;
            return;
        }
        if matches!(self.style, OutputStyle::Kana) {
            if self.send_kana_strokes(ch, posts) {
                return;
            }
            let c = match fullwidth_to_ascii(ch) {
                Some(c) => c,
                None => ch,
            };
            let ghost p0 = posts@;
            posts.push(KeyPost::Char(c));
            assert(posts@ =~= p0 + seq![KeyPost::Char(c)]);
            return;
        }
        self.send_char_as_romaji(ch, posts);
    }

    fn send_char_as_romaji(&mut self, ch: char, posts: &mut Vec<KeyPost>)
        ensures
            *final(self) == (Output {
                composing_hint: old(self).char_posted_as_romaji(ch).composing,
                ..*old(self)
            }),
            final(posts)@ == old(posts)@ + old(self).char_posted_as_romaji(ch).posts,
    {
        if let Some(s) = self.kana.romaji_for_kana(ch) {
            let chars = text::chars_of(s);
            push_ascii(&chars, posts);
            self.composing_hint = true;
            return;
        }
        if let Some(s) = kana_symbol_to_ascii(ch) {
            self.send_ascii_sequence(s, posts);
            return;
        }
        let ghost p0 = posts@;
        if let Some((keycode, shift)) = ime_literal_keystroke(ch) {
            posts.push(
                KeyPost::Key { keycode: KEYCODE_OPTION, down: true, shift: false, option: false },
            );
            if shift {
                posts.push(
                    KeyPost::Key { keycode: KEYCODE_SHIFT, down: true, shift: false, option: false },
                );
            }
            posts.push(KeyPost::Key { keycode, down: true, shift, option: true });
            posts.push(KeyPost::Key { keycode, down: false, shift, option: true });
            if shift {
                posts.push(
                    KeyPost::Key {
                        keycode: KEYCODE_SHIFT,
                        down: false,
                        shift: false,
                        option: false,
                    },
                );
            }
            posts.push(
                KeyPost::Key { keycode: KEYCODE_OPTION, down: false, shift: false, option: false },
            );
            assert(posts@ =~= p0 + literal_posts(keycode, shift));
            self.composing_hint = true;
            return;
        }
        if let Some(c) = fullwidth_to_ascii(ch) {
            if ascii_to_keycode(c).is_some() {
                let chars = vec![c];
                assert(chars@ =~= seq![c]);
                push_ascii(&chars, posts);
                self.composing_hint = true;
                return;
            }
        }
        posts.push(KeyPost::Char(ch));
        assert(posts@ =~= p0 + seq![KeyPost::Char(ch)]);
    }

    fn send_action(&mut self, action: &KeyAction, posts: &mut Vec<KeyPost>)
        ensures
            *final(self) == (Output {
                composing_hint: old(self).action_posted(*action).composing,
                ..*old(self)
            }),
            final(posts)@ == old(posts)@ + old(self).action_posted(*action).posts,
    {
        let ghost p0 = posts@;
        match action {
            KeyAction::SpecialKey(sk) => {
                press_with_shift(special_key_to_keycode(*sk), false, posts);
                if matches!(sk, SpecialKey::Enter | SpecialKey::Escape) {
                    self.composing_hint = false;
                }
            },
            KeyAction::Key(vk) => {
                posts.push(
                    KeyPost::Key { keycode: vk.0, down: true, shift: false, option: false },
                );
                assert(posts@ =~= p0 + seq![key_post(vk.0, true, false)]);
            },
            KeyAction::KeyUp(vk) => {
                posts.push(
                    KeyPost::Key { keycode: vk.0, down: false, shift: false, option: false },
                );
                assert(posts@ =~= p0 + seq![key_post(vk.0, false, false)]);
            },
            KeyAction::Char(ch) => {
                self.send_char(*ch, posts);
            },
            KeyAction::Romaji(s) => {
                if matches!(self.style, OutputStyle::Kana) {
                    if let Some(ch) = self.kana.kana_for_romaji(s.as_str()) {
                        if self.send_kana_strokes(ch, posts) {
                            return;
                        }
                    }
                }
                self.send_ascii_sequence(s.as_str(), posts);
            },
            KeyAction::KeySequence(s) => {
                self.send_ascii_sequence(s.as_str(), posts);
            },
            KeyAction::Suppress => {
                assert(posts@ =~= p0 + Seq::<KeyPost>::empty());
            },
        }
    }

    /// The events to post for the actions, in order.
    pub fn send_keys(&mut self, actions: &Vec<KeyAction>) -> (posts: Vec<KeyPost>)
        ensures
            posts@ == old(self).actions_posted(actions@).posts,
            *final(self) == (Output {
                composing_hint: old(self).actions_posted(actions@).composing,
                ..*old(self)
            }),
    {
        let mut posts: Vec<KeyPost> = Vec::new();
        let mut i: usize = 0;
        while i < actions.len()
            invariant
                i <= actions@.len(),
                posts@ == old(self).actions_posted(actions@.subrange(0, i as int)).posts,
                *self == (Output {
                    composing_hint: old(self).actions_posted(
                        actions@.subrange(0, i as int),
                    ).composing,
                    ..*old(self)
                }),
            decreases actions@.len() - i,
        {
            assert(actions@.subrange(0, i + 1).drop_last() =~= actions@.subrange(0, i as int));
            self.send_action(&actions[i], &mut posts);
            i += 1;
        }
        assert(actions@.subrange(0, i as int) =~= actions@);
        posts
    }

    /// The event that gives a swallowed key back to the OS.
    #[must_use]
    pub fn reinject(&self, vk: VkCode, event_type: KeyEventType) -> (post: KeyPost)
        ensures
            post == key_post(vk.0, event_type is KeyDown, false),
    {
        let down = matches!(event_type, KeyEventType::KeyDown);
        KeyPost::Key { keycode: vk.0, down, shift: false, option: false }
    }
}

fn press_with_shift(keycode: u16, shift: bool, posts: &mut Vec<KeyPost>)
    ensures
        final(posts)@ == old(posts)@ + press(keycode, shift),
{
    if shift {
        posts.push(
            KeyPost::Key { keycode: KEYCODE_SHIFT, down: true, shift: false, option: false },
        );
    }
    posts.push(KeyPost::Key { keycode, down: true, shift, option: false });
    posts.push(KeyPost::Key { keycode, down: false, shift, option: false });
    if shift {
        posts.push(
            KeyPost::Key { keycode: KEYCODE_SHIFT, down: false, shift: false, option: false },
        );
    }
    assert(posts@ =~= old(posts)@ + press(keycode, shift));
}

fn push_ascii(chars: &Vec<char>, posts: &mut Vec<KeyPost>)
    ensures
        final(posts)@ == old(posts)@ + ascii_posts(chars@),
{
    let ghost p0 = posts@;
    let mut i: usize = 0;
    assert(p0 + ascii_posts(chars@.subrange(0, 0)) =~= p0);
    while i < chars.len()
        invariant
            i <= chars@.len(),
            posts@ == p0 + ascii_posts(chars@.subrange(0, i as int)),
        decreases chars@.len() - i,
    {
        assert(chars@.subrange(0, i + 1).drop_last() =~= chars@.subrange(0, i as int));
        if let Some((keycode, shift)) = ascii_to_keycode(chars[i]) {
            press_with_shift(keycode, shift, posts);
        }
        assert(posts@ =~= p0 + ascii_posts(chars@.subrange(0, i + 1)));
        i += 1;
    }
    assert(chars@.subrange(0, i as int) =~= chars@);
}

} // verus!
