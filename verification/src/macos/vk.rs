//! Key names and key combinations on macOS.
//!
//! The codes are the `kVK_*` constants of the Carbon event headers.

use vstd::prelude::*;

use crate::config::ParsedKeyCombo;
use crate::text;
use crate::types::VkCode;

verus! {

/// The macOS key code of a key name. The names of the muhenkan and henkan keys stand for the
/// keys that switch the IME on macOS; names without a macOS key have no code.
pub open spec fn keycode_of(name: Seq<char>) -> Option<VkCode> {
    if name == "Nonconvert"@ || name == "VK_NONCONVERT"@ || name == "VK_MUHENKAN"@ || name == "無変換"@ || name == "英数"@ {
        Some(VkCode(0x66))
    } else if name == "Convert"@ || name == "VK_CONVERT"@ || name == "Kana"@ || name == "VK_KANA"@ || name == "変換"@ || name == "かな"@ {
        Some(VkCode(0x68))
    } else if name == "A"@ || name == "VK_A"@ {
        Some(VkCode(0x00))
    } else if name == "S"@ || name == "VK_S"@ {
        Some(VkCode(0x01))
    } else if name == "D"@ || name == "VK_D"@ {
        Some(VkCode(0x02))
    } else if name == "F"@ || name == "VK_F"@ {
        Some(VkCode(0x03))
    } else if name == "H"@ || name == "VK_H"@ {
        Some(VkCode(0x04))
    } else if name == "G"@ || name == "VK_G"@ {
        Some(VkCode(0x05))
    } else if name == "Z"@ || name == "VK_Z"@ {
        Some(VkCode(0x06))
    } else if name == "X"@ || name == "VK_X"@ {
        Some(VkCode(0x07))
    } else if name == "C"@ || name == "VK_C"@ {
        Some(VkCode(0x08))
    } else if name == "V"@ || name == "VK_V"@ {
        Some(VkCode(0x09))
    } else if name == "B"@ || name == "VK_B"@ {
        Some(VkCode(0x0B))
    } else if name == "Q"@ || name == "VK_Q"@ {
        Some(VkCode(0x0C))
    } else if name == "W"@ || name == "VK_W"@ {
        Some(VkCode(0x0D))
    } else if name == "E"@ || name == "VK_E"@ {
        Some(VkCode(0x0E))
    } else if name == "R"@ || name == "VK_R"@ {
        Some(VkCode(0x0F))
    } else if name == "Y"@ || name == "VK_Y"@ {
        Some(VkCode(0x10))
    } else if name == "T"@ || name == "VK_T"@ {
        Some(VkCode(0x11))
    } else if name == "O"@ || name == "VK_O"@ {
        Some(VkCode(0x1F))
    } else if name == "U"@ || name == "VK_U"@ {
        Some(VkCode(0x20))
    } else if name == "I"@ || name == "VK_I"@ {
        Some(VkCode(0x22))
    } else if name == "P"@ || name == "VK_P"@ {
        Some(VkCode(0x23))
    } else if name == "L"@ || name == "VK_L"@ {
        Some(VkCode(0x25))
    } else if name == "J"@ || name == "VK_J"@ {
        Some(VkCode(0x26))
    } else if name == "K"@ || name == "VK_K"@ {
        Some(VkCode(0x28))
    } else if name == "N"@ || name == "VK_N"@ {
        Some(VkCode(0x2D))
    } else if name == "M"@ || name == "VK_M"@ {
        Some(VkCode(0x2E))
    } else if name == "1"@ || name == "VK_1"@ {
        Some(VkCode(0x12))
    } else if name == "2"@ || name == "VK_2"@ {
        Some(VkCode(0x13))
    } else if name == "3"@ || name == "VK_3"@ {
        Some(VkCode(0x14))
    } else if name == "4"@ || name == "VK_4"@ {
        Some(VkCode(0x15))
    } else if name == "5"@ || name == "VK_5"@ {
        Some(VkCode(0x17))
    } else if name == "6"@ || name == "VK_6"@ {
        Some(VkCode(0x16))
    } else if name == "7"@ || name == "VK_7"@ {
        Some(VkCode(0x1A))
    } else if name == "8"@ || name == "VK_8"@ {
        Some(VkCode(0x1C))
    } else if name == "9"@ || name == "VK_9"@ {
        Some(VkCode(0x19))
    } else if name == "0"@ || name == "VK_0"@ {
        Some(VkCode(0x1D))
    } else if name == "Backspace"@ || name == "VK_BACK"@ {
        Some(VkCode(0x33))
    } else if name == "Enter"@ || name == "VK_RETURN"@ {
        Some(VkCode(0x24))
    } else if name == "Space"@ || name == "VK_SPACE"@ {
        Some(VkCode(0x31))
    } else if name == "Escape"@ || name == "VK_ESCAPE"@ {
        Some(VkCode(0x35))
    } else if name == "Delete"@ || name == "VK_DELETE"@ {
        Some(VkCode(0x75))
    } else if name == "Tab"@ || name == "VK_TAB"@ {
        Some(VkCode(0x30))
    } else if name == "F1"@ || name == "VK_F1"@ {
        Some(VkCode(0x7A))
    } else if name == "F2"@ || name == "VK_F2"@ {
        Some(VkCode(0x78))
    } else if name == "F3"@ || name == "VK_F3"@ {
        Some(VkCode(0x63))
    } else if name == "F4"@ || name == "VK_F4"@ {
        Some(VkCode(0x76))
    } else if name == "F5"@ || name == "VK_F5"@ {
        Some(VkCode(0x60))
    } else if name == "F6"@ || name == "VK_F6"@ {
        Some(VkCode(0x61))
    } else if name == "F7"@ || name == "VK_F7"@ {
        Some(VkCode(0x62))
    } else if name == "F8"@ || name == "VK_F8"@ {
        Some(VkCode(0x64))
    } else if name == "F9"@ || name == "VK_F9"@ {
        Some(VkCode(0x65))
    } else if name == "F10"@ || name == "VK_F10"@ {
        Some(VkCode(0x6D))
    } else if name == "F11"@ || name == "VK_F11"@ {
        Some(VkCode(0x67))
    } else if name == "F12"@ || name == "VK_F12"@ {
        Some(VkCode(0x6F))
    } else if name == "Shift"@ || name == "VK_SHIFT"@ || name == "VK_LSHIFT"@ {
        Some(VkCode(0x38))
    } else if name == "Ctrl"@ || name == "Control"@ || name == "VK_CONTROL"@ || name == "VK_LCONTROL"@ {
        Some(VkCode(0x3B))
    } else if name == "Alt"@ || name == "VK_MENU"@ || name == "VK_LMENU"@ {
        Some(VkCode(0x3A))
    } else {
        None
    }
}

/// The macOS key code of a key name of the configuration.
#[must_use]
pub fn key_name_to_keycode(name: &str) -> (r: Option<VkCode>)
    ensures
        r == keycode_of(name@),
{
    if text::same(name, "Nonconvert") || text::same(name, "VK_NONCONVERT") || text::same(name, "VK_MUHENKAN") || text::same(name, "無変換") || text::same(name, "英数") {
        return Some(VkCode(0x66));
    }
    if text::same(name, "Convert") || text::same(name, "VK_CONVERT") || text::same(name, "Kana") || text::same(name, "VK_KANA") || text::same(name, "変換") || text::same(name, "かな") {
        return Some(VkCode(0x68));
    }
    if text::same(name, "A") || text::same(name, "VK_A") {
        return Some(VkCode(0x00));
    }
    if text::same(name, "S") || text::same(name, "VK_S") {
        return Some(VkCode(0x01));
    }
    if text::same(name, "D") || text::same(name, "VK_D") {
        return Some(VkCode(0x02));
    }
    if text::same(name, "F") || text::same(name, "VK_F") {
        return Some(VkCode(0x03));
    }
    if text::same(name, "H") || text::same(name, "VK_H") {
        return Some(VkCode(0x04));
    }
    if text::same(name, "G") || text::same(name, "VK_G") {
        return Some(VkCode(0x05));
    }
    if text::same(name, "Z") || text::same(name, "VK_Z") {
        return Some(VkCode(0x06));
    }
    if text::same(name, "X") || text::same(name, "VK_X") {
        return Some(VkCode(0x07));
    }
    if text::same(name, "C") || text::same(name, "VK_C") {
        return Some(VkCode(0x08));
    }
    if text::same(name, "V") || text::same(name, "VK_V") {
        return Some(VkCode(0x09));
    }
    if text::same(name, "B") || text::same(name, "VK_B") {
        return Some(VkCode(0x0B));
    }
    if text::same(name, "Q") || text::same(name, "VK_Q") {
        return Some(VkCode(0x0C));
    }
    if text::same(name, "W") || text::same(name, "VK_W") {
        return Some(VkCode(0x0D));
    }
    if text::same(name, "E") || text::same(name, "VK_E") {
        return Some(VkCode(0x0E));
    }
    if text::same(name, "R") || text::same(name, "VK_R") {
        return Some(VkCode(0x0F));
    }
    if text::same(name, "Y") || text::same(name, "VK_Y") {
        return Some(VkCode(0x10));
    }
    if text::same(name, "T") || text::same(name, "VK_T") {
        return Some(VkCode(0x11));
    }
    if text::same(name, "O") || text::same(name, "VK_O") {
        return Some(VkCode(0x1F));
    }
    if text::same(name, "U") || text::same(name, "VK_U") {
        return Some(VkCode(0x20));
    }
    if text::same(name, "I") || text::same(name, "VK_I") {
        return Some(VkCode(0x22));
    }
    if text::same(name, "P") || text::same(name, "VK_P") {
        return Some(VkCode(0x23));
    }
    if text::same(name, "L") || text::same(name, "VK_L") {
        return Some(VkCode(0x25));
    }
    if text::same(name, "J") || text::same(name, "VK_J") {
        return Some(VkCode(0x26));
    }
    if text::same(name, "K") || text::same(name, "VK_K") {
        return Some(VkCode(0x28));
    }
    if text::same(name, "N") || text::same(name, "VK_N") {
        return Some(VkCode(0x2D));
    }
    if text::same(name, "M") || text::same(name, "VK_M") {
        return Some(VkCode(0x2E));
    }
    if text::same(name, "1") || text::same(name, "VK_1") {
        return Some(VkCode(0x12));
    }
    if text::same(name, "2") || text::same(name, "VK_2") {
        return Some(VkCode(0x13));
    }
    if text::same(name, "3") || text::same(name, "VK_3") {
        return Some(VkCode(0x14));
    }
    if text::same(name, "4") || text::same(name, "VK_4") {
        return Some(VkCode(0x15));
    }
    if text::same(name, "5") || text::same(name, "VK_5") {
        return Some(VkCode(0x17));
    }
    if text::same(name, "6") || text::same(name, "VK_6") {
        return Some(VkCode(0x16));
    }
    if text::same(name, "7") || text::same(name, "VK_7") {
        return Some(VkCode(0x1A));
    }
    if text::same(name, "8") || text::same(name, "VK_8") {
        return Some(VkCode(0x1C));
    }
    if text::same(name, "9") || text::same(name, "VK_9") {
        return Some(VkCode(0x19));
    }
    if text::same(name, "0") || text::same(name, "VK_0") {
        return Some(VkCode(0x1D));
    }
    if text::same(name, "Backspace") || text::same(name, "VK_BACK") {
        return Some(VkCode(0x33));
    }
    if text::same(name, "Enter") || text::same(name, "VK_RETURN") {
        return Some(VkCode(0x24));
    }
    if text::same(name, "Space") || text::same(name, "VK_SPACE") {
        return Some(VkCode(0x31));
    }
    if text::same(name, "Escape") || text::same(name, "VK_ESCAPE") {
        return Some(VkCode(0x35));
    }
    if text::same(name, "Delete") || text::same(name, "VK_DELETE") {
        return Some(VkCode(0x75));
    }
    if text::same(name, "Tab") || text::same(name, "VK_TAB") {
        return Some(VkCode(0x30));
    }
    if text::same(name, "F1") || text::same(name, "VK_F1") {
        return Some(VkCode(0x7A));
    }
    if text::same(name, "F2") || text::same(name, "VK_F2") {
        return Some(VkCode(0x78));
    }
    if text::same(name, "F3") || text::same(name, "VK_F3") {
        return Some(VkCode(0x63));
    }
    if text::same(name, "F4") || text::same(name, "VK_F4") {
        return Some(VkCode(0x76));
    }
    if text::same(name, "F5") || text::same(name, "VK_F5") {
        return Some(VkCode(0x60));
    }
    if text::same(name, "F6") || text::same(name, "VK_F6") {
        return Some(VkCode(0x61));
    }
    if text::same(name, "F7") || text::same(name, "VK_F7") {
        return Some(VkCode(0x62));
    }
    if text::same(name, "F8") || text::same(name, "VK_F8") {
        return Some(VkCode(0x64));
    }
    if text::same(name, "F9") || text::same(name, "VK_F9") {
        return Some(VkCode(0x65));
    }
    if text::same(name, "F10") || text::same(name, "VK_F10") {
        return Some(VkCode(0x6D));
    }
    if text::same(name, "F11") || text::same(name, "VK_F11") {
        return Some(VkCode(0x67));
    }
    if text::same(name, "F12") || text::same(name, "VK_F12") {
        return Some(VkCode(0x6F));
    }
    if text::same(name, "Shift") || text::same(name, "VK_SHIFT") || text::same(name, "VK_LSHIFT") {
        return Some(VkCode(0x38));
    }
    if text::same(name, "Ctrl") || text::same(name, "Control") || text::same(name, "VK_CONTROL") || text::same(name, "VK_LCONTROL") {
        return Some(VkCode(0x3B));
    }
    if text::same(name, "Alt") || text::same(name, "VK_MENU") || text::same(name, "VK_LMENU") {
        return Some(VkCode(0x3A));
    }
    None
}

pub open spec fn is_ctrl(part: Seq<char>) -> bool {
    part == "Ctrl"@ || part == "Control"@
}

pub open spec fn is_modifier_name(part: Seq<char>) -> bool {
    is_ctrl(part) || part == "Shift"@ || part == "Alt"@
}

/// The parts of a combination between the plus signs, without whitespace around them.
pub open spec fn combo_parts(s: Seq<char>) -> Seq<Seq<char>> {
    text::split_on(s, '+').map_values(|p: Seq<char>| text::trimmed(p))
}

/// The first `n` parts all name modifiers.
pub open spec fn all_modifiers(parts: Seq<Seq<char>>, n: int) -> bool {
    forall|i: int| 0 <= i < n ==> is_modifier_name(#[trigger] parts[i])
}

pub open spec fn names_ctrl(parts: Seq<Seq<char>>, n: int) -> bool {
    exists|i: int| 0 <= i < n && is_ctrl(#[trigger] parts[i])
}

pub open spec fn names(parts: Seq<Seq<char>>, n: int, modifier: Seq<char>) -> bool {
    exists|i: int| 0 <= i < n && #[trigger] parts[i] == modifier
}

/// A combination is its modifiers, in any order, and a key name at the end.
pub open spec fn combo_of(s: Seq<char>) -> Option<ParsedKeyCombo> {
    let parts = combo_parts(s);
    let n = parts.len() - 1;
    match keycode_of(parts[n]) {
        Some(vk) if all_modifiers(parts, n) => Some(
            ParsedKeyCombo {
                ctrl: names_ctrl(parts, n),
                shift: names(parts, n, "Shift"@),
                alt: names(parts, n, "Alt"@),
                vk,
            },
        ),
        _ => None,
    }
}

/// Parses a combination such as `Ctrl+Shift+変換`.
#[must_use]
pub fn parse_key_combo(s: &str) -> (r: Option<ParsedKeyCombo>)
    ensures
        r == combo_of(s@),
{
    let parts = text::split(s, '+');
    let ghost views = combo_parts(s@);
    let n: usize = parts.len() - 1;
    let mut ctrl = false;
    let mut shift = false;
    let mut alt = false;
    let mut i: usize = 0;
    while i < n
        invariant
            parts@.len() == views.len(),
            n == views.len() - 1,
            i <= n,
            forall|j: int|
                0 <= j < views.len() ==> #[trigger] views[j] == text::trimmed(parts@[j]@),
            all_modifiers(views, i as int),
            ctrl == names_ctrl(views, i as int),
            shift == names(views, i as int, "Shift"@),
            alt == names(views, i as int, "Alt"@),
            views == combo_parts(s@),
        decreases n - i,
    {
        let part = text::trim(parts[i].as_str());
        assert(part@ == views[i as int]);
        if text::same(part, "Ctrl") || text::same(part, "Control") {
            ctrl = true;
        } else if text::same(part, "Shift") {
            shift = true;
        } else if text::same(part, "Alt") {
            alt = true;
        } else {
            assert(!is_modifier_name(views[i as int]));
            return None;
        }
        proof {
            lemma_modifier_names_differ();
        }
        i += 1;
    }
    let key = text::trim(parts[n].as_str());
    assert(key@ == views[n as int]);
    match key_name_to_keycode(key) {
        Some(vk) => Some(ParsedKeyCombo { ctrl, shift, alt, vk }),
        None => None,
    }
}

proof fn lemma_modifier_names_differ()
    ensures
        "Ctrl"@ != "Shift"@,
        "Ctrl"@ != "Alt"@,
        "Control"@ != "Shift"@,
        "Control"@ != "Alt"@,
        "Shift"@ != "Alt"@,
{
    reveal_strlit("Ctrl");
    reveal_strlit("Control");
    reveal_strlit("Shift");
    reveal_strlit("Alt");
    assert("Ctrl"@[0] == 'C');
    assert("Control"@[0] == 'C');
    assert("Shift"@[0] == 'S');
    assert("Alt"@[0] == 'A');
}

// ---- Laws of combinations ----

/// The combination with a modifier more.
pub open spec fn with_modifier(combo: ParsedKeyCombo, name: Seq<char>) -> ParsedKeyCombo {
    ParsedKeyCombo {
        ctrl: combo.ctrl || name == "Ctrl"@ || name == "Control"@,
        shift: combo.shift || name == "Shift"@,
        alt: combo.alt || name == "Alt"@,
        vk: combo.vk,
    }
}

proof fn lemma_parts_of_a_prefix(p: Seq<char>, s: Seq<char>)
    requires
        !p.contains('+'),
    ensures
        combo_parts(p + seq!['+'] + s) == seq![text::trimmed(p)] + combo_parts(s),
        combo_parts(s).len() >= 1,
{
    text::law_split_is_of_the_two_sides(p, s, '+');
    text::law_parts_join_to_the_text(s, '+');
    lemma_some_part(s);
    assert(combo_parts(p + seq!['+'] + s) =~= seq![text::trimmed(p)] + combo_parts(s));
}

proof fn lemma_some_part(s: Seq<char>)
    ensures
        combo_parts(s).len() >= 1,
    decreases s.len(),
{
    if s.len() > 0 {
        lemma_some_part(s.drop_last());
    }
}

/// A modifier in front of a combination, with blanks around it or not, sets that modifier and changes
/// nothing else. What is no combination does not become one by it.
pub proof fn law_modifier_in_front_is_set(p: Seq<char>, s: Seq<char>)
    requires
        !p.contains('+'),
        ({
            let name = text::trimmed(p);
            name == "Ctrl"@ || name == "Control"@ || name == "Shift"@ || name == "Alt"@
        }),
    ensures
        combo_of(p + seq!['+'] + s) == (match combo_of(s) {
            Some(combo) => Some(with_modifier(combo, text::trimmed(p))),
            None => None,
        }),
{
    lemma_parts_of_a_prefix(p, s);
    lemma_modifier_names_differ();
    let name = text::trimmed(p);
    let parts = combo_parts(s);
    let all = combo_parts(p + seq!['+'] + s);
    let n = parts.len() - 1;
    assert(all[n + 1] == parts[n]);
    assert(all[0] == name);
    assert forall|i: int| 0 <= i < n implies all[i + 1] == #[trigger] parts[i] by {}
    assert(all_modifiers(all, n + 1) == all_modifiers(parts, n)) by {
        if all_modifiers(parts, n) {
            assert forall|i: int| 0 <= i < n + 1 implies is_modifier_name(#[trigger] all[i]) by {
                if i > 0 {
                    assert(all[i] == parts[i - 1]);
                }
            }
        }
        if all_modifiers(all, n + 1) {
            assert forall|i: int| 0 <= i < n implies is_modifier_name(#[trigger] parts[i]) by {
                assert(all[i + 1] == parts[i]);
            }
        }
    }
    assert(names_ctrl(all, n + 1) == (names_ctrl(parts, n) || is_ctrl(name))) by {
        if names_ctrl(parts, n) {
            let i = choose|i: int| 0 <= i < n && is_ctrl(#[trigger] parts[i]);
            assert(is_ctrl(all[i + 1]));
        }
        if names_ctrl(all, n + 1) {
            let i = choose|i: int| 0 <= i < n + 1 && is_ctrl(#[trigger] all[i]);
            if i > 0 {
                assert(is_ctrl(parts[i - 1]));
            }
        }
        if is_ctrl(name) {
            assert(is_ctrl(all[0]));
        }
    }
    lemma_names_in_a_prefix(parts, all, n, name, "Shift"@);
    lemma_names_in_a_prefix(parts, all, n, name, "Alt"@);
}

proof fn lemma_names_in_a_prefix(
    parts: Seq<Seq<char>>,
    all: Seq<Seq<char>>,
    n: int,
    name: Seq<char>,
    modifier: Seq<char>,
)
    requires
        0 <= n < parts.len(),
        all == seq![name] + parts,
    ensures
        names(all, n + 1, modifier) == (names(parts, n, modifier) || name == modifier),
{
    if names(parts, n, modifier) {
        let i = choose|i: int| 0 <= i < n && #[trigger] parts[i] == modifier;
        assert(all[i + 1] == modifier);
    }
    if names(all, n + 1, modifier) {
        let i = choose|i: int| 0 <= i < n + 1 && #[trigger] all[i] == modifier;
        if i > 0 {
            assert(parts[i - 1] == modifier);
        }
    }
    assert(all[0] == name);
}

/// Any other text in front of a plus sign makes no combination.
pub proof fn law_only_modifiers_stand_in_front(p: Seq<char>, s: Seq<char>)
    requires
        !p.contains('+'),
        ({
            let name = text::trimmed(p);
            name != "Ctrl"@ && name != "Control"@ && name != "Shift"@ && name != "Alt"@
        }),
    ensures
        combo_of(p + seq!['+'] + s) is None,
{
    lemma_parts_of_a_prefix(p, s);
    let all = combo_parts(p + seq!['+'] + s);
    assert(all[0] == text::trimmed(p));
    assert(!is_modifier_name(all[0]));
}

/// Without a plus sign a combination is a key name alone, with no modifier.
pub proof fn law_name_alone_has_no_modifier(s: Seq<char>)
    requires
        !s.contains('+'),
    ensures
        combo_of(s) == (match keycode_of(text::trimmed(s)) {
            Some(vk) => Some(ParsedKeyCombo { ctrl: false, shift: false, alt: false, vk }),
            None => None,
        }),
{
    text::law_split_is_of_the_two_sides(s, Seq::empty(), '+');
    assert(combo_parts(s) =~= seq![text::trimmed(s)]);
}

/// Of a combination that can be read, each modifier is set exactly where a part before the last names
/// it, and the last part names the key.
pub proof fn law_modifiers_are_those_named(s: Seq<char>)
    ensures
        combo_of(s) matches Some(combo) ==> {
            let parts = text::split_on(s, '+');
            &&& keycode_of(text::trimmed(parts.last())) == Some(combo.vk)
            &&& combo.ctrl <==> exists|i: int|
                0 <= i < parts.len() - 1 && (text::trimmed(#[trigger] parts[i]) == "Ctrl"@
                    || text::trimmed(parts[i]) == "Control"@)
            &&& combo.shift <==> exists|i: int|
                0 <= i < parts.len() - 1 && text::trimmed(#[trigger] parts[i]) == "Shift"@
            &&& combo.alt <==> exists|i: int|
                0 <= i < parts.len() - 1 && text::trimmed(#[trigger] parts[i]) == "Alt"@
        },
{
    if let Some(combo) = combo_of(s) {
        let parts = text::split_on(s, '+');
        let views = combo_parts(s);
        let n = parts.len() - 1;
        lemma_some_part(s);
        assert(views[n] == text::trimmed(parts[n]));
        assert forall|i: int| 0 <= i < parts.len() implies views[i] == text::trimmed(
            #[trigger] parts[i],
        ) by {}
        if combo.ctrl {
            let i = choose|i: int| 0 <= i < n && is_ctrl(#[trigger] views[i]);
            assert(views[i] == text::trimmed(parts[i]));
        }
        if combo.shift {
            let i = choose|i: int| 0 <= i < n && #[trigger] views[i] == "Shift"@;
            assert(views[i] == text::trimmed(parts[i]));
        }
        if combo.alt {
            let i = choose|i: int| 0 <= i < n && #[trigger] views[i] == "Alt"@;
            assert(views[i] == text::trimmed(parts[i]));
        }
        if exists|i: int|
            0 <= i < parts.len() - 1 && (text::trimmed(#[trigger] parts[i]) == "Ctrl"@
                || text::trimmed(parts[i]) == "Control"@) {
            let i = choose|i: int|
                0 <= i < parts.len() - 1 && (text::trimmed(#[trigger] parts[i]) == "Ctrl"@
                    || text::trimmed(parts[i]) == "Control"@);
            assert(is_ctrl(views[i]));
        }
        if exists|i: int| 0 <= i < parts.len() - 1 && text::trimmed(#[trigger] parts[i]) == "Shift"@ {
            let i = choose|i: int|
                0 <= i < parts.len() - 1 && text::trimmed(#[trigger] parts[i]) == "Shift"@;
            assert(views[i] == "Shift"@);
        }
        if exists|i: int| 0 <= i < parts.len() - 1 && text::trimmed(#[trigger] parts[i]) == "Alt"@ {
            let i = choose|i: int|
                0 <= i < parts.len() - 1 && text::trimmed(#[trigger] parts[i]) == "Alt"@;
            assert(views[i] == "Alt"@);
        }
    }
}

} // verus!
