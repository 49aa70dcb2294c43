use awase::engine::fsm_types::Face;
use awase::scanmap::{KeyboardModel, PhysicalPos};
use awase::types::{KeyAction, SpecialKey};
use awase::yab::{YabError, YabLayout};

const TEXT: &str = "; comment
[ローマ字シフト無し]
1,2,3,4,5, 6,7,8,9,0, -,^,無
'。',ka,ta,ko,sa, ra,ti,ku,tu,'，','、',無
u, si,te,ke,se, ha,to,ki, i, nn, 後, 逃\r

[ローマ字左親指シフト]
'？','／'

[機能キー]
x,y,z
";

fn at(l: &YabLayout, face: Face, row: u8, col: u8) -> Option<KeyAction> {
    l.get(face, PhysicalPos { row, col })
}

#[test]
fn a_layout_is_read_row_by_row() {
    let l = YabLayout::parse(TEXT, KeyboardModel::Jis).unwrap();
    let romaji = |s: &str| Some(KeyAction::Romaji(s.to_string()));
    assert_eq!(at(&l, Face::Normal, 0, 0), romaji("1"));
    assert_eq!(at(&l, Face::Normal, 0, 12), None);
    assert_eq!(at(&l, Face::Normal, 1, 0), Some(KeyAction::Char('。')));
    assert_eq!(at(&l, Face::Normal, 1, 1), romaji("ka"));
    assert_eq!(at(&l, Face::Normal, 2, 1), romaji("si"));
    assert_eq!(
        at(&l, Face::Normal, 2, 10),
        Some(KeyAction::SpecialKey(SpecialKey::Backspace))
    );
    assert_eq!(
        at(&l, Face::Normal, 2, 11),
        Some(KeyAction::SpecialKey(SpecialKey::Escape))
    );
    assert_eq!(at(&l, Face::LeftThumb, 0, 1), Some(KeyAction::Char('／')));
    assert_eq!(at(&l, Face::RightThumb, 0, 0), None);
    assert_eq!(l.shift.entries.len(), 0);
}

#[test]
fn a_text_without_sections_has_no_keys() {
    let l = YabLayout::parse("", KeyboardModel::Jis).unwrap();
    assert_eq!(at(&l, Face::Normal, 0, 0), None);
    let l = YabLayout::parse("a,b,c\n", KeyboardModel::Jis).unwrap();
    assert_eq!(at(&l, Face::Normal, 0, 0), None);
}

#[test]
fn a_layout_for_the_other_keyboard_does_not_fit() {
    assert_eq!(
        YabLayout::parse(TEXT, KeyboardModel::Us).unwrap_err(),
        YabError::TooManyColumns { line: 3 }
    );
}

#[test]
fn a_section_has_no_more_rows_than_the_keyboard() {
    assert_eq!(
        YabLayout::parse("[ローマ字小指シフト]\na\nb\nc\nd\ne\n", KeyboardModel::Jis).unwrap_err(),
        YabError::TooManyRows { line: 6 }
    );
}

#[test]
fn romaji_goes_out_as_the_kana_that_it_spells() {
    let l = YabLayout::parse(TEXT, KeyboardModel::Jis).unwrap().resolve_kana();
    assert_eq!(at(&l, Face::Normal, 1, 1), Some(KeyAction::Char('か')));
    assert_eq!(at(&l, Face::Normal, 2, 1), Some(KeyAction::Char('し')));
    // Spells no kana.
    assert_eq!(
        at(&l, Face::Normal, 0, 0),
        Some(KeyAction::Romaji("1".to_string()))
    );
    assert_eq!(at(&l, Face::Normal, 1, 0), Some(KeyAction::Char('。')));
    let again = l.resolve_kana();
    assert_eq!(at(&again, Face::Normal, 1, 1), Some(KeyAction::Char('か')));
}
