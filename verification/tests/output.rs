use awase::kana_table::{CharRomaji, KanaTable};
use awase::macos::output::{
    ascii_to_keycode, fullwidth_to_ascii, ime_literal_keystroke, jis_kana_keycode,
    kana_symbol_to_ascii, special_key_to_keycode, split_voicing, KeyPost, Output,
    OutputStyle,
};
use awase::types::{KeyAction, KeyEventType, SpecialKey, VkCode};


#[test]
fn ascii_to_keycode_covers_yab_literal_symbols() {
    for ch in ['?', '/', '~', '[', ']', '(', ')', '{', '}'] {
        assert!(ascii_to_keycode(ch).is_some(), "missing keycode for {ch:?}");
    }
}

#[test]
fn ascii_to_keycode_jis_bracket_positions() {
    assert_eq!(ascii_to_keycode('['), Some((0x1E, false)));
    assert_eq!(ascii_to_keycode(']'), Some((0x2A, false)));
    assert_eq!(ascii_to_keycode('?'), Some((0x2C, true)));
}

#[test]
fn jis_kana_strokes_cover_all_engine_kana() {
    let all = "あいうえおかきくけこさしすせそたちつてとなにぬねのはひふへほ\
               まみむめもやゆよらりるれろわをんぁぃぅぇぉゃゅょっ\
               がぎぐげござじずぜぞだぢづでどばびぶべぼぱぴぷぺぽゔ\
               ー、。・「」゛゜";
    for ch in all.chars() {
        let (base, _mark) = split_voicing(ch);
        assert!(
            jis_kana_keycode(base).is_some(),
            "missing JIS kana stroke for {ch:?} (base {base:?})"
        );
    }
}

#[test]
fn ime_literal_symbols_use_jis_positions() {
    assert_eq!(ime_literal_keystroke('／'), Some((0x2C, false)));
    assert_eq!(ime_literal_keystroke('［'), Some((0x1E, false)));
    assert_eq!(ime_literal_keystroke('］'), Some((0x2A, false)));
    assert_eq!(ime_literal_keystroke('あ'), None);
}

#[test]
fn jis_yen_and_underscore_keycodes_match_carbon() {
    assert_eq!(jis_kana_keycode('ー'), Some((0x5D, false)));
    assert_eq!(jis_kana_keycode('ろ'), Some((0x5E, false)));
    assert_eq!(ascii_to_keycode('\\'), Some((0x5D, false)));
    assert_eq!(ascii_to_keycode('_'), Some((0x5E, true)));
}

#[test]
fn jis_kana_keycode_spot_checks() {
    assert_eq!(jis_kana_keycode('ね'), Some((0x2B, false)));
    assert_eq!(jis_kana_keycode('く'), Some((0x04, false)));
    assert_eq!(jis_kana_keycode('っ'), Some((0x06, true)));
    assert_eq!(jis_kana_keycode('を'), Some((0x1D, true)));
    assert_eq!(split_voicing('が'), ('か', Some('゛')));
    assert_eq!(split_voicing('ぱ'), ('は', Some('゜')));
    assert_eq!(split_voicing('ね'), ('ね', None));
}

fn tap(keycode: u16) -> Vec<KeyPost> {
    vec![stroke(keycode, true), stroke(keycode, false)]
}

fn stroke(keycode: u16, down: bool) -> KeyPost {
    KeyPost::Key {
        keycode,
        down,
        shift: false,
        option: false,
    }
}

#[test]
fn romaji_goes_out_letter_by_letter() {
    let mut out = Output::new(OutputStyle::Romaji, vec![]);
    assert!(!out.composing_hint);
    let posts = out.send_keys(&vec![KeyAction::Romaji("ka".to_string())]);
    assert_eq!(posts, [tap(0x28), tap(0x00)].concat());
    assert!(out.composing_hint);
    let posts = out.send_keys(&vec![KeyAction::SpecialKey(SpecialKey::Enter)]);
    assert_eq!(posts, tap(special_key_to_keycode(SpecialKey::Enter)));
    assert!(!out.composing_hint);
}

#[test]
fn the_kana_style_strikes_kana_and_voicing_marks() {
    let mut out = Output::new(OutputStyle::Kana, vec![]);
    let (base, _) = jis_kana_keycode('か').unwrap();
    let (mark, _) = jis_kana_keycode('゛').unwrap();
    let posts = out.send_keys(&vec![KeyAction::Romaji("ga".to_string())]);
    assert_eq!(posts, [tap(base), tap(mark)].concat());
    assert_eq!(out.send_keys(&vec![KeyAction::Char('が')]), posts);
}

#[test]
fn a_spelling_of_the_user_comes_first() {
    let table = vec![CharRomaji {
        ch: 'か',
        romaji: "u".to_string(),
    }];
    let mut out = Output::new(OutputStyle::Romaji, table);
    assert_eq!(out.send_keys(&vec![KeyAction::Char('か')]), tap(0x20));
}

#[test]
fn what_has_no_key_goes_past_the_ime() {
    let mut out = Output::new(OutputStyle::Romaji, vec![]);
    assert_eq!(
        out.send_keys(&vec![KeyAction::Char('漢')]),
        vec![KeyPost::Char('漢')]
    );
    assert!(!out.composing_hint);
    assert!(out.send_keys(&vec![KeyAction::Suppress]).is_empty());
}

#[test]
fn shift_is_pressed_and_released_around_a_stroke() {
    let mut out = Output::new(OutputStyle::Romaji, vec![]);
    let posts = out.send_keys(&vec![KeyAction::KeySequence("?".to_string())]);
    assert_eq!(posts.len(), 4);
    assert_eq!(posts[0], stroke(0x38, true));
    assert_eq!(posts[3], stroke(0x38, false));
    assert_eq!(
        posts[1],
        KeyPost::Key {
            keycode: 0x2C,
            down: true,
            shift: true,
            option: false
        }
    );
}

#[test]
fn symbols_that_the_ime_would_change_are_struck_with_option() {
    let mut out = Output::new(OutputStyle::Romaji, vec![]);
    let posts = out.send_keys(&vec![KeyAction::Char('／')]);
    assert_eq!(posts[0], stroke(0x3A, true));
    assert_eq!(
        posts[1],
        KeyPost::Key {
            keycode: 0x2C,
            down: true,
            shift: false,
            option: true
        }
    );
    assert_eq!(posts[3], stroke(0x3A, false));
}

#[test]
fn raw_keys_are_posted_one_by_one() {
    let mut out = Output::new(OutputStyle::Romaji, vec![]);
    let vk = VkCode(0x66);
    assert_eq!(
        out.send_keys(&vec![KeyAction::Key(vk), KeyAction::KeyUp(vk)]),
        tap(0x66)
    );
    assert_eq!(out.reinject(vk, KeyEventType::KeyUp), stroke(0x66, false));
    out.send_keys(&vec![KeyAction::KeySequence("a".to_string())]);
    assert!(out.composing_hint);
    out.note_composition_break();
    assert!(!out.composing_hint);
}

#[test]
fn full_width_characters_have_half_width_ones() {
    assert_eq!(fullwidth_to_ascii('Ａ'), Some('A'));
    assert_eq!(fullwidth_to_ascii('～'), Some('~'));
    assert_eq!(fullwidth_to_ascii('あ'), None);
    assert_eq!(kana_symbol_to_ascii('、'), Some(","));
    assert_eq!(kana_symbol_to_ascii('あ'), None);
}

#[test]
fn ascii_strokes_are_distinct() {
    let chars: Vec<char> = (' '..='~').filter(|c| ascii_to_keycode(*c).is_some()).collect();
    for (i, a) in chars.iter().enumerate() {
        for b in &chars[i + 1..] {
            if !a.eq_ignore_ascii_case(b) {
                assert_ne!(ascii_to_keycode(*a), ascii_to_keycode(*b), "{a:?} {b:?}");
            }
        }
    }
}

#[test]
fn the_first_of_two_spellings_counts() {
    let spelled = |romaji: &str| CharRomaji {
        ch: '※',
        romaji: romaji.to_string(),
    };
    let mut out = Output::new(OutputStyle::Romaji, vec![spelled("u"), spelled("a")]);
    assert_eq!(out.send_keys(&vec![KeyAction::Char('※')]), tap(0x20));
}

#[test]
fn kana_are_looked_up_both_ways() {
    let table = KanaTable::build();
    for ch in 'ぁ'..='ん' {
        if let Some(romaji) = table.romaji_for_kana(ch) {
            assert_eq!(table.kana_for_romaji(romaji), Some(ch), "{romaji}");
        }
    }
    assert_eq!(table.romaji_for_kana('し'), Some("si"));
    assert_eq!(table.kana_for_romaji("xtu"), Some('っ'));
    assert_eq!(table.romaji_for_kana('・'), None);
    assert_eq!(table.kana_for_romaji("q"), None);
}
