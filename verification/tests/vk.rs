use awase::macos::vk::{key_name_to_keycode, parse_key_combo};
use awase::types::VkCode;


#[test]
fn parse_key_combo_resolves_modifiers_and_key() {
    let combo = parse_key_combo("Ctrl+Shift+変換").unwrap();
    assert!(combo.ctrl && combo.shift && !combo.alt);
    assert_eq!(combo.vk, VkCode(0x68));
}

#[test]
fn parse_key_combo_accepts_bare_key() {
    let combo = parse_key_combo("無変換").unwrap();
    assert!(!combo.ctrl && !combo.shift && !combo.alt);
    assert_eq!(combo.vk, VkCode(0x66));
}

#[test]
fn parse_key_combo_rejects_unknown_parts() {
    assert!(parse_key_combo("Meta+A").is_none());
    assert!(parse_key_combo("Ctrl+NoSuchKey").is_none());
    assert!(parse_key_combo("").is_none());
}

#[test]
fn key_names_by_their_codes() {
    assert_eq!(key_name_to_keycode("無変換"), Some(VkCode(0x66)));
    assert_eq!(key_name_to_keycode("変換"), Some(VkCode(0x68)));
    assert_eq!(key_name_to_keycode("NoSuchKey"), None);
    assert_eq!(parse_key_combo("Ctrl + Shift + 変換"), parse_key_combo("Ctrl+Shift+変換"));
}
