use awase::diagnostics::{key_content_value_enabled, MaskedVk, KEY_CONTENT_ENV};


#[test]
fn only_exact_one_enables_key_content() {
    assert!(key_content_value_enabled(Some("1")));
    assert!(!key_content_value_enabled(Some("true")));
    assert!(!key_content_value_enabled(Some("0")));
    assert!(!key_content_value_enabled(Some(" 1")));
    assert!(!key_content_value_enabled(None));
}

#[test]
fn a_masked_vk_hides_the_code_without_the_opt_in() {
    assert_eq!(MaskedVk(0x28).to_text(None), "<masked>");
}

#[test]
fn a_masked_vk_shows_the_code_with_the_opt_in() {
    assert_eq!(KEY_CONTENT_ENV, "AWASE_LOG_KEY_CONTENT");
    assert_eq!(MaskedVk(0x28).to_text(Some("1")), "0x28");
    assert_eq!(MaskedVk(0x28).to_text(Some("yes")), MaskedVk(0x41).to_text(None));
}
