use awase::config::{
    classify_causes, classify_load_error, default_disable_apps, AppConfig, AppOverrideEntry,
    CauseKind, ConfigLoadState, ConfirmMode, GeneralConfig, KeysConfig, ValidatedConfig,
};
use awase::scanmap::KeyboardModel;
use awase::text::trim;

fn strings(list: &[&str]) -> Vec<String> {
    list.iter().map(|s| s.to_string()).collect()
}

fn config(set: fn(&mut AppConfig)) -> AppConfig {
    let mut c = AppConfig::default();
    set(&mut c);
    c
}

fn validated(set: fn(&mut AppConfig)) -> (ValidatedConfig, Vec<String>) {
    config(set).validate()
}

fn has(warnings: &[String], part: &str) -> bool {
    warnings.iter().any(|w| w.contains(part))
}

fn us_keys(c: &mut AppConfig) {
    c.general.keyboard_model = KeyboardModel::Us;
    c.general.left_thumb_key = "VK_F16".to_string();
    c.general.right_thumb_key = "VK_F17".to_string();
    c.keys.engine_on = strings(&["Ctrl+Shift+VK_F13"]);
    c.keys.engine_off = strings(&["Ctrl+Shift+VK_F14"]);
    c.keys.ime_on = strings(&["Ctrl+VK_F13"]);
    c.keys.ime_off = strings(&["Ctrl+VK_F14"]);
    c.keys.engine_off_solo_repeat = Some("VK_F15".to_string());
}

#[test]
fn test_parse_app_config_defaults() {
    let config = AppConfig::default();
    assert_eq!(config.general.simultaneous_threshold_ms, 100);
    assert_eq!(config.general.left_thumb_key, "無変換");
    assert_eq!(config.general.right_thumb_key, "変換");
    assert_eq!(config.general.default_layout, "nicola.yab");
    assert_eq!(config.general.layouts_dir, "config");
}

#[test]
fn test_parse_app_config_missing_general_section_uses_defaults() {
    let config = AppConfig::default();
    assert_eq!(config.general.simultaneous_threshold_ms, 100);
    assert_eq!(config.general.left_thumb_key, "無変換");
    assert_eq!(config.general.right_thumb_key, "変換");
    assert_eq!(config.general.default_layout, "nicola.yab");
}

#[test]
fn classify_load_error_maps_not_found_io_error_to_not_found() {
    let io = std::io::Error::new(std::io::ErrorKind::NotFound, "no such file");
    let err = anyhow::Error::new(io).context("Failed to read config.toml");
    assert_eq!(classify_load_error(&err), ConfigLoadState::NotFound);
}

#[test]
fn classify_load_error_maps_parse_error_to_dangerous() {
    let parse = "this is not valid toml [[[".parse::<toml::Table>().unwrap_err();
    let err = anyhow::Error::new(parse).context("Failed to parse config.toml");
    assert_eq!(
        classify_load_error(&err),
        ConfigLoadState::Dangerous("Failed to parse config.toml".to_string()),
        "parse errors must never be classified as NotFound"
    );
}

#[test]
fn classify_load_error_maps_permission_denied_to_dangerous() {
    let io = std::io::Error::new(std::io::ErrorKind::PermissionDenied, "denied");
    let err = anyhow::Error::new(io).context("Failed to read config.toml");
    assert_eq!(
        classify_load_error(&err),
        ConfigLoadState::Dangerous("Failed to read config.toml".to_string()),
        "PermissionDenied must not be misclassified as NotFound"
    );
}

#[test]
fn the_first_io_error_decides() {
    let message = || "m".to_string();
    assert_eq!(
        classify_causes(&vec![], message()),
        ConfigLoadState::Dangerous("m".to_string())
    );
    assert_eq!(
        classify_causes(
            &vec![CauseKind::NotIo, CauseKind::IoNotFound, CauseKind::IoOther],
            message()
        ),
        ConfigLoadState::NotFound
    );
    assert_eq!(
        classify_causes(&vec![CauseKind::IoOther, CauseKind::IoNotFound], message()),
        ConfigLoadState::Dangerous("m".to_string())
    );
}

#[test]
fn test_keys_config_default_has_no_engine_ime_mode_keys() {
    let keys = KeysConfig::default();
    assert_eq!(keys.engine_on_ime_key, None);
    assert_eq!(keys.engine_off_ime_key, None);
}

#[test]
fn test_parse_app_config_engine_ime_keys_default_to_none() {
    let config = AppConfig::default();
    assert_eq!(config.keys.engine_on_ime_key, None);
    assert_eq!(config.keys.engine_off_ime_key, None);
}

#[test]
fn test_keys_config_default_ime_toggle_is_kanji_key() {
    let keys = KeysConfig::default();
    assert_eq!(keys.ime_toggle, vec!["VK_KANJI".to_string()]);
}

#[test]
fn test_keyboard_model_defaults_to_jis() {
    let config = AppConfig::default();
    assert_eq!(config.general.keyboard_model, KeyboardModel::Jis);
}

#[test]
fn test_validate_us_keyboard_with_default_thumb_keys_warns() {
    let (_validated, warnings) = validated(|c| c.general.keyboard_model = KeyboardModel::Us);
    assert!(warnings.iter().any(|w| w.contains("left_thumb_key")));
    assert!(warnings.iter().any(|w| w.contains("engine_on")));
}

#[test]
fn test_validate_us_keyboard_with_default_layout_warns() {
    let (_validated, warnings) = validated(us_keys);
    assert!(warnings.iter().any(|w| w.contains("nicola_us.yab")));
}

#[test]
fn test_validate_us_keyboard_with_overridden_thumb_keys_is_clean() {
    let (_validated, warnings) = validated(|c| {
        us_keys(c);
        c.general.default_layout = "nicola_us.yab".to_string();
    });
    assert!(warnings.is_empty(), "unexpected warnings: {warnings:?}");
}

#[test]
fn test_validate_jis_keyboard_default_thumb_keys_is_clean() {
    let (_validated, warnings) = AppConfig::default().validate();
    assert!(warnings.is_empty(), "unexpected warnings: {warnings:?}");
}

#[test]
fn test_app_overrides_default_empty() {
    let config = AppConfig::default();
    assert!(config.app_overrides.force_text.is_empty());
    assert!(config.app_overrides.force_bypass.is_empty());
    assert!(config.app_overrides.force_vk.is_empty());
}

#[test]
fn test_disable_apps_defaults_to_mstsc() {
    let config = AppConfig::default();
    assert_eq!(config.app_overrides.disable_apps, vec!["mstsc.exe"]);
    assert_eq!(default_disable_apps(), vec!["mstsc.exe"]);
}

#[test]
fn test_disable_apps_empty_entry_warns() {
    let (_validated, warnings) =
        validated(|c| c.app_overrides.disable_apps = strings(&["mstsc.exe", ""]));
    assert!(
        warnings
            .iter()
            .any(|w| w.contains("app_overrides.disable_apps")),
        "expected a warning about disable_apps, got: {warnings:?}"
    );
}

#[test]
fn test_validate_threshold_out_of_range() {
    let (validated, warnings) = validated(|c| c.general.simultaneous_threshold_ms = 1000);
    assert_eq!(validated.general.simultaneous_threshold_ms, 100);
    assert!(has(&warnings, "simultaneous_threshold_ms"));
}

#[test]
fn test_validate_threshold_too_low() {
    let (validated, warnings) = validated(|c| c.general.simultaneous_threshold_ms = 5);
    assert_eq!(validated.general.simultaneous_threshold_ms, 100);
    assert!(has(&warnings, "simultaneous_threshold_ms"));
}

#[test]
fn test_validate_speculative_delay_exceeds_threshold() {
    let (validated, warnings) = validated(|c| {
        c.general.simultaneous_threshold_ms = 50;
        c.general.speculative_delay_ms = 80;
    });
    assert_eq!(validated.general.speculative_delay_ms, 30);
    assert!(has(&warnings, "speculative_delay_ms"));
}

#[test]
fn test_validate_path_traversal() {
    let (validated, warnings) =
        validated(|c| c.general.layouts_dir = "../../../etc".to_string());
    assert_eq!(validated.general.layouts_dir, "layout");
    assert!(has(&warnings, ".."));
}

#[test]
fn test_validate_default_layout_no_yab() {
    let (_validated, warnings) =
        validated(|c| c.general.default_layout = "nicola.txt".to_string());
    assert!(has(&warnings, ".yab"));
}

#[test]
fn test_validate_empty_focus_override_entry() {
    let (_validated, warnings) = validated(|c| {
        c.app_overrides.force_text = vec![AppOverrideEntry {
            process: String::new(),
            class: "Edit".to_string(),
        }]
    });
    assert!(has(&warnings, "force_text"));
}

#[test]
fn test_validate_threshold_boundary_low() {
    let (validated, warnings) = validated(|c| c.general.simultaneous_threshold_ms = 9);
    assert_eq!(validated.general.simultaneous_threshold_ms, 100);
    assert!(has(&warnings, "simultaneous_threshold_ms"));
}

#[test]
fn test_validate_threshold_boundary_exact_low() {
    let (validated, warnings) = validated(|c| c.general.simultaneous_threshold_ms = 10);
    assert_eq!(validated.general.simultaneous_threshold_ms, 10);
    assert!(!has(&warnings, "simultaneous_threshold_ms"));
}

#[test]
fn test_validate_threshold_boundary_exact_high() {
    let (validated, warnings) = validated(|c| c.general.simultaneous_threshold_ms = 500);
    assert_eq!(validated.general.simultaneous_threshold_ms, 500);
    assert!(!has(&warnings, "simultaneous_threshold_ms"));
}

#[test]
fn test_validate_threshold_boundary_high() {
    let (validated, warnings) = validated(|c| c.general.simultaneous_threshold_ms = 501);
    assert_eq!(validated.general.simultaneous_threshold_ms, 100);
    assert!(has(&warnings, "simultaneous_threshold_ms"));
}

#[test]
fn test_validate_valid_config() {
    let (validated, warnings) = validated(|c| {
        c.general.simultaneous_threshold_ms = 100;
        c.general.speculative_delay_ms = 30;
        c.general.layouts_dir = "layout".to_string();
        c.general.default_layout = "nicola.yab".to_string();
    });
    assert!(warnings.is_empty());
    assert_eq!(validated.general.simultaneous_threshold_ms, 100);
    assert_eq!(validated.general.speculative_delay_ms, 30);
    assert_eq!(validated.general.layouts_dir, "layout");
    assert_eq!(validated.general.default_layout, "nicola.yab");
}

#[test]
fn test_validate_dedicated_fn_key_safe_range_no_warning() {
    for vk in [
        "VK_F15", "VK_F16", "VK_F17", "VK_F18", "VK_F19", "VK_F20", "VK_F21", "VK_F22", "VK_F23",
        "VK_F24",
    ] {
        let mut general = GeneralConfig::default();
        general.muhenkan_solo_tap_dedicated_fn_key = Some(vk.to_string());
        let mut warnings = Vec::new();
        AppConfig::validate_dedicated_fn_key(&general, &mut warnings);
        assert!(warnings.is_empty(), "{vk} は警告なしで許可されるべき");
    }
}

#[test]
fn test_validate_dedicated_fn_key_rejects_dangerous_and_terminal_unsafe_keys() {
    for vk in ["VK_F13", "VK_F14", "VK_NONCONVERT", "VK_IME_ON", "VK_KANJI"] {
        let mut general = GeneralConfig::default();
        general.muhenkan_solo_tap_dedicated_fn_key = Some(vk.to_string());
        let mut warnings = Vec::new();
        AppConfig::validate_dedicated_fn_key(&general, &mut warnings);
        assert_eq!(warnings.len(), 1, "{vk} は安全範囲外として警告されるべき");
        assert!(
            warnings[0].starts_with(&format!("muhenkan_solo_tap_dedicated_fn_key = {vk:?} ")),
            "{warnings:?}"
        );
    }
}

#[test]
fn a_refused_function_key_is_quoted() {
    let mut general = GeneralConfig::default();
    general.muhenkan_solo_tap_dedicated_fn_key = Some("a\"b\n".to_string());
    let mut warnings = Vec::new();
    AppConfig::validate_dedicated_fn_key(&general, &mut warnings);
    assert!(warnings[0].contains("\"a\\\"b\\n\""), "{warnings:?}");
}

#[test]
fn test_validate_warns_for_bare_thumb_key_in_ime_combo_only() {
    let (_validated, warnings) = validated(|c| {
        c.general.left_thumb_key = "無変換".to_string();
        c.keys.ime_on = strings(&["VK_NONCONVERT"]);
        c.keys.ime_off = strings(&["Ctrl+VK_NONCONVERT"]);
        c.keys.ime_toggle = vec![];
    });
    assert!(
        warnings
            .iter()
            .any(|w| w.contains("keys.ime_on") && w.contains("親指キー")),
        "bare thumb key in keys.ime_on should warn, got: {warnings:?}"
    );
    assert!(
        !warnings.iter().any(|w| w.contains("keys.ime_off")),
        "Ctrl+無変換 must not warn, got: {warnings:?}"
    );
}

#[test]
fn thumb_key_names_are_compared_without_blanks() {
    assert_eq!(AppConfig::canonical_thumb_key_name(" 無変換 "), AppConfig::canonical_thumb_key_name("VK_NONCONVERT"));
    assert_eq!(AppConfig::canonical_thumb_key_name("\u{3000}VK_F16\t"), "VK_F16");
    let (_validated, warnings) = validated(|c| c.keys.ime_toggle = strings(&["\u{3000}変換 "]));
    assert!(has(&warnings, "keys.ime_toggle"), "{warnings:?}");
}

#[test]
fn test_engine_toggle_key_defaults() {
    let config = AppConfig::default();
    assert_eq!(config.keys.engine_off, vec!["Ctrl+Shift+無変換"]);
    assert_eq!(config.keys.engine_on, vec!["Ctrl+Shift+変換"]);
}

#[test]
fn test_linux_defaults() {
    let config = AppConfig::default();
    assert_eq!(config.general.linux_input_backend, "evdev");
    assert_eq!(config.general.linux_evdev_device, None);
}

#[test]
fn test_linux_libinput_backend() {
    let (validated, warnings) =
        validated(|c| c.general.linux_input_backend = "libinput".to_string());
    assert!(warnings.iter().all(|w| !w.contains("linux_input_backend")));
    assert_eq!(validated.general.linux_input_backend, "libinput");
}

#[test]
fn test_linux_invalid_backend_produces_warning() {
    let (validated, warnings) =
        validated(|c| c.general.linux_input_backend = "wayland".to_string());
    assert!(warnings.iter().any(|w| w.contains("linux_input_backend")));
    assert_eq!(validated.general.linux_input_backend, "evdev");
}

#[test]
fn test_linux_invalid_evdev_device_produces_warning() {
    let (validated, warnings) =
        validated(|c| c.general.linux_evdev_device = Some("not/a/dev/path".to_string()));
    assert!(warnings.iter().any(|w| w.contains("linux_evdev_device")));
    assert_eq!(validated.general.linux_evdev_device, None);
}

#[test]
fn test_validate_speculative_delay_equal_to_threshold_is_not_reset() {
    let (validated, warnings) = validated(|c| {
        c.general.simultaneous_threshold_ms = 50;
        c.general.speculative_delay_ms = 50;
    });
    assert_eq!(
        validated.general.speculative_delay_ms, 50,
        "equal to threshold must not be reset"
    );
    assert!(
        !warnings.iter().any(|w| w.contains("speculative_delay_ms")),
        "unexpected warning: {warnings:?}"
    );
}

#[test]
fn test_validate_thumb_keys_warns_on_left_kana() {
    let (_validated, warnings) = validated(|c| c.general.left_thumb_key = "Kana".to_string());
    assert!(warnings.iter().any(|w| w.contains("ロック型")));
}

#[test]
fn test_validate_thumb_keys_warns_on_left_vk_kana() {
    let (_validated, warnings) = validated(|c| c.general.left_thumb_key = "VK_KANA".to_string());
    assert!(warnings.iter().any(|w| w.contains("ロック型")));
}

#[test]
fn test_validate_thumb_keys_warns_on_right_kana() {
    let (_validated, warnings) = validated(|c| c.general.right_thumb_key = "Kana".to_string());
    assert!(warnings.iter().any(|w| w.contains("ロック型")));
}

#[test]
fn test_validate_thumb_keys_warns_on_right_vk_kana() {
    let (_validated, warnings) = validated(|c| c.general.right_thumb_key = "VK_KANA".to_string());
    assert!(warnings.iter().any(|w| w.contains("ロック型")));
}

#[test]
fn test_validate_thumb_keys_no_warning_for_defaults() {
    let (_validated, warnings) = AppConfig::default().validate();
    assert!(
        !warnings.iter().any(|w| w.contains("ロック型")),
        "default thumb keys must not warn, got: {warnings:?}"
    );
}

#[test]
fn an_invalid_output_style_is_reset() {
    let (validated, warnings) =
        validated(|c| c.general.macos_output_style = "roman".to_string());
    assert_eq!(validated.general.macos_output_style, "romaji");
    assert_eq!(
        warnings,
        vec!["macos_output_style \"roman\" は不正です。romaji/kana のいずれかを指定してください。romaji にリセットします"]
    );
}

#[test]
fn threshold_warning_names_both_numbers() {
    let (_validated, warnings) = validated(|c| {
        c.general.simultaneous_threshold_ms = 7;
        c.general.speculative_delay_ms = 120;
    });
    assert_eq!(
        warnings,
        vec![
            "simultaneous_threshold_ms (7) は 10-500 の範囲外です。100 にリセットします",
            "speculative_delay_ms (120) が threshold (100) を超えています。30 にリセットします",
        ]
    );
}

#[test]
fn validation_keeps_what_is_usable_and_is_idempotent() {
    let (once, _) = validated(|c| {
        c.general.simultaneous_threshold_ms = 9999;
        c.general.layouts_dir = "a/../b".to_string();
        c.general.linux_evdev_device = Some("/dev/input/event3".to_string());
        c.general.confirm_mode = ConfirmMode::TwoPhase;
    });
    assert_eq!(once.general.confirm_mode, ConfirmMode::TwoPhase);
    assert_eq!(
        once.general.linux_evdev_device,
        Some("/dev/input/event3".to_string())
    );
    let again = AppConfig {
        general: once.general,
        keys: once.keys,
        app_overrides: once.app_overrides,
        keymaps: once.keymaps,
        post_bypass: once.post_bypass,
        key_remap: once.key_remap,
        macos_symbol_romaji: once.macos_symbol_romaji,
    };
    let (twice, warnings) = again.validate();
    assert!(warnings.is_empty(), "{warnings:?}");
    assert_eq!(twice.general.simultaneous_threshold_ms, 100);
    assert_eq!(twice.general.layouts_dir, "layout");
}

#[test]
fn a_delay_is_not_reset_beyond_the_threshold() {
    let (validated, warnings) = validated(|c| {
        c.general.simultaneous_threshold_ms = 20;
        c.general.speculative_delay_ms = 25;
    });
    assert_eq!(validated.general.simultaneous_threshold_ms, 20);
    assert_eq!(validated.general.speculative_delay_ms, 20);
    assert!(has(
        &warnings,
        "speculative_delay_ms (25) が threshold (20) を超えています。20 にリセットします"
    ));
}

#[test]
fn the_defaults_leave_the_ime_mode_keys_unset() {
    let keys = AppConfig::default().keys;
    assert!(keys.ime_detect.toggle.is_empty());
    assert_eq!(keys.ime_detect.on, ["IMEオン"]);
    assert_eq!(keys.ime_detect.off, ["IMEオフ"]);
    assert_eq!(keys.engine_on_ime_key, None);
    assert_eq!(keys.engine_off_ime_key, None);
}

#[test]
fn whitespace_is_what_unicode_says() {
    let white = |code: u32| {
        matches!(
            code,
            0x09..=0x0D
                | 0x20
                | 0x85
                | 0xA0
                | 0x1680
                | 0x2000..=0x200A
                | 0x2028
                | 0x2029
                | 0x202F
                | 0x205F
                | 0x3000
        )
    };
    for c in '\0'..=char::MAX {
        let text = c.to_string();
        let expected = if white(c as u32) { "" } else { text.as_str() };
        assert_eq!(trim(&text), expected, "{:#x}", c as u32);
    }
}
