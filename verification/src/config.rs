//! Configuration: its types, its defaults and its validation.

use vstd::prelude::*;
use vstd::string::*;

use crate::scanmap::KeyboardModel;
use crate::text;
use crate::types::VkCode;

verus! {

/// What to do with the mode keys that the OS may generate on its own.
#[derive(Debug, Clone, Copy, PartialEq, Eq, Structural)]
pub enum DbeModeKeyPolicy {
    Suppress,
    Passthrough,
}

impl Default for DbeModeKeyPolicy {
    fn default() -> (r: Self)
        ensures
            r == DbeModeKeyPolicy::Suppress,
    {
        DbeModeKeyPolicy::Suppress
    }
}

/// For which IMEs a tap of the left shift key toggles half-width alphanumerics.
#[derive(Debug, Clone, Copy, PartialEq, Eq, Structural)]
pub enum HalfWidthAlnumTogglePolicy {
    Off,
    MsImeOnly,
    All,
}

impl Default for HalfWidthAlnumTogglePolicy {
    fn default() -> (r: Self)
        ensures
            r == HalfWidthAlnumTogglePolicy::MsImeOnly,
    {
        HalfWidthAlnumTogglePolicy::MsImeOnly
    }
}

/// When a character that might be half of a simultaneous stroke is sent.
#[derive(Debug, Clone, Copy, PartialEq, Eq, Structural)]
pub enum ConfirmMode {
    /// Hold the output until the timeout.
    Wait,
    /// Send at once and replace the output on a simultaneous stroke.
    Speculative,
    /// Wait briefly, then send and replace on a simultaneous stroke.
    TwoPhase,
    /// Wait while typing is continuous, speculate after a pause.
    AdaptiveTiming,
    /// Wait for the whole threshold where a thumb face is the likelier one after what was sent
    /// last, and otherwise as briefly as the two phases do.
    NgramPredictive,
}

impl Default for ConfirmMode {
    fn default() -> (r: Self)
        ensures
            r == ConfirmMode::Wait,
    {
        ConfirmMode::Wait
    }
}

/// A key with the modifiers that must be held.
#[derive(Debug, Clone, Copy, PartialEq, Eq, Structural)]
pub struct ParsedKeyCombo {
    pub ctrl: bool,
    pub shift: bool,
    pub alt: bool,
    pub vk: VkCode,
}

// ---- Views ----

pub open spec fn option_view(o: Option<String>) -> Option<Seq<char>> {
    match o {
        Some(s) => Some(s@),
        None => None,
    }
}

pub open spec fn string_views(v: Seq<String>) -> Seq<Seq<char>> {
    v.map_values(|s: String| s@)
}

// ---- General settings ----

#[derive(Debug, Clone)]
pub struct GeneralConfig {
    /// Time within which two keys count as one stroke, in milliseconds.
    pub simultaneous_threshold_ms: u32,
    /// Name of the left thumb key.
    pub left_thumb_key: String,
    /// Name of the right thumb key.
    pub right_thumb_key: String,
    /// Hotkey that switches the engine.
    pub engine_toggle_hotkey: Option<String>,
    /// Directory of the layout files.
    pub layouts_dir: String,
    /// Layout file to load.
    pub default_layout: String,
    /// Corpus for the adaptive threshold.
    pub ngram_file: Option<String>,
    /// How far the corpus may move the threshold.
    pub ngram_adjustment_range_ms: u32,
    /// Lower bound of the adaptive threshold.
    pub ngram_min_threshold_ms: u32,
    /// Upper bound of the adaptive threshold.
    pub ngram_max_threshold_ms: u32,
    pub confirm_mode: ConfirmMode,
    /// Wait before a speculative output.
    pub speculative_delay_ms: u32,
    pub focus_debounce_ms: u32,
    pub ime_poll_interval_ms: u32,
    pub auto_start: String,
    /// `evdev`, `x11` or `libinput`.
    pub linux_input_backend: String,
    /// `romaji` or `kana`.
    pub macos_output_style: String,
    /// Device path; detected where it is not set.
    pub linux_evdev_device: Option<String>,
    pub keyboard_model: KeyboardModel,
    pub space_thumb_ignore_composing_guard: bool,
    pub space_thumb_shift_literal: bool,
    pub muhenkan_solo_tap_ignore_composing_guard: bool,
    pub muhenkan_solo_tap_always_suppress: bool,
    /// Function key that a tap of the muhenkan key alone is turned into.
    pub muhenkan_solo_tap_dedicated_fn_key: Option<String>,
    pub dbe_mode_key_policy: DbeModeKeyPolicy,
    pub half_width_alnum_toggle: HalfWidthAlnumTogglePolicy,
    pub henkan_solo_tap_ignore_composing_guard: bool,
    pub henkan_solo_tap_always_suppress: bool,
    pub enter_thumb_ignore_composing_guard: bool,
    pub enter_thumb_shift_literal: bool,
    /// Keep the switch to direct kana input from the OS.
    pub swallow_alt_kana_input_method_switch: bool,
}

/// The general settings with strings as character sequences.
pub ghost struct GeneralView {
    pub simultaneous_threshold_ms: u32,
    pub left_thumb_key: Seq<char>,
    pub right_thumb_key: Seq<char>,
    pub engine_toggle_hotkey: Option<Seq<char>>,
    pub layouts_dir: Seq<char>,
    pub default_layout: Seq<char>,
    pub ngram_file: Option<Seq<char>>,
    pub ngram_adjustment_range_ms: u32,
    pub ngram_min_threshold_ms: u32,
    pub ngram_max_threshold_ms: u32,
    pub confirm_mode: ConfirmMode,
    pub speculative_delay_ms: u32,
    pub focus_debounce_ms: u32,
    pub ime_poll_interval_ms: u32,
    pub auto_start: Seq<char>,
    pub linux_input_backend: Seq<char>,
    pub macos_output_style: Seq<char>,
    pub linux_evdev_device: Option<Seq<char>>,
    pub keyboard_model: KeyboardModel,
    pub space_thumb_ignore_composing_guard: bool,
    pub space_thumb_shift_literal: bool,
    pub muhenkan_solo_tap_ignore_composing_guard: bool,
    pub muhenkan_solo_tap_always_suppress: bool,
    pub muhenkan_solo_tap_dedicated_fn_key: Option<Seq<char>>,
    pub dbe_mode_key_policy: DbeModeKeyPolicy,
    pub half_width_alnum_toggle: HalfWidthAlnumTogglePolicy,
    pub henkan_solo_tap_ignore_composing_guard: bool,
    pub henkan_solo_tap_always_suppress: bool,
    pub enter_thumb_ignore_composing_guard: bool,
    pub enter_thumb_shift_literal: bool,
    pub swallow_alt_kana_input_method_switch: bool,
}

impl View for GeneralConfig {
    type V = GeneralView;

    open spec fn view(&self) -> GeneralView {
        GeneralView {
            simultaneous_threshold_ms: self.simultaneous_threshold_ms,
            left_thumb_key: self.left_thumb_key@,
            right_thumb_key: self.right_thumb_key@,
            engine_toggle_hotkey: option_view(self.engine_toggle_hotkey),
            layouts_dir: self.layouts_dir@,
            default_layout: self.default_layout@,
            ngram_file: option_view(self.ngram_file),
            ngram_adjustment_range_ms: self.ngram_adjustment_range_ms,
            ngram_min_threshold_ms: self.ngram_min_threshold_ms,
            ngram_max_threshold_ms: self.ngram_max_threshold_ms,
            confirm_mode: self.confirm_mode,
            speculative_delay_ms: self.speculative_delay_ms,
            focus_debounce_ms: self.focus_debounce_ms,
            ime_poll_interval_ms: self.ime_poll_interval_ms,
            auto_start: self.auto_start@,
            linux_input_backend: self.linux_input_backend@,
            macos_output_style: self.macos_output_style@,
            linux_evdev_device: option_view(self.linux_evdev_device),
            keyboard_model: self.keyboard_model,
            space_thumb_ignore_composing_guard: self.space_thumb_ignore_composing_guard,
            space_thumb_shift_literal: self.space_thumb_shift_literal,
            muhenkan_solo_tap_ignore_composing_guard: self.muhenkan_solo_tap_ignore_composing_guard,
            muhenkan_solo_tap_always_suppress: self.muhenkan_solo_tap_always_suppress,
            muhenkan_solo_tap_dedicated_fn_key: option_view(self.muhenkan_solo_tap_dedicated_fn_key),
            dbe_mode_key_policy: self.dbe_mode_key_policy,
            half_width_alnum_toggle: self.half_width_alnum_toggle,
            henkan_solo_tap_ignore_composing_guard: self.henkan_solo_tap_ignore_composing_guard,
            henkan_solo_tap_always_suppress: self.henkan_solo_tap_always_suppress,
            enter_thumb_ignore_composing_guard: self.enter_thumb_ignore_composing_guard,
            enter_thumb_shift_literal: self.enter_thumb_shift_literal,
            swallow_alt_kana_input_method_switch: self.swallow_alt_kana_input_method_switch,
        }
    }
}

impl GeneralView {
    pub open spec fn default_spec() -> GeneralView {
        GeneralView {
            simultaneous_threshold_ms: 100,
            left_thumb_key: "無変換"@,
            right_thumb_key: "変換"@,
            engine_toggle_hotkey: None,
            layouts_dir: "config"@,
            default_layout: "nicola.yab"@,
            ngram_file: Some("data/ngram_hiragana.csv.gz"@),
            ngram_adjustment_range_ms: 20,
            ngram_min_threshold_ms: 30,
            ngram_max_threshold_ms: 120,
            confirm_mode: ConfirmMode::Wait,
            speculative_delay_ms: 30,
            focus_debounce_ms: 50,
            ime_poll_interval_ms: 500,
            auto_start: "enabled"@,
            linux_input_backend: "evdev"@,
            macos_output_style: "romaji"@,
            linux_evdev_device: None,
            keyboard_model: KeyboardModel::Jis,
            space_thumb_ignore_composing_guard: true,
            space_thumb_shift_literal: true,
            muhenkan_solo_tap_ignore_composing_guard: false,
            muhenkan_solo_tap_always_suppress: true,
            muhenkan_solo_tap_dedicated_fn_key: None,
            dbe_mode_key_policy: DbeModeKeyPolicy::Suppress,
            half_width_alnum_toggle: HalfWidthAlnumTogglePolicy::MsImeOnly,
            henkan_solo_tap_ignore_composing_guard: false,
            henkan_solo_tap_always_suppress: true,
            enter_thumb_ignore_composing_guard: true,
            enter_thumb_shift_literal: true,
            swallow_alt_kana_input_method_switch: true,
        }
    }
}

impl Default for GeneralConfig {
    fn default() -> (r: Self)
        ensures
            r@ == GeneralView::default_spec(),
    {
        GeneralConfig {
            simultaneous_threshold_ms: 100,
            left_thumb_key: "無変換".to_owned(),
            right_thumb_key: "変換".to_owned(),
            engine_toggle_hotkey: None,
            layouts_dir: "config".to_owned(),
            default_layout: "nicola.yab".to_owned(),
            ngram_file: Some("data/ngram_hiragana.csv.gz".to_owned()),
            ngram_adjustment_range_ms: 20,
            ngram_min_threshold_ms: 30,
            ngram_max_threshold_ms: 120,
            confirm_mode: ConfirmMode::Wait,
            speculative_delay_ms: 30,
            focus_debounce_ms: 50,
            ime_poll_interval_ms: 500,
            auto_start: "enabled".to_owned(),
            linux_input_backend: "evdev".to_owned(),
            macos_output_style: "romaji".to_owned(),
            linux_evdev_device: None,
            keyboard_model: KeyboardModel::Jis,
            space_thumb_ignore_composing_guard: true,
            space_thumb_shift_literal: true,
            muhenkan_solo_tap_ignore_composing_guard: false,
            muhenkan_solo_tap_always_suppress: true,
            muhenkan_solo_tap_dedicated_fn_key: None,
            dbe_mode_key_policy: DbeModeKeyPolicy::Suppress,
            half_width_alnum_toggle: HalfWidthAlnumTogglePolicy::MsImeOnly,
            henkan_solo_tap_ignore_composing_guard: false,
            henkan_solo_tap_always_suppress: true,
            enter_thumb_ignore_composing_guard: true,
            enter_thumb_shift_literal: true,
            swallow_alt_kana_input_method_switch: true,
        }
    }
}

// ---- Keys ----

/// Keys by which the IME's state is followed.
#[derive(Debug, Clone)]
pub struct ImeDetectConfig {
    /// Keys that turn the followed state over.
    pub toggle: Vec<String>,
    pub on: Vec<String>,
    pub off: Vec<String>,
}

impl Default for ImeDetectConfig {
    fn default() -> (r: Self)
        ensures
            string_views(r.toggle@) == Seq::<Seq<char>>::empty(),
            string_views(r.on@) == seq!["IMEオン"@],
            string_views(r.off@) == seq!["IMEオフ"@],
    {
        let r = ImeDetectConfig { toggle: Vec::new(), on: one("IMEオン"), off: one("IMEオフ") };
        assert(string_views(r.toggle@) =~= Seq::<Seq<char>>::empty());
        r
    }
}

/// Key combinations.
#[derive(Debug, Clone)]
pub struct KeysConfig {
    pub engine_on: Vec<String>,
    pub engine_off: Vec<String>,
    pub ime_on: Vec<String>,
    pub ime_off: Vec<String>,
    pub ime_toggle: Vec<String>,
    pub ime_detect: ImeDetectConfig,
    /// Key whose repeated taps switch the engine off.
    pub engine_off_solo_repeat: Option<String>,
    /// Key that is sent to the IME when the engine is switched on.
    pub engine_on_ime_key: Option<String>,
    pub engine_off_ime_key: Option<String>,
}

impl Default for KeysConfig {
    fn default() -> (r: Self)
        ensures
            string_views(r.engine_on@) == seq!["Ctrl+Shift+変換"@],
            string_views(r.engine_off@) == seq!["Ctrl+Shift+無変換"@],
            string_views(r.ime_on@) == seq!["Ctrl+変換"@],
            string_views(r.ime_off@) == seq!["Ctrl+無変換"@],
            string_views(r.ime_toggle@) == seq!["VK_KANJI"@],
            string_views(r.ime_detect.toggle@) == Seq::<Seq<char>>::empty(),
            string_views(r.ime_detect.on@) == seq!["IMEオン"@],
            string_views(r.ime_detect.off@) == seq!["IMEオフ"@],
            option_view(r.engine_off_solo_repeat) == Some("VK_INSERT"@),
            r.engine_on_ime_key is None,
            r.engine_off_ime_key is None,
    {
        KeysConfig {
            engine_on: one("Ctrl+Shift+変換"),
            engine_off: one("Ctrl+Shift+無変換"),
            ime_on: one("Ctrl+変換"),
            ime_off: one("Ctrl+無変換"),
            ime_toggle: one("VK_KANJI"),
            ime_detect: ImeDetectConfig::default(),
            engine_off_solo_repeat: Some("VK_INSERT".to_owned()),
            engine_on_ime_key: None,
            engine_off_ime_key: None,
        }
    }
}

/// A list of one string.
fn one(s: &str) -> (v: Vec<String>)
    ensures
        string_views(v@) == seq![s@],
{
    let v = vec![s.to_owned()];
    assert(string_views(v@) =~= seq![s@]);
    v
}

// ---- Rules for applications ----

/// A process and a window class.
#[derive(Debug, Clone)]
pub struct AppOverrideEntry {
    pub process: String,
    pub class: String,
}

/// Replaces one key combination by another, or swallows it.
#[derive(Debug, Clone)]
pub struct KeymapRule {
    /// Process the rule is for; every process where it is not set.
    pub app: Option<String>,
    pub from: String,
    pub to: Option<String>,
}

impl Default for KeymapRule {
    fn default() -> (r: Self)
        ensures
            r.app is None,
            r.from@ == Seq::<char>::empty(),
            r.to is None,
    {
        KeymapRule { app: None, from: String::new(), to: None }
    }
}

/// Treats one physical key as another, always.
#[derive(Debug, Clone)]
pub struct KeyRemapRule {
    pub from: String,
    pub to: String,
}

/// What is known of applications beforehand.
#[derive(Debug, Clone)]
pub struct AppOverrides {
    pub force_text: Vec<AppOverrideEntry>,
    pub force_bypass: Vec<AppOverrideEntry>,
    pub force_vk: Vec<AppOverrideEntry>,
    pub force_tsf: Vec<AppOverrideEntry>,
    /// Processes in which the program does nothing at all.
    pub disable_apps: Vec<String>,
}

impl Default for AppOverrides {
    fn default() -> (r: Self)
        ensures
            r.force_text@.len() == 0,
            r.force_bypass@.len() == 0,
            r.force_vk@.len() == 0,
            r.force_tsf@.len() == 0,
            string_views(r.disable_apps@) == seq!["mstsc.exe"@],
    {
        AppOverrides {
            force_text: Vec::new(),
            force_bypass: Vec::new(),
            force_vk: Vec::new(),
            force_tsf: Vec::new(),
            disable_apps: default_disable_apps(),
        }
    }
}

/// The processes that are disabled where the configuration says nothing.
#[must_use]
pub fn default_disable_apps() -> (v: Vec<String>)
    ensures
        string_views(v@) == seq!["mstsc.exe"@],
{
    one("mstsc.exe")
}

/// Lets the key after a bypassed combination through.
#[derive(Debug, Clone)]
pub struct PostBypassRule {
    pub key: String,
    /// Process the rule is for; empty for every process.
    pub process: String,
    /// Window class the rule is for; empty for every class.
    pub class: String,
}

impl Default for PostBypassRule {
    fn default() -> (r: Self)
        ensures
            r.key@ == Seq::<char>::empty(),
            r.process@ == Seq::<char>::empty(),
            r.class@ == Seq::<char>::empty(),
    {
        PostBypassRule { key: String::new(), process: String::new(), class: String::new() }
    }
}

/// A character to send and the romaji that the IME turns into it. Where a character is listed
/// twice the first entry counts.
#[derive(Debug, Clone)]
pub struct SymbolRomaji {
    pub symbol: String,
    pub romaji: String,
}

/// The whole configuration.
#[derive(Debug, Clone)]
pub struct AppConfig {
    pub general: GeneralConfig,
    pub keys: KeysConfig,
    pub app_overrides: AppOverrides,
    pub keymaps: Vec<KeymapRule>,
    pub post_bypass: Vec<PostBypassRule>,
    pub key_remap: Vec<KeyRemapRule>,
    pub macos_symbol_romaji: Vec<SymbolRomaji>,
}

impl Default for AppConfig {
    fn default() -> (r: Self)
        ensures
            r.general@ == GeneralView::default_spec(),
            string_views(r.keys.engine_on@) == seq!["Ctrl+Shift+変換"@],
            string_views(r.keys.engine_off@) == seq!["Ctrl+Shift+無変換"@],
            string_views(r.keys.ime_on@) == seq!["Ctrl+変換"@],
            string_views(r.keys.ime_off@) == seq!["Ctrl+無変換"@],
            string_views(r.keys.ime_toggle@) == seq!["VK_KANJI"@],
            string_views(r.keys.ime_detect.toggle@) == Seq::<Seq<char>>::empty(),
            string_views(r.keys.ime_detect.on@) == seq!["IMEオン"@],
            string_views(r.keys.ime_detect.off@) == seq!["IMEオフ"@],
            option_view(r.keys.engine_off_solo_repeat) == Some("VK_INSERT"@),
            r.keys.engine_on_ime_key is None,
            r.keys.engine_off_ime_key is None,
            string_views(r.app_overrides.disable_apps@) == seq!["mstsc.exe"@],
            r.app_overrides.force_text@.len() == 0,
            r.app_overrides.force_bypass@.len() == 0,
            r.app_overrides.force_vk@.len() == 0,
            r.app_overrides.force_tsf@.len() == 0,
            r.keymaps@.len() == 0,
            r.post_bypass@.len() == 0,
            r.key_remap@.len() == 0,
            r.macos_symbol_romaji@.len() == 0,
    {
        AppConfig {
            general: GeneralConfig::default(),
            keys: KeysConfig::default(),
            app_overrides: AppOverrides::default(),
            keymaps: Vec::new(),
            post_bypass: Vec::new(),
            key_remap: Vec::new(),
            macos_symbol_romaji: Vec::new(),
        }
    }
}

/// A configuration whose general settings are usable: the threshold is in range, the delay does not
/// exceed it, the layouts stay in their directory, and style, backend and device are known.
#[derive(Debug)]
pub struct ValidatedConfig {
    pub general: GeneralConfig,
    pub keys: KeysConfig,
    pub app_overrides: AppOverrides,
    pub keymaps: Vec<KeymapRule>,
    pub post_bypass: Vec<PostBypassRule>,
    pub key_remap: Vec<KeyRemapRule>,
    pub macos_symbol_romaji: Vec<SymbolRomaji>,
}

// ---- Load errors ----

/// How loading the configuration went.
#[derive(Debug, Clone, PartialEq, Eq)]
pub enum ConfigLoadState {
    Loaded,
    /// There is no file, as at the first start.
    NotFound,
    /// Anything else. The caller warns and keeps a copy before it saves.
    Dangerous(String),
}

/// `anyhow::Error`.
#[verifier::external_type_specification]
#[verifier::external_body]
pub struct ExError(anyhow::Error);

/// What one cause of a load error is.
#[derive(Debug, Clone, Copy, PartialEq, Eq, Structural)]
pub enum CauseKind {
    /// Not an I/O error.
    NotIo,
    /// An I/O error that says that the file does not exist.
    IoNotFound,
    /// Any other I/O error.
    IoOther,
}

/// The causes that an error holds, outermost first.
pub uninterp spec fn error_causes(e: anyhow::Error) -> Seq<CauseKind>;

/// Walks `anyhow::Error::chain`, which hands out the causes that the error holds, and tells the
/// `std::io::Error`s among them apart, each by its kind. The result is all of them in order.
#[verifier::external_body]
fn cause_kinds(e: &anyhow::Error) -> (r: Vec<CauseKind>)
    ensures
        r@ == error_causes(*e),
{
    e.chain().map(
        |cause| match cause.downcast_ref::<std::io::Error>().map(std::io::Error::kind) {
            None => CauseKind::NotIo,
            Some(std::io::ErrorKind::NotFound) => CauseKind::IoNotFound,
            Some(_) => CauseKind::IoOther,
        },
    ).collect()
}

/// The `Display` text of an `anyhow::Error`. Nothing is claimed of the text: that of an error of
/// the operating system comes from the system and may follow its locale.
#[verifier::external_body]
fn error_text(e: &anyhow::Error) -> (r: String) {
    e.to_string()
}

/// The first I/O error among the causes says that the file does not exist.
pub open spec fn is_not_found(causes: Seq<CauseKind>) -> bool
    decreases causes.len(),
{
    if causes.len() == 0 {
        false
    } else if causes[0] is NotIo {
        is_not_found(causes.drop_first())
    } else {
        causes[0] is IoNotFound
    }
}

/// Classifies a load error by its causes, outermost first. Only a missing file is harmless.
#[must_use]
pub fn classify_causes(causes: &Vec<CauseKind>, message: String) -> (r: ConfigLoadState)
    ensures
        r == (if is_not_found(causes@) {
            ConfigLoadState::NotFound
        } else {
            ConfigLoadState::Dangerous(message)
        }),
{
    let mut i: usize = 0;
    assert(causes@.subrange(0, causes@.len() as int) =~= causes@);
    while i < causes.len()
        invariant
            i <= causes@.len(),
            is_not_found(causes@) == is_not_found(
                causes@.subrange(i as int, causes@.len() as int),
            ),
        decreases causes@.len() - i,
    {
        let ghost rest = causes@.subrange(i as int, causes@.len() as int);
        assert(rest.drop_first() =~= causes@.subrange(i + 1, causes@.len() as int));
        match causes[i] {
            CauseKind::IoNotFound => {
                return ConfigLoadState::NotFound;
            },
            CauseKind::IoOther => {
                return ConfigLoadState::Dangerous(message);
            },
            CauseKind::NotIo => {},
        }
        i += 1;
    }
    ConfigLoadState::Dangerous(message)
}

/// Classifies the error of a failed load by its causes, outermost first. Only the class is fixed
/// here: the text beside a dangerous error is what the error shows, which may follow the locale, and
/// [`classify_causes`] hands on the text that it is given.
#[must_use]
pub fn classify_load_error(e: &anyhow::Error) -> (r: ConfigLoadState)
    ensures
        is_not_found(error_causes(*e)) ==> r is NotFound,
        !is_not_found(error_causes(*e)) ==> r is Dangerous,
{
    let causes = cause_kinds(e);
    let message = error_text(e);
    classify_causes(&causes, message)
}

// ---- Messages ----

pub const THRESHOLD_HEAD: &'static str = "simultaneous_threshold_ms (";

pub const THRESHOLD_TAIL: &'static str = ") は 10-500 の範囲外です。100 にリセットします";

pub const DELAY_HEAD: &'static str = "speculative_delay_ms (";

pub const DELAY_MID: &'static str = ") が threshold (";

pub const DELAY_TAIL: &'static str = ") を超えています。";

pub const DELAY_RESET: &'static str = " にリセットします";

pub const LAYOUTS_DIR_HEAD: &'static str = "layouts_dir に '..' が含まれています: ";

pub const DEFAULT_LAYOUT_HEAD: &'static str = "default_layout は .yab で終わる必要があります: ";

pub const FN_KEY_HEAD: &'static str = "muhenkan_solo_tap_dedicated_fn_key = ";

pub const FN_KEY_TAIL: &'static str = " は安全な範囲外です （VK_F15〜VK_F24 のうち VK_F13/VK_F14 を除く番号のみ許可、ADR-091 §D3.2）。VK_NONCONVERT 等の危険なキーは指定しないこと。VK_F13/VK_F14 はターミナルエスケープシーケンス漏れの実機確認が あり常に避けること。VK_F21/VK_F22 を使う場合は、GJI 側の既存 キー設定（config1.db）で既に別の意味に割り当てられていないか 確認すること（BUG-64 参照）。";

pub const KANA_LOCK: &'static str = "Kana キーはロック型キーで KeyUp イベントが発生しません。親指キーとしての使用は推奨しません。";

pub const BARE_ON_DETAIL: &'static str = "IME が ON（同時打鍵が成立しうる間）はチョード判定を優先するため、このコンボは発火しません。ただし IME が OFF の間の単独タップでは 引き続き IME ON として機能します。";

pub const BARE_OTHER_DETAIL: &'static str = "IME が ON の間は同時打鍵判定を優先するため、このキーは IME ON/OFF コンボには使われません。";

pub const BARE_MID: &'static str = " に親指キー（";

pub const BARE_TAIL: &'static str = "）が修飾キーなしで設定されています。";

pub const US_LAYOUT: &'static str = "keyboard_model = \"us\" ですが default_layout が JIS 版の \"nicola.yab\" のままです。JIS 版は列数が US の上限を超えるためパースに失敗します。\"nicola_us.yab\" を指定してください。";

pub const US_KEYS_HEAD: &'static str = "keyboard_model = \"us\" ですが、無変換/変換キー前提の既定値が 次の項目に残っています: ";

pub const US_KEYS_TAIL: &'static str = "。US キーボードにはこれらの物理キーが 存在しないため、config.toml で明示的に上書きしてください。注意: VK_LMENU/VK_RMENU（Alt）・VK_LCONTROL/VK_RCONTROL（Ctrl）・ VK_LWIN/VK_RWIN（Win）は使用不可（OS 予約修飾キーとして即座に 素通しされ、同時打鍵検出が機能しない）。プログラマブルキーボードで 無変換/変換や F13-F24 に物理リマップするか、VK_SPACE を検討してください。";

pub const OUTPUT_STYLE_HEAD: &'static str = "macos_output_style \"";

pub const OUTPUT_STYLE_TAIL: &'static str = "\" は不正です。romaji/kana のいずれかを指定してください。romaji にリセットします";

pub const BACKEND_HEAD: &'static str = "linux_input_backend \"";

pub const BACKEND_TAIL: &'static str = "\" は不正です。evdev/x11/libinput のいずれかを指定してください。evdev にリセットします";

pub const EVDEV_HEAD: &'static str = "linux_evdev_device \"";

pub const EVDEV_TAIL: &'static str = "\" は /dev/ で始まる必要があります。自動検出にリセットします";

pub const DISABLE_APPS_EMPTY: &'static str = "app_overrides.disable_apps に空のエントリがあります";

pub const OVERRIDE_HEAD: &'static str = "app_overrides.";

pub const OVERRIDE_TAIL: &'static str = " に空のエントリがあります";

/// The message where the condition holds, and nothing otherwise.
pub open spec fn warn_if(condition: bool, message: Seq<char>) -> Seq<Seq<char>> {
    if condition {
        seq![message]
    } else {
        Seq::empty()
    }
}

fn warn(w: &mut Vec<String>, message: String)
    ensures
        string_views(final(w)@) == string_views(old(w)@).push(message@),
{
    let ghost text = message@;
    w.push(message);
    assert(string_views(w@) =~= string_views(old(w)@).push(text));
}

/// A message with one insertion.
fn message1(head: &str, a: &str, tail: &str) -> (r: String)
    ensures
        r@ == head@ + a@ + tail@,
{
    let mut r = String::new();
    r.append(head);
    r.append(a);
    r.append(tail);
    assert(r@ =~= head@ + a@ + tail@);
    r
}

proof fn lemma_append_three(
    w: Seq<Seq<char>>,
    a: Seq<Seq<char>>,
    b: Seq<Seq<char>>,
    c: Seq<Seq<char>>,
)
    ensures
        w + a + b + c == w + (a + b + c),
{
    assert(w + a + b + c =~= w + (a + b + c));
}

/// Two conditional pushes append the two conditional messages.
proof fn lemma_two_warnings(
    w0: Seq<Seq<char>>,
    w1: Seq<Seq<char>>,
    w2: Seq<Seq<char>>,
    c1: bool,
    m1: Seq<char>,
    c2: bool,
    m2: Seq<char>,
)
    requires
        w1 == (if c1 {
            w0.push(m1)
        } else {
            w0
        }),
        w2 == (if c2 {
            w1.push(m2)
        } else {
            w1
        }),
    ensures
        w2 == w0 + (warn_if(c1, m1) + warn_if(c2, m2)),
{
    assert(w2 =~= w0 + (warn_if(c1, m1) + warn_if(c2, m2)));
}

// ---- What validation does ----

impl GeneralView {
    pub open spec fn threshold_out_of_range(self) -> bool {
        self.simultaneous_threshold_ms < 10 || self.simultaneous_threshold_ms > 500
    }

    /// The threshold, reset to 100 where it is out of range.
    pub open spec fn valid_threshold(self) -> u32 {
        if self.threshold_out_of_range() {
            100
        } else {
            self.simultaneous_threshold_ms
        }
    }

    pub open spec fn delay_too_long(self) -> bool {
        self.speculative_delay_ms > self.valid_threshold()
    }

    /// What a delay that is too long is reset to: 30, or the threshold where that is shorter.
    pub open spec fn reset_delay(self) -> u32 {
        if self.valid_threshold() < 30 {
            self.valid_threshold()
        } else {
            30
        }
    }

    pub open spec fn with_valid_thresholds(self) -> GeneralView {
        GeneralView {
            simultaneous_threshold_ms: self.valid_threshold(),
            speculative_delay_ms: if self.delay_too_long() {
                self.reset_delay()
            } else {
                self.speculative_delay_ms
            },
            ..self
        }
    }

    pub open spec fn delay_warning(self) -> Seq<char> {
        DELAY_HEAD@ + text::decimal(self.speculative_delay_ms as nat) + DELAY_MID@ + text::decimal(
            self.valid_threshold() as nat,
        ) + DELAY_TAIL@ + text::decimal(self.reset_delay() as nat) + DELAY_RESET@
    }

    pub open spec fn threshold_warnings(self) -> Seq<Seq<char>> {
        warn_if(
            self.threshold_out_of_range(),
            THRESHOLD_HEAD@ + text::decimal(self.simultaneous_threshold_ms as nat)
                + THRESHOLD_TAIL@,
        ) + warn_if(self.delay_too_long(), self.delay_warning())
    }

    pub open spec fn leaves_directory(self) -> bool {
        text::contains_seq(self.layouts_dir, ".."@)
    }

    pub open spec fn with_valid_layouts(self) -> GeneralView {
        GeneralView {
            layouts_dir: if self.leaves_directory() {
                "layout"@
            } else {
                self.layouts_dir
            },
            ..self
        }
    }

    pub open spec fn layout_warnings(self) -> Seq<Seq<char>> {
        warn_if(self.leaves_directory(), LAYOUTS_DIR_HEAD@ + self.layouts_dir) + warn_if(
            !text::has_suffix(text::ascii_lower_seq(self.default_layout), ".yab"@),
            DEFAULT_LAYOUT_HEAD@ + self.default_layout,
        )
    }

    pub open spec fn fn_key_warnings(self) -> Seq<Seq<char>> {
        match self.muhenkan_solo_tap_dedicated_fn_key {
            Some(name) => warn_if(
                !is_safe_fn_key(name),
                FN_KEY_HEAD@ + text::debug_quoted(name) + FN_KEY_TAIL@,
            ),
            None => Seq::empty(),
        }
    }

    pub open spec fn thumb_key_warnings(self) -> Seq<Seq<char>> {
        warn_if(
            is_kana_key(self.left_thumb_key) || is_kana_key(self.right_thumb_key),
            KANA_LOCK@,
        )
    }

    pub open spec fn with_valid_output_style(self) -> GeneralView {
        GeneralView {
            macos_output_style: if is_output_style(self.macos_output_style) {
                self.macos_output_style
            } else {
                "romaji"@
            },
            ..self
        }
    }

    pub open spec fn with_valid_input_backend(self) -> GeneralView {
        GeneralView {
            linux_input_backend: if is_backend(self.linux_input_backend) {
                self.linux_input_backend
            } else {
                "evdev"@
            },
            ..self
        }
    }

    pub open spec fn with_valid_device(self) -> GeneralView {
        GeneralView {
            linux_evdev_device: if self.bad_device() is Some {
                None
            } else {
                self.linux_evdev_device
            },
            ..self
        }
    }

    pub open spec fn with_valid_backend(self) -> GeneralView {
        self.with_valid_output_style().with_valid_input_backend().with_valid_device()
    }

    /// The device path, where it is set but is none.
    pub open spec fn bad_device(self) -> Option<Seq<char>> {
        match self.linux_evdev_device {
            Some(dev) => if text::has_prefix(dev, "/dev/"@) {
                None
            } else {
                Some(dev)
            },
            None => None,
        }
    }

    pub open spec fn output_style_warnings(self) -> Seq<Seq<char>> {
        warn_if(
            !is_output_style(self.macos_output_style),
            OUTPUT_STYLE_HEAD@ + self.macos_output_style + OUTPUT_STYLE_TAIL@,
        )
    }

    pub open spec fn input_backend_warnings(self) -> Seq<Seq<char>> {
        warn_if(
            !is_backend(self.linux_input_backend),
            BACKEND_HEAD@ + self.linux_input_backend + BACKEND_TAIL@,
        )
    }

    pub open spec fn device_warnings(self) -> Seq<Seq<char>> {
        match self.bad_device() {
            Some(dev) => seq![EVDEV_HEAD@ + dev + EVDEV_TAIL@],
            None => Seq::empty(),
        }
    }

    pub open spec fn backend_warnings(self) -> Seq<Seq<char>> {
        self.output_style_warnings() + self.input_backend_warnings() + self.device_warnings()
    }

    /// The general settings after validation.
    pub open spec fn validated(self) -> GeneralView {
        self.with_valid_thresholds().with_valid_layouts().with_valid_backend()
    }
}

pub open spec fn is_kana_key(name: Seq<char>) -> bool {
    name == "Kana"@ || name == "VK_KANA"@
}

pub open spec fn is_output_style(s: Seq<char>) -> bool {
    s == "romaji"@ || s == "kana"@
}

pub open spec fn is_backend(s: Seq<char>) -> bool {
    s == "evdev"@ || s == "x11"@ || s == "libinput"@
}

/// The function keys that no terminal and no program is known to react to.
pub open spec fn is_safe_fn_key(name: Seq<char>) -> bool {
    ||| name == "VK_F15"@
    ||| name == "VK_F16"@
    ||| name == "VK_F17"@
    ||| name == "VK_F18"@
    ||| name == "VK_F19"@
    ||| name == "VK_F20"@
    ||| name == "VK_F21"@
    ||| name == "VK_F22"@
    ||| name == "VK_F23"@
    ||| name == "VK_F24"@
}

/// The two spellings of the muhenkan and henkan keys become one; any other name stays, without
/// the whitespace around it.
pub open spec fn canonical_thumb_key(s: Seq<char>) -> Seq<char> {
    let t = text::trimmed(s);
    if t == "無変換"@ || text::same_ignoring_ascii_case(t, "VK_NONCONVERT"@) {
        "VK_NONCONVERT"@
    } else if t == "変換"@ || text::same_ignoring_ascii_case(t, "VK_CONVERT"@) {
        "VK_CONVERT"@
    } else {
        t
    }
}

/// The combination is the thumb key without any modifier.
pub open spec fn is_bare_thumb_key(combo: Seq<char>, thumb_key: Seq<char>) -> bool {
    let c = text::trimmed(combo);
    &&& !text::contains_seq(c, "+"@)
    &&& text::same_ignoring_ascii_case(canonical_thumb_key(c), canonical_thumb_key(thumb_key))
}

pub open spec fn any_bare_thumb_key(combos: Seq<Seq<char>>, thumb_key: Seq<char>) -> bool {
    exists|i: int| 0 <= i < combos.len() && is_bare_thumb_key(#[trigger] combos[i], thumb_key)
}

pub open spec fn bare_thumb_warning(
    field: Seq<char>,
    thumb_key: Seq<char>,
    detail: Seq<char>,
) -> Seq<char> {
    field + BARE_MID@ + thumb_key + BARE_TAIL@ + detail
}

/// Warnings about one thumb key, for the three kinds of IME combinations in turn.
pub open spec fn bare_thumb_warnings(keys: KeysConfig, thumb_key: Seq<char>) -> Seq<Seq<char>> {
    warn_if(
        any_bare_thumb_key(string_views(keys.ime_on@), thumb_key),
        bare_thumb_warning("keys.ime_on"@, thumb_key, BARE_ON_DETAIL@),
    ) + warn_if(
        any_bare_thumb_key(string_views(keys.ime_off@), thumb_key),
        bare_thumb_warning("keys.ime_off"@, thumb_key, BARE_OTHER_DETAIL@),
    ) + warn_if(
        any_bare_thumb_key(string_views(keys.ime_toggle@), thumb_key),
        bare_thumb_warning("keys.ime_toggle"@, thumb_key, BARE_OTHER_DETAIL@),
    )
}

pub open spec fn ime_combo_warnings(g: GeneralView, keys: KeysConfig) -> Seq<Seq<char>> {
    bare_thumb_warnings(keys, g.left_thumb_key) + bare_thumb_warnings(keys, g.right_thumb_key)
}

/// The text names a key that only a JIS keyboard has.
pub open spec fn mentions_jis_key(s: Seq<char>) -> bool {
    ||| text::contains_seq(s, "無変換"@)
    ||| text::contains_seq(s, "VK_NONCONVERT"@)
    ||| text::contains_seq(s, "変換"@)
    ||| text::contains_seq(s, "VK_CONVERT"@)
}

pub open spec fn any_mentions_jis_key(list: Seq<Seq<char>>) -> bool {
    exists|i: int| 0 <= i < list.len() && mentions_jis_key(#[trigger] list[i])
}

/// The settings that name a JIS key, in order.
pub open spec fn jis_fields(g: GeneralView, keys: KeysConfig) -> Seq<Seq<char>> {
    warn_if(mentions_jis_key(g.left_thumb_key), "general.left_thumb_key"@) + warn_if(
        mentions_jis_key(g.right_thumb_key),
        "general.right_thumb_key"@,
    ) + warn_if(any_mentions_jis_key(string_views(keys.engine_on@)), "keys.engine_on"@) + warn_if(
        any_mentions_jis_key(string_views(keys.engine_off@)),
        "keys.engine_off"@,
    ) + warn_if(any_mentions_jis_key(string_views(keys.ime_on@)), "keys.ime_on"@) + warn_if(
        any_mentions_jis_key(string_views(keys.ime_off@)),
        "keys.ime_off"@,
    ) + warn_if(
        keys.engine_off_solo_repeat matches Some(s) && mentions_jis_key(s@),
        "keys.engine_off_solo_repeat"@,
    )
}

pub open spec fn keyboard_model_warnings(g: GeneralView, keys: KeysConfig) -> Seq<Seq<char>> {
    if g.keyboard_model is Us {
        warn_if(
            text::strip_suffixes(g.default_layout, ".yab"@) == "nicola"@,
            US_LAYOUT@,
        ) + warn_if(
            jis_fields(g, keys).len() > 0,
            US_KEYS_HEAD@ + text::joined(jis_fields(g, keys), ", "@) + US_KEYS_TAIL@,
        )
    } else {
        Seq::empty()
    }
}

pub open spec fn entry_is_empty(e: AppOverrideEntry) -> bool {
    e.process@.len() == 0 || e.class@.len() == 0
}

/// One warning for each entry without a process or a class.
pub open spec fn override_warnings(list: Seq<AppOverrideEntry>, name: Seq<char>) -> Seq<Seq<char>>
    decreases list.len(),
{
    if list.len() == 0 {
        Seq::empty()
    } else {
        override_warnings(list.drop_last(), name) + warn_if(
            entry_is_empty(list.last()),
            OVERRIDE_HEAD@ + name + OVERRIDE_TAIL@,
        )
    }
}

pub open spec fn any_empty(list: Seq<Seq<char>>) -> bool {
    exists|i: int| 0 <= i < list.len() && #[trigger] list[i].len() == 0
}

pub open spec fn app_override_warnings(o: AppOverrides) -> Seq<Seq<char>> {
    override_warnings(o.force_text@, "force_text"@) + override_warnings(
        o.force_bypass@,
        "force_bypass"@,
    ) + override_warnings(o.force_vk@, "force_vk"@) + override_warnings(
        o.force_tsf@,
        "force_tsf"@,
    ) + warn_if(any_empty(string_views(o.disable_apps@)), DISABLE_APPS_EMPTY@)
}

/// All warnings about a configuration, in the order in which the checks run. Each check sees
/// what the ones before it have reset.
pub open spec fn all_warnings(c: AppConfig) -> Seq<Seq<char>> {
    let g0 = c.general@;
    let g1 = g0.with_valid_thresholds();
    let g2 = g1.with_valid_layouts();
    g0.threshold_warnings() + g1.layout_warnings() + g2.thumb_key_warnings()
        + g2.fn_key_warnings() + ime_combo_warnings(g2, c.keys) + keyboard_model_warnings(
        g2,
        c.keys,
    ) + g2.backend_warnings() + app_override_warnings(c.app_overrides)
}

impl AppConfig {
    /// Resets a threshold or a delay that is out of range.
    pub fn validate_thresholds(g: &mut GeneralConfig, w: &mut Vec<String>)
        ensures
            final(g)@ == old(g)@.with_valid_thresholds(),
            string_views(final(w)@) == string_views(old(w)@) + old(g)@.threshold_warnings(),
    {
        let ghost g0 = g@;
        let ghost w0 = string_views(w@);
        if g.simultaneous_threshold_ms < 10 || g.simultaneous_threshold_ms > 500 {
            warn(w, Self::threshold_message(g.simultaneous_threshold_ms));
            g.simultaneous_threshold_ms = 100;
        }
        let ghost m1 = THRESHOLD_HEAD@ + text::decimal(g0.simultaneous_threshold_ms as nat)
            + THRESHOLD_TAIL@;
        let ghost w1 = string_views(w@);
        if g.speculative_delay_ms > g.simultaneous_threshold_ms {
            let reset_ms: u32 = if g.simultaneous_threshold_ms < 30 {
                g.simultaneous_threshold_ms
            } else {
                30
            };
            warn(
                w,
                Self::delay_message(g.speculative_delay_ms, g.simultaneous_threshold_ms, reset_ms),
            );
            g.speculative_delay_ms = reset_ms;
        }
        proof {
            lemma_two_warnings(
                w0,
                w1,
                string_views(w@),
                g0.threshold_out_of_range(),
                m1,
                g0.delay_too_long(),
                g0.delay_warning(),
            );
        }
    }

    fn threshold_message(threshold_ms: u32) -> (m: String)
        ensures
            m@ == THRESHOLD_HEAD@ + text::decimal(threshold_ms as nat) + THRESHOLD_TAIL@,
    {
        let mut m = String::new();
        m.append(THRESHOLD_HEAD);
        text::push_decimal(&mut m, threshold_ms as u64);
        m.append(THRESHOLD_TAIL);
        assert(m@ =~= THRESHOLD_HEAD@ + text::decimal(threshold_ms as nat) + THRESHOLD_TAIL@);
        m
    }

    fn delay_message(delay_ms: u32, threshold_ms: u32, reset_ms: u32) -> (m: String)
        ensures
            m@ == DELAY_HEAD@ + text::decimal(delay_ms as nat) + DELAY_MID@ + text::decimal(
                threshold_ms as nat,
            ) + DELAY_TAIL@ + text::decimal(reset_ms as nat) + DELAY_RESET@,
    {
        let mut m = String::new();
        m.append(DELAY_HEAD);
        text::push_decimal(&mut m, delay_ms as u64);
        m.append(DELAY_MID);
        text::push_decimal(&mut m, threshold_ms as u64);
        m.append(DELAY_TAIL);
        text::push_decimal(&mut m, reset_ms as u64);
        m.append(DELAY_RESET);
        assert(m@ =~= DELAY_HEAD@ + text::decimal(delay_ms as nat) + DELAY_MID@ + text::decimal(
            threshold_ms as nat,
        ) + DELAY_TAIL@ + text::decimal(reset_ms as nat) + DELAY_RESET@);
        m
    }

    /// Keeps the layouts inside their directory and warns of an odd file name.
    pub fn validate_layouts(g: &mut GeneralConfig, w: &mut Vec<String>)
        ensures
            final(g)@ == old(g)@.with_valid_layouts(),
            string_views(final(w)@) == string_views(old(w)@) + old(g)@.layout_warnings(),
    {
        let ghost g0 = g@;
        let ghost w0 = string_views(w@);
        if text::contains(g.layouts_dir.as_str(), "..") {
            let mut m = String::new();
            m.append(LAYOUTS_DIR_HEAD);
            m.append(g.layouts_dir.as_str());
            assert(m@ =~= LAYOUTS_DIR_HEAD@ + g0.layouts_dir);
            warn(w, m);
            g.layouts_dir = "layout".to_owned();
        }
        if !text::lower_ends_with(g.default_layout.as_str(), ".yab") {
            let mut m = String::new();
            m.append(DEFAULT_LAYOUT_HEAD);
            m.append(g.default_layout.as_str());
            assert(m@ =~= DEFAULT_LAYOUT_HEAD@ + g0.default_layout);
            warn(w, m);
        }
        assert(string_views(w@) =~= w0 + g0.layout_warnings());
    }

    /// Warns of a dedicated function key that is not known to be safe.
    pub fn validate_dedicated_fn_key(g: &GeneralConfig, w: &mut Vec<String>)
        ensures
            string_views(final(w)@) == string_views(old(w)@) + g@.fn_key_warnings(),
    {
        let ghost w0 = string_views(w@);
        if let Some(name) = &g.muhenkan_solo_tap_dedicated_fn_key {
            let n = name.as_str();
            let safe = text::same(n, "VK_F15") || text::same(n, "VK_F16") || text::same(
                n,
                "VK_F17",
            ) || text::same(n, "VK_F18") || text::same(n, "VK_F19") || text::same(n, "VK_F20")
                || text::same(n, "VK_F21") || text::same(n, "VK_F22") || text::same(n, "VK_F23")
                || text::same(n, "VK_F24");
            if !safe {
                let quoted = text::debug_string(n);
                let m = message1(FN_KEY_HEAD, quoted.as_str(), FN_KEY_TAIL);
                warn(w, m);
            }
        }
        assert(string_views(w@) =~= w0 + g@.fn_key_warnings());
    }

    /// Warns of a thumb key that never sends a key-up.
    pub fn validate_thumb_keys(g: &GeneralConfig, w: &mut Vec<String>)
        ensures
            string_views(final(w)@) == string_views(old(w)@) + g@.thumb_key_warnings(),
    {
        let ghost w0 = string_views(w@);
        let left = g.left_thumb_key.as_str();
        let right = g.right_thumb_key.as_str();
        if text::same(left, "Kana") || text::same(left, "VK_KANA") || text::same(right, "Kana")
            || text::same(right, "VK_KANA") {
            warn(w, KANA_LOCK.to_owned());
        }
        assert(string_views(w@) =~= w0 + g@.thumb_key_warnings());
    }

    /// One name for the spellings of the muhenkan and henkan keys.
    #[must_use]
    pub fn canonical_thumb_key_name(s: &str) -> (r: &str)
        ensures
            r@ == canonical_thumb_key(s@),
    {
        let t = text::trim(s);
        if text::same(t, "無変換") || text::eq_ignore_ascii_case(t, "VK_NONCONVERT") {
            return "VK_NONCONVERT";
        }
        if text::same(t, "変換") || text::eq_ignore_ascii_case(t, "VK_CONVERT") {
            return "VK_CONVERT";
        }
        t
    }

    fn is_bare_same_key(combo: &str, thumb_key: &str) -> (r: bool)
        ensures
            r == is_bare_thumb_key(combo@, thumb_key@),
    {
        let c = text::trim(combo);
        !text::contains(c, "+") && text::eq_ignore_ascii_case(
            Self::canonical_thumb_key_name(c),
            Self::canonical_thumb_key_name(thumb_key),
        )
    }

    fn has_bare_key(combos: &Vec<String>, thumb_key: &str) -> (r: bool)
        ensures
            r == any_bare_thumb_key(string_views(combos@), thumb_key@),
    {
        let mut i: usize = 0;
        while i < combos.len()
            invariant
                i <= combos@.len(),
                forall|j: int|
                    0 <= j < i ==> !is_bare_thumb_key(
                        #[trigger] string_views(combos@)[j],
                        thumb_key@,
                    ),
            decreases combos@.len() - i,
        {
            assert(string_views(combos@)[i as int] == combos@[i as int]@);
            if Self::is_bare_same_key(combos[i].as_str(), thumb_key) {
                return true;
            }
            i += 1;
        }
        false
    }

    fn warn_for_field(field: &str, combos: &Vec<String>, thumb_key: &str, detail: &str, w: &mut Vec<
        String,
    >)
        ensures
            string_views(final(w)@) == string_views(old(w)@) + warn_if(
                any_bare_thumb_key(string_views(combos@), thumb_key@),
                bare_thumb_warning(field@, thumb_key@, detail@),
            ),
    {
        let ghost w0 = string_views(w@);
        if Self::has_bare_key(combos, thumb_key) {
            let mut m = String::new();
            m.append(field);
            m.append(BARE_MID);
            m.append(thumb_key);
            m.append(BARE_TAIL);
            m.append(detail);
            assert(m@ =~= bare_thumb_warning(field@, thumb_key@, detail@));
            warn(w, m);
        }
        assert(string_views(w@) =~= w0 + warn_if(
            any_bare_thumb_key(string_views(combos@), thumb_key@),
            bare_thumb_warning(field@, thumb_key@, detail@),
        ));
    }

    fn warn_for_thumb_key(keys: &KeysConfig, thumb_key: &str, w: &mut Vec<String>)
        ensures
            string_views(final(w)@) == string_views(old(w)@) + bare_thumb_warnings(
                *keys,
                thumb_key@,
            ),
    {
        let ghost w0 = string_views(w@);
        Self::warn_for_field("keys.ime_on", &keys.ime_on, thumb_key, BARE_ON_DETAIL, w);
        Self::warn_for_field("keys.ime_off", &keys.ime_off, thumb_key, BARE_OTHER_DETAIL, w);
        Self::warn_for_field("keys.ime_toggle", &keys.ime_toggle, thumb_key, BARE_OTHER_DETAIL, w);
        assert(string_views(w@) =~= w0 + bare_thumb_warnings(*keys, thumb_key@));
    }

    /// Warns of a thumb key that is also an IME combination without modifiers: while the IME is
    /// on, the simultaneous stroke has precedence.
    pub fn validate_thumb_key_in_ime_combos(
        g: &GeneralConfig,
        keys: &KeysConfig,
        w: &mut Vec<String>,
    )
        ensures
            string_views(final(w)@) == string_views(old(w)@) + ime_combo_warnings(g@, *keys),
    {
        let ghost w0 = string_views(w@);
        Self::warn_for_thumb_key(keys, g.left_thumb_key.as_str(), w);
        Self::warn_for_thumb_key(keys, g.right_thumb_key.as_str(), w);
        assert(string_views(w@) =~= w0 + ime_combo_warnings(g@, *keys));
    }

    fn mentions_jis_only(s: &str) -> (r: bool)
        ensures
            r == mentions_jis_key(s@),
    {
        text::contains(s, "無変換") || text::contains(s, "VK_NONCONVERT") || text::contains(
            s,
            "変換",
        ) || text::contains(s, "VK_CONVERT")
    }

    fn any_mentions_jis_only(list: &Vec<String>) -> (r: bool)
        ensures
            r == any_mentions_jis_key(string_views(list@)),
    {
        let mut i: usize = 0;
        while i < list.len()
            invariant
                i <= list@.len(),
                forall|j: int|
                    0 <= j < i ==> !mentions_jis_key(#[trigger] string_views(list@)[j]),
            decreases list@.len() - i,
        {
            assert(string_views(list@)[i as int] == list@[i as int]@);
            if Self::mentions_jis_only(list[i].as_str()) {
                return true;
            }
            i += 1;
        }
        false
    }

    /// Appends `name` to the joined text of the `n` names before it.
    fn join_if(condition: bool, name: &str, names: &mut Vec<String>)
        ensures
            string_views(final(names)@) == string_views(old(names)@) + warn_if(condition, name@),
    {
        let ghost n0 = string_views(names@);
        if condition {
            warn(names, name.to_owned());
        }
        assert(string_views(names@) =~= n0 + warn_if(condition, name@));
    }

    fn join_comma(names: &Vec<String>) -> (r: String)
        ensures
            r@ == text::joined(string_views(names@), ", "@),
    {
        let mut out = String::new();
        let mut i: usize = 0;
        while i < names.len()
            invariant
                i <= names@.len(),
                out@ == text::joined(string_views(names@).subrange(0, i as int), ", "@),
            decreases names@.len() - i,
        {
            let ghost so_far = string_views(names@).subrange(0, i as int);
            let ghost next = string_views(names@).subrange(0, i + 1);
            if i > 0 {
                out.append(", ");
            }
            out.append(names[i].as_str());
            assert(next.drop_last() =~= so_far);
            assert(next.last() == names@[i as int]@);
            assert(out@ =~= text::joined(next, ", "@));
            i += 1;
        }
        assert(string_views(names@).subrange(0, i as int) =~= string_views(names@));
        out
    }

    /// Warns of settings that a US keyboard cannot serve.
    pub fn validate_keyboard_model(g: &GeneralConfig, keys: &KeysConfig, w: &mut Vec<String>)
        ensures
            string_views(final(w)@) == string_views(old(w)@) + keyboard_model_warnings(g@, *keys),
    {
        let ghost w0 = string_views(w@);
        if g.keyboard_model != KeyboardModel::Us {
            assert(string_views(w@) =~= w0 + keyboard_model_warnings(g@, *keys));
            return;
        }
        proof {
            reveal_strlit(".yab");
        }
        let stem = text::trim_end_matches(g.default_layout.as_str(), ".yab");
        if text::same(stem, "nicola") {
            warn(w, US_LAYOUT.to_owned());
        }
        let mut fields: Vec<String> = Vec::new();
        assert(string_views(fields@) =~= Seq::empty());
        Self::join_if(
            Self::mentions_jis_only(g.left_thumb_key.as_str()),
            "general.left_thumb_key",
            &mut fields,
        );
        Self::join_if(
            Self::mentions_jis_only(g.right_thumb_key.as_str()),
            "general.right_thumb_key",
            &mut fields,
        );
        Self::join_if(Self::any_mentions_jis_only(&keys.engine_on), "keys.engine_on", &mut fields);
        Self::join_if(Self::any_mentions_jis_only(&keys.engine_off), "keys.engine_off", &mut fields);
        Self::join_if(Self::any_mentions_jis_only(&keys.ime_on), "keys.ime_on", &mut fields);
        Self::join_if(Self::any_mentions_jis_only(&keys.ime_off), "keys.ime_off", &mut fields);
        let solo = match &keys.engine_off_solo_repeat {
            Some(s) => Self::mentions_jis_only(s.as_str()),
            None => false,
        };
        Self::join_if(solo, "keys.engine_off_solo_repeat", &mut fields);
        assert(string_views(fields@) =~= jis_fields(g@, *keys));
        if !fields.is_empty() {
            let list = Self::join_comma(&fields);
            let m = message1(US_KEYS_HEAD, list.as_str(), US_KEYS_TAIL);
            warn(w, m);
        }
        assert(string_views(w@) =~= w0 + keyboard_model_warnings(g@, *keys));
    }

    /// Resets an output style, an input backend or a device that is unknown.
    pub fn validate_linux_backend(g: &mut GeneralConfig, w: &mut Vec<String>)
        ensures
            final(g)@ == old(g)@.with_valid_backend(),
            string_views(final(w)@) == string_views(old(w)@) + old(g)@.backend_warnings(),
    {
        let ghost g0 = g@;
        let ghost w0 = string_views(w@);
        Self::validate_output_style(g, w);
        Self::validate_input_backend(g, w);
        Self::validate_device(g, w);
        proof {
            lemma_append_three(
                w0,
                g0.output_style_warnings(),
                g0.input_backend_warnings(),
                g0.device_warnings(),
            );
        }
    }

    fn validate_output_style(g: &mut GeneralConfig, w: &mut Vec<String>)
        ensures
            final(g)@ == old(g)@.with_valid_output_style(),
            string_views(final(w)@) == string_views(old(w)@) + old(g)@.output_style_warnings(),
    {
        let style = g.macos_output_style.as_str();
        let good = text::same(style, "romaji") || text::same(style, "kana");
        Self::warn_unless(good, OUTPUT_STYLE_HEAD, style, OUTPUT_STYLE_TAIL, w);
        if !good {
            g.macos_output_style = "romaji".to_owned();
        }
    }

    fn validate_input_backend(g: &mut GeneralConfig, w: &mut Vec<String>)
        ensures
            final(g)@ == old(g)@.with_valid_input_backend(),
            string_views(final(w)@) == string_views(old(w)@) + old(g)@.input_backend_warnings(),
    {
        let backend = g.linux_input_backend.as_str();
        let good = text::same(backend, "evdev") || text::same(backend, "x11") || text::same(
            backend,
            "libinput",
        );
        Self::warn_unless(good, BACKEND_HEAD, backend, BACKEND_TAIL, w);
        if !good {
            g.linux_input_backend = "evdev".to_owned();
        }
    }

    fn validate_device(g: &mut GeneralConfig, w: &mut Vec<String>)
        ensures
            final(g)@ == old(g)@.with_valid_device(),
            string_views(final(w)@) == string_views(old(w)@) + old(g)@.device_warnings(),
    {
        let ghost g0 = g@;
        let ghost w0 = string_views(w@);
        let good = match &g.linux_evdev_device {
            Some(dev) => {
                let good = text::starts_with(dev.as_str(), "/dev/");
                Self::warn_unless(good, EVDEV_HEAD, dev.as_str(), EVDEV_TAIL, w);
                good
            },
            None => true,
        };
        assert(string_views(w@) =~= w0 + g0.device_warnings());
        if !good {
            g.linux_evdev_device = None;
        }
    }

    fn warn_unless(good: bool, head: &str, value: &str, tail: &str, w: &mut Vec<String>)
        ensures
            string_views(final(w)@) == string_views(old(w)@) + warn_if(
                !good,
                head@ + value@ + tail@,
            ),
    {
        let ghost w0 = string_views(w@);
        if !good {
            let m = message1(head, value, tail);
            warn(w, m);
        }
        assert(string_views(w@) =~= w0 + warn_if(!good, head@ + value@ + tail@));
    }

    /// Warns of empty entries in the application lists.
    pub fn validate_app_override_entries(overrides: &AppOverrides, w: &mut Vec<String>)
        ensures
            string_views(final(w)@) == string_views(old(w)@) + app_override_warnings(*overrides),
    {
        let ghost w0 = string_views(w@);
        Self::check_override_list(&overrides.force_text, "force_text", w);
        Self::check_override_list(&overrides.force_bypass, "force_bypass", w);
        Self::check_override_list(&overrides.force_vk, "force_vk", w);
        Self::check_override_list(&overrides.force_tsf, "force_tsf", w);
        Self::check_disable_apps_list(&overrides.disable_apps, w);
        assert(string_views(w@) =~= w0 + app_override_warnings(*overrides));
    }

    /// Warns once if any process name is empty.
    pub fn check_disable_apps_list(list: &Vec<String>, w: &mut Vec<String>)
        ensures
            string_views(final(w)@) == string_views(old(w)@) + warn_if(
                any_empty(string_views(list@)),
                DISABLE_APPS_EMPTY@,
            ),
    {
        let ghost w0 = string_views(w@);
        let mut i: usize = 0;
        while i < list.len()
            invariant
                i <= list@.len(),
                string_views(w@) == w0,
                w0 == string_views(old(w)@),
                forall|j: int| 0 <= j < i ==> #[trigger] string_views(list@)[j].len() != 0,
            decreases list@.len() - i,
        {
            assert(string_views(list@)[i as int] == list@[i as int]@);
            if list[i].as_str().is_empty() {
                warn(w, DISABLE_APPS_EMPTY.to_owned());
                assert(string_views(w@) =~= w0 + warn_if(
                    any_empty(string_views(list@)),
                    DISABLE_APPS_EMPTY@,
                ));
                return;
            }
            i += 1;
        }
        assert(string_views(w@) =~= w0 + warn_if(
            any_empty(string_views(list@)),
            DISABLE_APPS_EMPTY@,
        ));
    }

    /// Warns of each entry without a process or a class.
    pub fn check_override_list(list: &Vec<AppOverrideEntry>, list_name: &str, w: &mut Vec<String>)
        ensures
            string_views(final(w)@) == string_views(old(w)@) + override_warnings(
                list@,
                list_name@,
            ),
    {
        let ghost w0 = string_views(w@);
        let mut i: usize = 0;
        assert(w0 + override_warnings(list@.subrange(0, 0), list_name@) =~= w0);
        while i < list.len()
            invariant
                i <= list@.len(),
                w0 == string_views(old(w)@),
                string_views(w@) == w0 + override_warnings(
                    list@.subrange(0, i as int),
                    list_name@,
                ),
            decreases list@.len() - i,
        {
            let ghost before = string_views(w@);
            let entry = &list[i];
            assert(list@.subrange(0, i + 1).drop_last() =~= list@.subrange(0, i as int));
            if entry.process.as_str().is_empty() || entry.class.as_str().is_empty() {
                let m = message1(OVERRIDE_HEAD, list_name, OVERRIDE_TAIL);
                warn(w, m);
            }
            assert(string_views(w@) =~= w0 + override_warnings(
                list@.subrange(0, i + 1),
                list_name@,
            ));
            i += 1;
        }
        assert(list@.subrange(0, i as int) =~= list@);
    }

    /// Replaces unusable values and returns a warning for each of them, and for each setting
    /// that will not do what it looks like.
    #[must_use]
    pub fn validate(self) -> (r: (ValidatedConfig, Vec<String>))
        ensures
            r.0.general@ == self.general@.validated(),
            r.0.keys == self.keys,
            r.0.app_overrides == self.app_overrides,
            r.0.keymaps == self.keymaps,
            r.0.post_bypass == self.post_bypass,
            r.0.key_remap == self.key_remap,
            r.0.macos_symbol_romaji == self.macos_symbol_romaji,
            10 <= r.0.general.simultaneous_threshold_ms <= 500,
            r.0.general.speculative_delay_ms <= r.0.general.simultaneous_threshold_ms,
            string_views(r.1@) == all_warnings(self),
    {
        let mut warnings: Vec<String> = Vec::new();
        let mut general = self.general;
        let app_overrides = self.app_overrides;
        Self::validate_thresholds(&mut general, &mut warnings);
        Self::validate_layouts(&mut general, &mut warnings);
        Self::validate_thumb_keys(&general, &mut warnings);
        Self::validate_dedicated_fn_key(&general, &mut warnings);
        Self::validate_thumb_key_in_ime_combos(&general, &self.keys, &mut warnings);
        Self::validate_keyboard_model(&general, &self.keys, &mut warnings);
        Self::validate_linux_backend(&mut general, &mut warnings);
        Self::validate_app_override_entries(&app_overrides, &mut warnings);
        assert(string_views(warnings@) =~= all_warnings(self));
        (
            ValidatedConfig {
                general,
                keys: self.keys,
                app_overrides,
                keymaps: self.keymaps,
                post_bypass: self.post_bypass,
                key_remap: self.key_remap,
                macos_symbol_romaji: self.macos_symbol_romaji,
            },
            warnings,
        )
    }
}

// ---- Laws ----

/// After validation every reset value is one that the program can use: the threshold is in
/// range, the delay does not exceed it, the layouts stay in their directory, and style, backend and
/// device are known.
pub proof fn law_validated_values_are_usable(g: GeneralView)
    ensures
        10 <= g.validated().simultaneous_threshold_ms <= 500,
        g.validated().speculative_delay_ms <= g.validated().simultaneous_threshold_ms,
        !g.validated().leaves_directory(),
        is_output_style(g.validated().macos_output_style),
        is_backend(g.validated().linux_input_backend),
        g.validated().linux_evdev_device matches Some(dev) ==> text::has_prefix(dev, "/dev/"@),
{
    lemma_layout_is_inside();
}

proof fn lemma_layout_is_inside()
    ensures
        !text::contains_seq("layout"@, ".."@),
{
    reveal_strlit("layout");
    reveal_strlit("..");
    let s = "layout"@;
    assert forall|i: int| !text::occurs_at(s, ".."@, i) by {
        if text::occurs_at(s, ".."@, i) {
            assert(s.subrange(i, i + 2)[0] == ".."@[0]);
            assert(s[i] == '.');
        }
    }
}

/// Values that are usable already are kept.
pub proof fn law_validation_keeps_usable_values(g: GeneralView)
    requires
        10 <= g.simultaneous_threshold_ms <= 500,
        g.speculative_delay_ms <= g.simultaneous_threshold_ms,
        !g.leaves_directory(),
        is_output_style(g.macos_output_style),
        is_backend(g.linux_input_backend),
        g.linux_evdev_device matches Some(dev) ==> text::has_prefix(dev, "/dev/"@),
    ensures
        g.validated() == g,
{
}

/// Validating a second time changes nothing.
pub proof fn law_validation_is_idempotent(g: GeneralView)
    ensures
        g.validated().validated() == g.validated(),
{
    lemma_layout_is_inside();
}

/// After one validation the reset values are not warned about again.
pub proof fn law_reset_values_are_warned_about_once(g: GeneralView)
    ensures
        g.validated().threshold_warnings() == Seq::<Seq<char>>::empty(),
        !g.validated().leaves_directory(),
        g.validated().backend_warnings() == Seq::<Seq<char>>::empty(),
{
    lemma_layout_is_inside();
    assert(g.validated().threshold_warnings() =~= Seq::<Seq<char>>::empty());
    assert(g.validated().backend_warnings() =~= Seq::<Seq<char>>::empty());
}

} // verus!
