//! What validation makes of the settings: laws.

use vstd::prelude::*;
use vstd::string::*;

use crate::config;
use crate::config::{
    AppConfig, AppOverrideEntry, AppOverrides, CauseKind, GeneralView, KeysConfig,
};
use crate::scanmap::KeyboardModel;
use crate::text;

verus! {

// ---- Values ----

/// A threshold outside 10 to 500 becomes 100, a delay beyond the threshold becomes the smaller of 30
/// and the threshold, and nothing else of the times is touched.
pub proof fn law_times_are_reset_to_usable_ones(g: GeneralView)
    ensures
        ({
            let v = g.validated();
            let t = g.simultaneous_threshold_ms;
            &&& t < 10 || t > 500 ==> v.simultaneous_threshold_ms == 100
            &&& 10 <= t <= 500 ==> v.simultaneous_threshold_ms == t
            &&& g.speculative_delay_ms <= v.simultaneous_threshold_ms ==> v.speculative_delay_ms
                == g.speculative_delay_ms
            &&& g.speculative_delay_ms > v.simultaneous_threshold_ms ==> v.speculative_delay_ms
                <= 30 && (v.speculative_delay_ms == 30 || v.speculative_delay_ms
                == v.simultaneous_threshold_ms)
            &&& v.focus_debounce_ms == g.focus_debounce_ms
            &&& v.ime_poll_interval_ms == g.ime_poll_interval_ms
            &&& v.confirm_mode == g.confirm_mode
        }),
{
}

/// A directory that leads upwards, an output style, an input backend or a device that is none, each
/// becomes the one that the program starts with.
pub proof fn law_unusable_texts_are_reset(g: GeneralView, head: Seq<char>, tail: Seq<char>)
    ensures
        g.layouts_dir == head + ".."@ + tail ==> g.validated().layouts_dir == "layout"@,
        g.macos_output_style != "romaji"@ && g.macos_output_style != "kana"@
            ==> g.validated().macos_output_style == "romaji"@,
        g.macos_output_style == "romaji"@ || g.macos_output_style == "kana"@
            ==> g.validated().macos_output_style == g.macos_output_style,
        g.linux_input_backend != "evdev"@ && g.linux_input_backend != "x11"@
            && g.linux_input_backend != "libinput"@ ==> g.validated().linux_input_backend
            == "evdev"@,
        g.linux_input_backend == "evdev"@ || g.linux_input_backend == "x11"@
            || g.linux_input_backend == "libinput"@ ==> g.validated().linux_input_backend
            == g.linux_input_backend,
        g.linux_evdev_device == Some("/dev/"@ + tail) ==> g.validated().linux_evdev_device
            == g.linux_evdev_device,
        g.linux_evdev_device matches Some(dev) && dev.len() > 0 && dev[0] != '/'
            ==> g.validated().linux_evdev_device is None,
        g.validated().left_thumb_key == g.left_thumb_key,
        g.validated().right_thumb_key == g.right_thumb_key,
        g.validated().default_layout == g.default_layout,
        g.validated().keyboard_model == g.keyboard_model,
{
    reveal_strlit("..");
    reveal_strlit("/dev/");
    let dir = head + ".."@ + tail;
    assert(dir.subrange(head.len() as int, head.len() as int + 2) =~= ".."@);
    assert(text::occurs_at(dir, ".."@, head.len() as int));
    let path = "/dev/"@ + tail;
    assert(path.subrange(0, 5) =~= "/dev/"@);
    if let Some(dev) = g.linux_evdev_device {
        if dev.len() > 0 && dev[0] != '/' {
            if text::has_prefix(dev, "/dev/"@) {
                assert(dev.subrange(0, 5)[0] == dev[0]);
            }
        }
    }
}

/// Each value that is reset is warned about by one message, and no other value of the times or the
/// backend is.
pub proof fn law_each_reset_is_warned_about(g: GeneralView)
    ensures
        ({
            let v = g.validated();
            let t = g.simultaneous_threshold_ms;
            &&& g.threshold_warnings().len() == (if t < 10 || t > 500 {
                1nat
            } else {
                0
            }) + (if v.speculative_delay_ms != g.speculative_delay_ms {
                1nat
            } else {
                0
            })
            &&& g.backend_warnings().len() == (if v.macos_output_style != g.macos_output_style {
                1nat
            } else {
                0
            }) + (if v.linux_input_backend != g.linux_input_backend {
                1nat
            } else {
                0
            }) + (if v.linux_evdev_device != g.linux_evdev_device {
                1nat
            } else {
                0
            })
        }),
{
}

// ---- Names ----

/// The function keys from 15 to 24 are safe, and no other number is.
pub proof fn law_safe_function_keys(n: nat)
    requires
        1 <= n <= 99,
    ensures
        config::is_safe_fn_key("VK_F"@ + text::decimal(n)) <==> 15 <= n <= 24,
{
    reveal_strlit("VK_F");
    reveal_strlit("VK_F15");
    reveal_strlit("VK_F16");
    reveal_strlit("VK_F17");
    reveal_strlit("VK_F18");
    reveal_strlit("VK_F19");
    reveal_strlit("VK_F20");
    reveal_strlit("VK_F21");
    reveal_strlit("VK_F22");
    reveal_strlit("VK_F23");
    reveal_strlit("VK_F24");
    lemma_two_digits(n);
    let name = "VK_F"@ + text::decimal(n);
    if n >= 10 {
        let tens: int = n as int / 10;
        let ones: int = n as int % 10;
        assert(name[4] == text::digit_char(tens));
        assert(name[5] == text::digit_char(ones));
        assert(text::digit_char(tens) as int == '0' as int + tens);
        assert(text::digit_char(ones) as int == '0' as int + ones);
        if n == 15 {
            assert(name =~= "VK_F15"@);
        } else if n == 16 {
            assert(name =~= "VK_F16"@);
        } else if n == 17 {
            assert(name =~= "VK_F17"@);
        } else if n == 18 {
            assert(name =~= "VK_F18"@);
        } else if n == 19 {
            assert(name =~= "VK_F19"@);
        } else if n == 20 {
            assert(name =~= "VK_F20"@);
        } else if n == 21 {
            assert(name =~= "VK_F21"@);
        } else if n == 22 {
            assert(name =~= "VK_F22"@);
        } else if n == 23 {
            assert(name =~= "VK_F23"@);
        } else if n == 24 {
            assert(name =~= "VK_F24"@);
        }
    } else {
        assert(name.len() == 5);
    }
}

proof fn lemma_two_digits(n: nat)
    requires
        1 <= n <= 99,
    ensures
        n < 10 ==> text::decimal(n) == seq![text::digit_char(n as int)],
        n >= 10 ==> text::decimal(n) == seq![
            text::digit_char(n as int / 10),
            text::digit_char(n as int % 10),
        ],
{
    reveal_with_fuel(text::numeral, 3);
    if n >= 10 {
        assert(text::numeral(n / 10, 10) =~= seq![text::digit_char(n as int / 10)]);
        assert(text::decimal(n) =~= seq![
            text::digit_char(n as int / 10),
            text::digit_char(n as int % 10),
        ]);
    }
}

/// The Japanese and the English name of a conversion key are the same thumb key, with or without
/// blanks around them; the two keys are not the same.
pub proof fn law_conversion_keys_have_two_names()
    ensures
        config::is_bare_thumb_key("無変換"@, "VK_NONCONVERT"@),
        config::is_bare_thumb_key("VK_NONCONVERT"@, "無変換"@),
        config::is_bare_thumb_key("変換"@, "VK_CONVERT"@),
        config::is_bare_thumb_key("VK_CONVERT"@, "変換"@),
        !config::is_bare_thumb_key("無変換"@, "変換"@),
        !config::is_bare_thumb_key("VK_CONVERT"@, "VK_NONCONVERT"@),
{
    reveal_strlit("無変換");
    reveal_strlit("変換");
    reveal_strlit("VK_NONCONVERT");
    reveal_strlit("VK_CONVERT");
    reveal_strlit("+");
    lemma_no_blanks("無変換"@);
    lemma_no_blanks("変換"@);
    lemma_no_blanks("VK_NONCONVERT"@);
    lemma_no_blanks("VK_CONVERT"@);
    lemma_without_plus("無変換"@);
    lemma_without_plus("変換"@);
    lemma_without_plus("VK_NONCONVERT"@);
    lemma_without_plus("VK_CONVERT"@);
    let a = "VK_NONCONVERT"@;
    let b = "VK_CONVERT"@;
    assert("無変換"@.len() == 3 && "変換"@.len() == 2 && a.len() == 13 && b.len() == 10);
    assert(text::ascii_lower_seq(a).len() == 13);
    assert(text::ascii_lower_seq(b).len() == 10);
    assert(text::ascii_lower_seq("無変換"@).len() == 3);
    assert(text::ascii_lower_seq("変換"@).len() == 2);
}

proof fn lemma_no_blanks(t: Seq<char>)
    requires
        t.len() > 0,
        !text::whitespace(t[0]),
        !text::whitespace(t.last()),
    ensures
        text::trimmed(t) == t,
{
    text::law_blanks_around_a_text_are_trimmed(Seq::empty(), t, Seq::empty());
    assert(Seq::<char>::empty() + t + Seq::<char>::empty() =~= t);
}

proof fn lemma_without_plus(t: Seq<char>)
    requires
        forall|i: int| 0 <= i < t.len() ==> t[i] != '+',
    ensures
        !text::contains_seq(t, "+"@),
{
    reveal_strlit("+");
    assert forall|i: int| !text::occurs_at(t, "+"@, i) by {
        if text::occurs_at(t, "+"@, i) {
            assert(t.subrange(i, i + 1)[0] == "+"@[0]);
            assert(t[i] == '+');
        }
    }
}

/// A combination with a plus sign is no bare thumb key.
pub proof fn law_combination_is_no_bare_thumb_key(
    head: Seq<char>,
    tail: Seq<char>,
    thumb_key: Seq<char>,
)
    requires
        head.len() > 0,
        tail.len() > 0,
        !text::whitespace(head[0]),
        !text::whitespace(tail.last()),
    ensures
        !config::is_bare_thumb_key(head + "+"@ + tail, thumb_key),
{
    reveal_strlit("+");
    let c = head + "+"@ + tail;
    assert(c[0] == head[0]);
    assert(c.last() == tail.last());
    lemma_no_blanks(c);
    assert(c.subrange(head.len() as int, head.len() as int + 1) =~= "+"@);
    assert(text::occurs_at(c, "+"@, head.len() as int));
}

// ---- Errors ----

/// Of the causes of a failed load the first that is of the file system decides, and only a file that
/// is not there is harmless.
pub proof fn law_first_file_error_decides(before: Seq<CauseKind>, cause: CauseKind, after: Seq<CauseKind>)
    requires
        forall|i: int| 0 <= i < before.len() ==> #[trigger] before[i] == CauseKind::NotIo,
        cause != CauseKind::NotIo,
    ensures
        config::is_not_found(before.push(cause) + after) <==> cause == CauseKind::IoNotFound,
        !config::is_not_found(before),
    decreases before.len(),
{
    let all = before.push(cause) + after;
    if before.len() == 0 {
        assert(all[0] == cause);
    } else {
        let rest = before.drop_first();
        assert forall|i: int| 0 <= i < rest.len() implies #[trigger] rest[i] == CauseKind::NotIo by {
            assert(rest[i] == before[i + 1]);
        }
        law_first_file_error_decides(rest, cause, after);
        assert(before[0] == CauseKind::NotIo);
        assert(all[0] == before[0]);
        assert(all.drop_first() =~= rest.push(cause) + after);
    }
}

// ---- Warnings ----

/// An override without a process or without a class is warned about, one message an entry, and the
/// order of the lists does not matter to that.
pub proof fn law_empty_overrides_are_warned_about(
    a: Seq<AppOverrideEntry>,
    b: Seq<AppOverrideEntry>,
    e: AppOverrideEntry,
    name: Seq<char>,
)
    ensures
        config::override_warnings(a + b, name) == config::override_warnings(a, name)
            + config::override_warnings(b, name),
        config::override_warnings(seq![e], name).len() == (if e.process@.len() == 0
            || e.class@.len() == 0 {
            1nat
        } else {
            0
        }),
    decreases b.len(),
{
    assert(seq![e].drop_last() =~= Seq::empty());
    assert(seq![e].last() == e);
    assert(config::override_warnings(Seq::empty(), name).len() == 0);
    let first = config::override_warnings(a, name);
    if b.len() == 0 {
        assert(a + b =~= a);
        assert(first + config::override_warnings(b, name) =~= first);
    } else {
        law_empty_overrides_are_warned_about(a, b.drop_last(), e, name);
        assert((a + b).drop_last() =~= a + b.drop_last());
        assert(config::override_warnings(a + b, name) =~= first + config::override_warnings(
            b,
            name,
        ));
    }
}

/// A keyboard of the JIS layout is never warned about for its layout or its keys.
pub proof fn law_jis_keyboard_has_the_keys(g: GeneralView, keys: KeysConfig)
    requires
        g.keyboard_model == KeyboardModel::Jis,
    ensures
        config::keyboard_model_warnings(g, keys).len() == 0,
{
}

/// A text that holds the name of a conversion key, in either language, is found to.
pub proof fn law_names_of_jis_keys_are_found(head: Seq<char>, tail: Seq<char>)
    ensures
        config::mentions_jis_key(head + "変換"@ + tail),
        config::mentions_jis_key(head + "無変換"@ + tail),
        config::mentions_jis_key(head + "VK_CONVERT"@ + tail),
        config::mentions_jis_key(head + "VK_NONCONVERT"@ + tail),
        !config::mentions_jis_key(Seq::empty()),
{
    lemma_occurs(head, "変換"@, tail);
    lemma_occurs(head, "無変換"@, tail);
    lemma_occurs(head, "VK_CONVERT"@, tail);
    lemma_occurs(head, "VK_NONCONVERT"@, tail);
    reveal_strlit("変換");
    reveal_strlit("無変換");
    reveal_strlit("VK_CONVERT");
    reveal_strlit("VK_NONCONVERT");
}

proof fn lemma_occurs(head: Seq<char>, p: Seq<char>, tail: Seq<char>)
    ensures
        text::contains_seq(head + p + tail, p),
{
    let s = head + p + tail;
    assert(s.subrange(head.len() as int, (head.len() + p.len()) as int) =~= p);
    assert(text::occurs_at(s, p, head.len() as int));
}

/// One where it holds.
pub open spec fn count(b: bool) -> nat {
    if b {
        1
    } else {
        0
    }
}

/// Of the settings that may name a key of the JIS keyboard, exactly those that do are listed.
pub proof fn law_settings_with_jis_keys_are_listed(g: GeneralView, keys: KeysConfig)
    ensures
        ({
            let fields = config::jis_fields(g, keys);
            let on = |list: Seq<String>|
                config::any_mentions_jis_key(config::string_views(list));
            let repeat = keys.engine_off_solo_repeat matches Some(s) && config::mentions_jis_key(
                s@,
            );
            &&& config::mentions_jis_key(g.left_thumb_key) ==> fields.contains(
                "general.left_thumb_key"@,
            )
            &&& config::mentions_jis_key(g.right_thumb_key) ==> fields.contains(
                "general.right_thumb_key"@,
            )
            &&& on(keys.engine_on@) ==> fields.contains("keys.engine_on"@)
            &&& on(keys.engine_off@) ==> fields.contains("keys.engine_off"@)
            &&& on(keys.ime_on@) ==> fields.contains("keys.ime_on"@)
            &&& on(keys.ime_off@) ==> fields.contains("keys.ime_off"@)
            &&& repeat ==> fields.contains("keys.engine_off_solo_repeat"@)
            &&& fields.len() == count(config::mentions_jis_key(g.left_thumb_key)) + count(
                config::mentions_jis_key(g.right_thumb_key),
            ) + count(on(keys.engine_on@)) + count(on(keys.engine_off@)) + count(on(keys.ime_on@))
                + count(on(keys.ime_off@)) + count(repeat)
        }),
{
    let p1 = config::warn_if(
        config::mentions_jis_key(g.left_thumb_key),
        "general.left_thumb_key"@,
    );
    let p2 = config::warn_if(
        config::mentions_jis_key(g.right_thumb_key),
        "general.right_thumb_key"@,
    );
    let p3 = config::warn_if(
        config::any_mentions_jis_key(config::string_views(keys.engine_on@)),
        "keys.engine_on"@,
    );
    let p4 = config::warn_if(
        config::any_mentions_jis_key(config::string_views(keys.engine_off@)),
        "keys.engine_off"@,
    );
    let p5 = config::warn_if(
        config::any_mentions_jis_key(config::string_views(keys.ime_on@)),
        "keys.ime_on"@,
    );
    let p6 = config::warn_if(
        config::any_mentions_jis_key(config::string_views(keys.ime_off@)),
        "keys.ime_off"@,
    );
    let fields = config::jis_fields(g, keys);
    let n1 = p1.len() as int;
    let n2 = n1 + p2.len();
    let n3 = n2 + p3.len();
    let n4 = n3 + p4.len();
    let n5 = n4 + p5.len();
    let n6 = n5 + p6.len();
    if p1.len() > 0 {
        assert(fields[0] == p1[0]);
    }
    if p2.len() > 0 {
        assert(fields[n1] == p2[0]);
    }
    if p3.len() > 0 {
        assert(fields[n2] == p3[0]);
    }
    if p4.len() > 0 {
        assert(fields[n3] == p4[0]);
    }
    if p5.len() > 0 {
        assert(fields[n4] == p5[0]);
    }
    if p6.len() > 0 {
        assert(fields[n5] == p6[0]);
    }
    if fields.len() > n6 {
        assert(fields[n6] == "keys.engine_off_solo_repeat"@);
    }
}

/// A directory that leads upwards, and a layout whose name does not end in `.yab`, in whatever case, are
/// warned about with the text that is wrong.
pub proof fn law_layout_settings_are_warned_about(g: GeneralView, stem: Seq<char>)
    ensures
        ({
            let bad_dir = text::contains_seq(g.layouts_dir, ".."@);
            let bad_layout = !text::has_suffix(text::ascii_lower_seq(g.default_layout), ".yab"@);
            let w = g.layout_warnings();
            &&& w.len() == count(bad_dir) + count(bad_layout)
            &&& bad_dir ==> text::has_suffix(w[0], g.layouts_dir)
            &&& bad_layout ==> text::has_suffix(w.last(), g.default_layout)
            &&& g.default_layout == stem + ".yab"@ ==> !bad_layout
            &&& g.default_layout == stem + ".YAB"@ ==> !bad_layout
        }),
{
    text::law_parts_are_found(config::LAYOUTS_DIR_HEAD@, g.layouts_dir, Seq::empty());
    text::law_parts_are_found(config::DEFAULT_LAYOUT_HEAD@, g.default_layout, Seq::empty());
    reveal_strlit(".yab");
    reveal_strlit(".YAB");
    let lower = text::ascii_lower_seq(".yab"@);
    let upper = text::ascii_lower_seq(".YAB"@);
    assert(text::ascii_lower('Y') == 'y' && text::ascii_lower('A') == 'a' && text::ascii_lower('B')
        == 'b');
    assert(lower =~= ".yab"@);
    assert(upper =~= ".yab"@);
    let head = text::ascii_lower_seq(stem);
    assert(text::ascii_lower_seq(stem + ".yab"@) =~= head + ".yab"@);
    assert(text::ascii_lower_seq(stem + ".YAB"@) =~= head + ".yab"@);
    text::law_parts_are_found(head, ".yab"@, Seq::empty());
}

/// A key for the tapped muhenkan key is warned about unless it is a safe one or none is set, and a thumb
/// key unless it is no kana key.
pub proof fn law_key_settings_are_warned_about(g: GeneralView)
    ensures
        g.fn_key_warnings().len() == count(
            g.muhenkan_solo_tap_dedicated_fn_key matches Some(name) && !config::is_safe_fn_key(name),
        ),
        g.thumb_key_warnings().len() == count(
            g.left_thumb_key == "Kana"@ || g.left_thumb_key == "VK_KANA"@ || g.right_thumb_key
                == "Kana"@ || g.right_thumb_key == "VK_KANA"@,
        ),
{
}

/// A thumb key by itself among the combinations of the IME is warned about, once for each of the three
/// lists, which the warning names.
pub proof fn law_bare_thumb_keys_are_warned_about(keys: KeysConfig, thumb_key: Seq<char>)
    ensures
        ({
            let w = config::bare_thumb_warnings(keys, thumb_key);
            let bare = |list: Seq<String>|
                config::any_bare_thumb_key(config::string_views(list), thumb_key);
            let on = bare(keys.ime_on@);
            let off = bare(keys.ime_off@);
            let toggle = bare(keys.ime_toggle@);
            &&& w.len() == count(on) + count(off) + count(toggle)
            &&& on ==> text::has_prefix(w[0], "keys.ime_on"@)
            &&& off ==> text::has_prefix(w[count(on) as int], "keys.ime_off"@)
            &&& toggle ==> text::has_prefix(w.last(), "keys.ime_toggle"@)
        }),
{
    lemma_names_its_list("keys.ime_on"@, thumb_key, config::BARE_ON_DETAIL@);
    lemma_names_its_list("keys.ime_off"@, thumb_key, config::BARE_OTHER_DETAIL@);
    lemma_names_its_list("keys.ime_toggle"@, thumb_key, config::BARE_OTHER_DETAIL@);
}

proof fn lemma_names_its_list(field: Seq<char>, thumb_key: Seq<char>, detail: Seq<char>)
    ensures
        text::has_prefix(config::bare_thumb_warning(field, thumb_key, detail), field),
{
    let w = config::bare_thumb_warning(field, thumb_key, detail);
    assert(w.subrange(0, field.len() as int) =~= field);
}

/// A thumb key by itself is found in a list wherever it stands there.
pub proof fn law_bare_thumb_key_is_found(
    a: Seq<Seq<char>>,
    combo: Seq<char>,
    b: Seq<Seq<char>>,
    thumb_key: Seq<char>,
)
    ensures
        config::is_bare_thumb_key(combo, thumb_key) ==> config::any_bare_thumb_key(
            a.push(combo) + b,
            thumb_key,
        ),
        !config::any_bare_thumb_key(Seq::empty(), thumb_key),
{
    assert((a.push(combo) + b)[a.len() as int] == combo);
}

/// Both thumb keys are looked at, the left one first.
pub proof fn law_both_thumb_keys_are_looked_at(g: GeneralView, keys: KeysConfig)
    ensures
        config::ime_combo_warnings(g, keys) == config::bare_thumb_warnings(keys, g.left_thumb_key)
            + config::bare_thumb_warnings(keys, g.right_thumb_key),
{
}

/// A keyboard of the US layout is warned about with the layout for the other, and with keys that it
/// lacks.
pub proof fn law_us_keyboard_lacks_keys(g: GeneralView, keys: KeysConfig)
    requires
        g.keyboard_model == KeyboardModel::Us,
    ensures
        config::keyboard_model_warnings(g, keys).len() == count(
            text::strip_suffixes(g.default_layout, ".yab"@) == "nicola"@,
        ) + count(config::jis_fields(g, keys).len() > 0),
        g.default_layout == "nicola"@ + ".yab"@ && text::strip_suffixes("nicola"@, ".yab"@)
            == "nicola"@ ==> config::keyboard_model_warnings(g, keys)[0] == config::US_LAYOUT@,
{
    reveal_strlit(".yab");
    text::law_suffixes_are_stripped("nicola"@, ".yab"@);
}

/// The overrides of every kind are looked at, and so are the disabled applications.
pub proof fn law_overrides_of_every_kind_are_looked_at(o: AppOverrides)
    ensures
        config::app_override_warnings(o).len() == config::override_warnings(
            o.force_text@,
            "force_text"@,
        ).len() + config::override_warnings(o.force_bypass@, "force_bypass"@).len()
            + config::override_warnings(o.force_vk@, "force_vk"@).len()
            + config::override_warnings(o.force_tsf@, "force_tsf"@).len() + count(
            exists|i: int|
                0 <= i < o.disable_apps@.len() && (#[trigger] o.disable_apps@[i])@.len() == 0,
        ),
{
    let views = config::string_views(o.disable_apps@);
    if config::any_empty(views) {
        let i = choose|i: int| 0 <= i < views.len() && #[trigger] views[i].len() == 0;
        assert(o.disable_apps@[i]@.len() == 0);
    }
    if exists|i: int| 0 <= i < o.disable_apps@.len() && (#[trigger] o.disable_apps@[i])@.len() == 0 {
        let i = choose|i: int|
            0 <= i < o.disable_apps@.len() && (#[trigger] o.disable_apps@[i])@.len() == 0;
        assert(views[i].len() == 0);
    }
}

/// No warning gets lost: there are as many as the checks find, each looking at what the ones before it
/// have reset.
pub proof fn law_all_warnings_are_kept(c: AppConfig)
    ensures
        ({
            let g = c.general@;
            let timed = g.with_valid_thresholds();
            let placed = timed.with_valid_layouts();
            config::all_warnings(c).len() == g.threshold_warnings().len()
                + timed.layout_warnings().len() + placed.thumb_key_warnings().len()
                + placed.fn_key_warnings().len() + config::ime_combo_warnings(placed, c.keys).len()
                + config::keyboard_model_warnings(placed, c.keys).len()
                + placed.backend_warnings().len() + config::app_override_warnings(
                c.app_overrides,
            ).len()
        }),
{
}

/// The settings that the program starts with are usable, and are those that are documented.
pub proof fn law_first_settings_are_usable()
    ensures
        ({
            let g = GeneralView::default_spec();
            &&& 10 <= g.simultaneous_threshold_ms <= 500
            &&& g.simultaneous_threshold_ms == 100
            &&& g.speculative_delay_ms <= g.simultaneous_threshold_ms
            &&& g.speculative_delay_ms == 30
            &&& g.ngram_min_threshold_ms <= g.simultaneous_threshold_ms <= g.ngram_max_threshold_ms
            &&& g.threshold_warnings().len() == 0
            &&& g.backend_warnings().len() == 0
            &&& g.fn_key_warnings().len() == 0
            &&& g.left_thumb_key == "無変換"@ && g.right_thumb_key == "変換"@
            &&& g.confirm_mode is Wait
            &&& g.keyboard_model is Jis
            &&& g.default_layout == "nicola.yab"@
        }),
{
}

} // verus!
