//! What actions put on the keyboard: laws of the output.

use vstd::prelude::*;
use vstd::string::*;

use crate::kana_table;
use crate::macos::output;
use crate::macos::output::{KeyPost, Output};
use crate::types::{KeyAction, SpecialKey, VkCode};

verus! {

// ---- Strokes ----

/// A stroke is the key's press and release; with shift, the shift key is pressed before and released
/// after, and marks the key's own events.
pub proof fn law_stroke_is_a_press_and_a_release(keycode: u16)
    ensures
        output::press(keycode, false) == seq![
            KeyPost::Key { keycode, down: true, shift: false, option: false },
            KeyPost::Key { keycode, down: false, shift: false, option: false },
        ],
        output::press(keycode, true) == seq![
            KeyPost::Key { keycode: 0x38, down: true, shift: false, option: false },
            KeyPost::Key { keycode, down: true, shift: true, option: false },
            KeyPost::Key { keycode, down: false, shift: true, option: false },
            KeyPost::Key { keycode: 0x38, down: false, shift: false, option: false },
        ],
{
}

/// A stroke with option stands inside the press and release of the option key.
pub proof fn law_option_is_held_around_the_stroke(keycode: u16)
    ensures
        output::literal_posts(keycode, false) == seq![
            KeyPost::Key { keycode: 0x3A, down: true, shift: false, option: false },
            KeyPost::Key { keycode, down: true, shift: false, option: true },
            KeyPost::Key { keycode, down: false, shift: false, option: true },
            KeyPost::Key { keycode: 0x3A, down: false, shift: false, option: false },
        ],
        output::literal_posts(keycode, true) == seq![
            KeyPost::Key { keycode: 0x3A, down: true, shift: false, option: false },
            KeyPost::Key { keycode: 0x38, down: true, shift: false, option: false },
            KeyPost::Key { keycode, down: true, shift: true, option: true },
            KeyPost::Key { keycode, down: false, shift: true, option: true },
            KeyPost::Key { keycode: 0x38, down: false, shift: false, option: false },
            KeyPost::Key { keycode: 0x3A, down: false, shift: false, option: false },
        ],
{
    assert(output::literal_posts(keycode, false) =~= seq![
        KeyPost::Key { keycode: 0x3A, down: true, shift: false, option: false },
        KeyPost::Key { keycode, down: true, shift: false, option: true },
        KeyPost::Key { keycode, down: false, shift: false, option: true },
        KeyPost::Key { keycode: 0x3A, down: false, shift: false, option: false },
    ]);
    assert(output::literal_posts(keycode, true) =~= seq![
        KeyPost::Key { keycode: 0x3A, down: true, shift: false, option: false },
        KeyPost::Key { keycode: 0x38, down: true, shift: false, option: false },
        KeyPost::Key { keycode, down: true, shift: true, option: true },
        KeyPost::Key { keycode, down: false, shift: true, option: true },
        KeyPost::Key { keycode: 0x38, down: false, shift: false, option: false },
        KeyPost::Key { keycode: 0x3A, down: false, shift: false, option: false },
    ]);
}

/// A text is typed character by character, in order: each that has a key with one stroke of it.
pub proof fn law_text_is_typed_in_order(a: Seq<char>, b: Seq<char>, c: char)
    ensures
        output::ascii_posts(a + b) == output::ascii_posts(a) + output::ascii_posts(b),
        output::ascii_keycode(c) matches Some((keycode, shift)) ==> output::ascii_posts(seq![c])
            == output::press(keycode, shift),
        output::ascii_keycode(c) is None ==> output::ascii_posts(seq![c]) == Seq::<
            KeyPost,
        >::empty(),
    decreases b.len(),
{
    assert(seq![c].drop_last() =~= Seq::empty());
    assert(output::ascii_posts(Seq::empty()) =~= Seq::empty());
    assert(seq![c].last() == c);
    assert(output::ascii_posts(seq![c]) =~= output::ascii_press(c));
    if b.len() == 0 {
        assert(a + b =~= a);
        assert(output::ascii_posts(a) + output::ascii_posts(b) =~= output::ascii_posts(a));
    } else {
        law_text_is_typed_in_order(a, b.drop_last(), c);
        assert((a + b).drop_last() =~= a + b.drop_last());
        assert((output::ascii_posts(a) + output::ascii_posts(b.drop_last())) + output::ascii_press(
            b.last(),
        ) =~= output::ascii_posts(a) + (output::ascii_posts(b.drop_last())
            + output::ascii_press(b.last())));
    }
}

/// A kana is typed by its key; a voiced one by the key of the plain kana and then that of the mark.
pub proof fn law_voiced_kana_are_typed_in_two(ch: char)
    ensures
        ({
            let (base, mark) = output::voicing(ch);
            let plain = output::kana_keycode(base);
            match mark {
                None => output::kana_posts(ch) == (match plain {
                    Some((keycode, shift)) => Some(output::press(keycode, shift)),
                    None => None,
                }),
                Some(m) => plain is Some && output::kana_posts(base) is Some && output::kana_posts(
                    m,
                ) is Some ==> output::kana_posts(ch) == Some(
                    output::kana_posts(base)->0 + output::kana_posts(m)->0,
                ),
            }
        }),
{
    let (base, mark) = output::voicing(ch);
    if let Some((keycode, shift)) = output::kana_keycode(base) {
        let p = output::press(keycode, shift);
        assert(p + Seq::<KeyPost>::empty() =~= p);
    }
    if let Some(m) = mark {
        assert(output::voicing(base) == (base, None::<char>));
        assert(output::voicing(m) == (m, None::<char>));
        if let Some((keycode, shift)) = output::kana_keycode(m) {
            let p = output::press(keycode, shift);
            assert(p + Seq::<KeyPost>::empty() =~= p);
        }
    }
}

// ---- Characters ----

/// A spelling that the user gave comes before anything else, in both styles.
pub proof fn law_users_spelling_comes_first(out: Output, ch: char, s: Seq<char>)
    requires
        kana_table::romaji_of(kana_table::spellings(out.symbol_romaji@), ch) == Some(s),
    ensures
        out.action_posted(KeyAction::Char(ch)).posts == output::ascii_posts(s),
        out.action_posted(KeyAction::Char(ch)).composing,
{
}

/// A kana and its romaji go out alike: in the romaji style as the spelling, in the kana style as the
/// strokes of the kana.
pub proof fn law_kana_and_its_romaji_go_out_alike(out: Output, ch: char, romaji: String)
    requires
        out.kana@ == kana_table::kana_spellings(),
        kana_table::romaji_of(kana_table::spellings(out.symbol_romaji@), ch) is None,
        kana_table::romaji_of(kana_table::kana_spellings(), ch) == Some(romaji@),
    ensures
        ({
            let as_kana = out.action_posted(KeyAction::Char(ch));
            let as_romaji = out.action_posted(KeyAction::Romaji(romaji));
            &&& out.style is Romaji || output::kana_posts(ch) is Some ==> as_kana.composing
            &&& as_romaji.composing
            &&& out.style is Romaji ==> as_kana.posts == output::ascii_posts(romaji@)
                && as_romaji.posts == output::ascii_posts(romaji@)
            &&& out.style is Kana && output::kana_posts(ch) is Some ==> as_kana.posts
                == output::kana_posts(ch)->0 && as_romaji.posts == output::kana_posts(ch)->0
        }),
{
    kana_table::law_spellings_are_read_back(ch, romaji@);
}

/// A full-width character without a way of its own is typed by the key of the half-width one. Where
/// there is no such key, the character goes past the IME, unchanged in the romaji style and half as
/// wide in the kana style.
pub proof fn law_other_characters(out: Output, ch: char)
    requires
        out.kana@ == kana_table::kana_spellings(),
        kana_table::romaji_of(kana_table::spellings(out.symbol_romaji@), ch) is None,
        kana_table::romaji_of(kana_table::kana_spellings(), ch) is None,
        output::kana_posts(ch) is None,
        output::kana_symbol_ascii(ch) is None,
        ch != '／' && ch != '［' && ch != '］',
    ensures
        ({
            let posted = out.action_posted(KeyAction::Char(ch));
            let half = output::halfwidth(ch);
            if out.style is Romaji && half is Some && output::ascii_keycode(half->0) is Some {
                posted.posts == output::ascii_posts(seq![half->0]) && posted.composing
            } else {
                &&& posted.composing == out.composing_hint
                &&& posted.posts == seq![
                    KeyPost::Char(
                        if out.style is Kana && half is Some {
                            half->0
                        } else {
                            ch
                        },
                    ),
                ]
            }
        }),
{
}

/// A symbol of the kana keyboard is typed in the romaji style by the character that the IME turns into
/// it, and a bracket or slash that the IME would change with the option key.
pub proof fn law_symbols_reach_the_ime(out: Output, ch: char)
    requires
        out.style is Romaji,
        out.kana@ == kana_table::kana_spellings(),
        kana_table::romaji_of(kana_table::spellings(out.symbol_romaji@), ch) is None,
        kana_table::romaji_of(kana_table::kana_spellings(), ch) is None,
    ensures
        output::kana_symbol_ascii(ch) matches Some(s) ==> out.action_posted(
            KeyAction::Char(ch),
        ).posts == output::ascii_posts(s),
        (ch == '／' || ch == '［' || ch == '］') && output::ascii_keycode(
            output::halfwidth(ch)->0,
        ) is Some ==> out.action_posted(KeyAction::Char(ch)).posts == output::literal_posts(
            (output::ascii_keycode(output::halfwidth(ch)->0)->0).0,
            (output::ascii_keycode(output::halfwidth(ch)->0)->0).1,
        ),
        out.action_posted(KeyAction::Char(ch)).composing || !(ch == '／' || ch == '［' || ch == '］'),
{
    assert(output::halfwidth('／') == Some('/'));
    assert(output::halfwidth('［') == Some('['));
    assert(output::halfwidth('］') == Some(']'));
}

// ---- Actions ----

/// A tap goes out as the key's press and release, without a modifier, and a suppressed action not at
/// all. A special key is one stroke, and enter and escape end the composition.
pub proof fn law_keys_go_out_as_they_are(out: Output, vk: VkCode, sk: SpecialKey)
    ensures
        out.actions_posted(seq![KeyAction::Key(vk), KeyAction::KeyUp(vk)]).posts == output::press(
            vk.0,
            false,
        ),
        out.actions_posted(seq![KeyAction::Key(vk), KeyAction::KeyUp(vk)]).composing
            == out.composing_hint,
        out.action_posted(KeyAction::Suppress).posts == Seq::<KeyPost>::empty(),
        out.action_posted(KeyAction::Suppress).composing == out.composing_hint,
        out.action_posted(KeyAction::SpecialKey(sk)).posts == output::press(
            output::special_keycode(sk),
            false,
        ),
        out.action_posted(KeyAction::SpecialKey(sk)).composing == (out.composing_hint && sk
            != SpecialKey::Enter && sk != SpecialKey::Escape),
{
    let tap = seq![KeyAction::Key(vk), KeyAction::KeyUp(vk)];
    assert(tap.drop_last() =~= seq![KeyAction::Key(vk)]);
    assert(tap.drop_last().drop_last() =~= Seq::empty());
    assert(out.actions_posted(tap.drop_last().drop_last()).posts =~= Seq::empty());
    assert(tap.drop_last().last() == KeyAction::Key(vk));
    assert(out.actions_posted(tap.drop_last()).posts =~= seq![output::key_post(vk.0, true, false)]);
    assert(out.actions_posted(tap).posts =~= output::press(vk.0, false));
}

/// A sequence is typed as it stands, in both styles.
pub proof fn law_sequences_are_typed_as_they_stand(out: Output, s: String)
    ensures
        out.action_posted(KeyAction::KeySequence(s)).posts == output::ascii_posts(s@),
        out.action_posted(KeyAction::KeySequence(s)).composing,
{
}

/// Actions go out one after the other, and what the first ones leave composing the later ones find.
pub proof fn law_actions_go_out_in_order(out: Output, a: Seq<KeyAction>, b: Seq<KeyAction>)
    ensures
        ({
            let first = out.actions_posted(a);
            let then = (Output { composing_hint: first.composing, ..out }).actions_posted(b);
            let both = out.actions_posted(a + b);
            &&& both.posts == first.posts + then.posts
            &&& both.composing == then.composing
        }),
    decreases b.len(),
{
    let first = out.actions_posted(a);
    let after = Output { composing_hint: first.composing, ..out };
    if b.len() == 0 {
        assert(a + b =~= a);
        assert(first.posts + Seq::<KeyPost>::empty() =~= first.posts);
    } else {
        law_actions_go_out_in_order(out, a, b.drop_last());
        assert((a + b).drop_last() =~= a + b.drop_last());
        let before = after.actions_posted(b.drop_last());
        assert((Output { composing_hint: before.composing, ..after }) == (Output {
            composing_hint: before.composing,
            ..out
        }));
        let last = (Output { composing_hint: before.composing, ..out }).action_posted(b.last());
        assert((first.posts + before.posts) + last.posts =~= first.posts + (before.posts
            + last.posts));
    }
}

/// One action by itself.
pub proof fn law_single_action(out: Output, a: KeyAction)
    ensures
        out.actions_posted(seq![a]) == out.action_posted(a),
{
    assert(seq![a].drop_last() =~= Seq::empty());
    assert(seq![a].last() == a);
    assert(out.actions_posted(Seq::empty()).posts =~= Seq::empty());
    assert(out.actions_posted(Seq::empty()).composing == out.composing_hint);
    let same = Output { composing_hint: out.composing_hint, ..out };
    assert(same == out);
    assert(out.actions_posted(seq![a]).posts =~= out.action_posted(a).posts);
}

} // verus!
