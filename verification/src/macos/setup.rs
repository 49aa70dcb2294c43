//! From the configuration to a running engine.

use vstd::prelude::*;
use vstd::string::*;

use crate::config;
use crate::config::{ParsedKeyCombo, SymbolRomaji, ValidatedConfig};
use crate::engine::decision::SpecialKeyCombos;
use crate::engine::engine::{Engine, EngineView};
use crate::engine::nicola_fsm::NicolaFsm;
use crate::kana_table;
use crate::kana_table::CharRomaji;
use crate::macos::hook::ThumbKeys;
use crate::macos::output::OutputStyle;
use crate::macos::vk;
use crate::text;
use crate::yab::{YabEntry, YabFace, YabLayout, YabValue};

verus! {

/// The entry of a symbol of one character.
pub open spec fn entry_of(e: SymbolRomaji) -> CharRomaji {
    CharRomaji { ch: e.symbol@[0], romaji: e.romaji }
}

/// The entries whose key is a single character, by that character.
pub open spec fn symbol_entries(table: Seq<SymbolRomaji>) -> Seq<CharRomaji>
    decreases table.len(),
{
    if table.len() == 0 {
        Seq::empty()
    } else {
        let before = symbol_entries(table.drop_last());
        let entry = table.last();
        if entry.symbol@.len() == 1 {
            before.push(entry_of(entry))
        } else {
            before
        }
    }
}

/// The configured spellings by character. Keys of another length than one are dropped.
#[must_use]
pub fn parse_symbol_romaji(table: &Vec<SymbolRomaji>) -> (r: Vec<CharRomaji>)
    ensures
        r@ == symbol_entries(table@),
{
    let mut out: Vec<CharRomaji> = Vec::new();
    let mut i: usize = 0;
    while i < table.len()
        invariant
            i <= table@.len(),
            out@ == symbol_entries(table@.subrange(0, i as int)),
        decreases table@.len() - i,
    {
        assert(table@.subrange(0, i + 1).drop_last() =~= table@.subrange(0, i as int));
        let chars = text::chars_of(table[i].symbol.as_str());
        if chars.len() == 1 {
            out.push(CharRomaji { ch: chars[0], romaji: table[i].romaji.clone() });
        }
        i += 1;
    }
    assert(table@.subrange(0, i as int) =~= table@);
    out
}

/// Spelling of the first entry for the text `symbol`.
pub open spec fn spelling_of(table: Seq<SymbolRomaji>, symbol: Seq<char>) -> Option<Seq<char>>
    decreases table.len(),
{
    if table.len() == 0 {
        None
    } else {
        match spelling_of(table.drop_last(), symbol) {
            Some(s) => Some(s),
            None => if table.last().symbol@ == symbol {
                Some(table.last().romaji@)
            } else {
                None
            },
        }
    }
}

proof fn lemma_romaji_of_push(table: Seq<(char, Seq<char>)>, e: (char, Seq<char>), ch: char)
    ensures
        kana_table::romaji_of(table.push(e), ch) == (match kana_table::romaji_of(table, ch) {
            Some(s) => Some(s),
            None => if e.0 == ch {
                Some(e.1)
            } else {
                None
            },
        }),
    decreases table.len(),
{
    let longer = table.push(e);
    if table.len() == 0 {
        assert(longer.drop_first() =~= Seq::empty());
        assert(kana_table::romaji_of(longer.drop_first(), ch) is None);
    } else {
        assert(longer.drop_first() =~= table.drop_first().push(e));
        lemma_romaji_of_push(table.drop_first(), e, ch);
    }
}

proof fn lemma_one_more_entry(before: Seq<CharRomaji>, added: CharRomaji)
    ensures
        before.push(added).len() == before.len() + 1,
        before.push(added).last() == added,
        forall|i: int| 0 <= i < before.len() ==> #[trigger] before.push(added)[i] == before[i],
        kana_table::spellings(before.push(added)) == kana_table::spellings(before).push(
            (added.ch, added.romaji@),
        ),
{
    assert(kana_table::spellings(before.push(added)) =~= kana_table::spellings(before).push(
        (added.ch, added.romaji@),
    ));
}

proof fn lemma_single_character(s: Seq<char>, c: char)
    requires
        s.len() == 1,
        s[0] == c,
    ensures
        s == seq![c],
{
    assert(s =~= seq![c]);
}

/// What the last symbol adds to the entries.
proof fn lemma_last_symbol(table: Seq<SymbolRomaji>)
    requires
        table.len() > 0,
    ensures
        ({
            let before = symbol_entries(table.drop_last());
            let all = symbol_entries(table);
            let e = table.last();
            if e.symbol@.len() == 1 {
                &&& all.len() == before.len() + 1
                &&& e.symbol@ == seq![all.last().ch]
                &&& all.last().romaji == e.romaji
                &&& forall|i: int| 0 <= i < before.len() ==> #[trigger] all[i] == before[i]
                &&& kana_table::spellings(all) == kana_table::spellings(before).push(
                    (all.last().ch, e.romaji@),
                )
            } else {
                all == before
            }
        }),
{
    let before = symbol_entries(table.drop_last());
    let e = table.last();
    if e.symbol@.len() == 1 {
        let added = entry_of(e);
        lemma_one_more_entry(before, added);
        lemma_single_character(e.symbol@, added.ch);
    }
}

/// A character is spelled as the configuration says. Where it is configured twice the first entry
/// counts.
pub proof fn law_spelling_is_the_configured_one(table: Seq<SymbolRomaji>, ch: char)
    ensures
        kana_table::romaji_of(kana_table::spellings(symbol_entries(table)), ch) == spelling_of(
            table,
            seq![ch],
        ),
    decreases table.len(),
{
    if table.len() > 0 {
        law_spelling_is_the_configured_one(table.drop_last(), ch);
        lemma_last_symbol(table);
        let e = table.last();
        if e.symbol@.len() == 1 {
            let added = symbol_entries(table).last().ch;
            lemma_romaji_of_push(
                kana_table::spellings(symbol_entries(table.drop_last())),
                (added, e.romaji@),
                ch,
            );
            assert(seq![added][0] == added && seq![ch][0] == ch);
        } else {
            assert(seq![ch].len() == 1);
        }
    }
}

/// No symbol is configured twice.
pub open spec fn symbols_are_distinct(table: Seq<SymbolRomaji>) -> bool {
    forall|i: int, j: int|
        0 <= i < j < table.len() ==> #[trigger] table[i].symbol@ != #[trigger] table[j].symbol@
}

/// No character is spelled twice.
pub open spec fn characters_are_distinct(table: Seq<CharRomaji>) -> bool {
    forall|i: int, j: int|
        0 <= i < j < table.len() ==> #[trigger] table[i].ch != #[trigger] table[j].ch
}

proof fn lemma_entry_comes_from_a_symbol(table: Seq<SymbolRomaji>, i: int) -> (k: int)
    requires
        0 <= i < symbol_entries(table).len(),
    ensures
        0 <= k < table.len(),
        table[k].symbol@ == seq![symbol_entries(table)[i].ch],
    decreases table.len(),
{
    lemma_last_symbol(table);
    if i < symbol_entries(table.drop_last()).len() {
        lemma_entry_comes_from_a_symbol(table.drop_last(), i)
    } else {
        table.len() - 1
    }
}

/// Where no symbol is configured twice, no character is spelled twice.
pub proof fn law_spellings_stay_distinct(table: Seq<SymbolRomaji>)
    requires
        symbols_are_distinct(table),
    ensures
        characters_are_distinct(symbol_entries(table)),
    decreases table.len(),
{
    if table.len() > 0 {
        let shorter = table.drop_last();
        law_spellings_stay_distinct(shorter);
        lemma_last_symbol(table);
        let before = symbol_entries(shorter);
        let all = symbol_entries(table);
        assert forall|i: int, j: int| 0 <= i < j < all.len() implies #[trigger] all[i].ch
            != #[trigger] all[j].ch by {
            if j < before.len() {
                assert(before[i].ch != before[j].ch);
            } else {
                let k = lemma_entry_comes_from_a_symbol(shorter, i);
                assert(table[k].symbol@ == seq![all[i].ch]);
                assert(table[k].symbol@ != table[table.len() - 1].symbol@);
            }
        }
    }
}

/// The combinations that can be parsed, in order.
pub open spec fn combos_of(keys: Seq<Seq<char>>) -> Seq<ParsedKeyCombo>
    decreases keys.len(),
{
    if keys.len() == 0 {
        Seq::empty()
    } else {
        let before = combos_of(keys.drop_last());
        match vk::combo_of(keys.last()) {
            Some(combo) => before.push(combo),
            None => before,
        }
    }
}

/// Parses the combinations of one setting. Those without a macOS key are dropped.
#[must_use]
pub fn parse_combos(keys: &Vec<String>) -> (r: Vec<ParsedKeyCombo>)
    ensures
        r@ == combos_of(config::string_views(keys@)),
{
    let ghost views = config::string_views(keys@);
    let mut out: Vec<ParsedKeyCombo> = Vec::new();
    let mut i: usize = 0;
    while i < keys.len()
        invariant
            i <= keys@.len(),
            views == config::string_views(keys@),
            out@ == combos_of(views.subrange(0, i as int)),
        decreases keys@.len() - i,
    {
        assert(views.subrange(0, i + 1).drop_last() =~= views.subrange(0, i as int));
        assert(views.subrange(0, i + 1).last() == keys@[i as int]@);
        if let Some(combo) = vk::parse_key_combo(keys[i].as_str()) {
            out.push(combo);
        }
        i += 1;
    }
    assert(views.subrange(0, i as int) =~= views);
    out
}

/// Only `kana` selects the kana style.
#[must_use]
pub fn output_style(name: &str) -> (r: OutputStyle)
    ensures
        r == (if name@ == "kana"@ {
            OutputStyle::Kana
        } else {
            OutputStyle::Romaji
        }),
{
    if text::same(name, "kana") {
        OutputStyle::Kana
    } else {
        OutputStyle::Romaji
    }
}

/// The polling interval, never shorter than 100 milliseconds.
#[must_use]
pub fn poll_interval_ms(configured: u32) -> (r: u32)
    ensures
        r == (if configured < 100 {
            100
        } else {
            configured
        }),
{
    if configured < 100 {
        100
    } else {
        configured
    }
}

/// The entry as it is, except that a full-width slash is a middle dot.
pub open spec fn dotted(before: YabEntry, after: YabEntry) -> bool {
    &&& after.pos == before.pos
    &&& match before.value {
        YabValue::Literal(s) if s@ == "／"@ => after.value matches YabValue::Literal(t) && t@
            == "・"@,
        _ => after.value == before.value,
    }
}

/// The key next to the right shift types a middle dot when it is struck alone: the IME turns its
/// stroke into one. Only the face without thumb keys changes.
#[must_use]
pub fn with_middle_dot(layout: YabLayout) -> (r: YabLayout)
    ensures
        r.normal.entries@.len() == layout.normal.entries@.len(),
        forall|i: int|
            0 <= i < r.normal.entries@.len() ==> dotted(
                layout.normal.entries@[i],
                #[trigger] r.normal.entries@[i],
            ),
        r.left_thumb == layout.left_thumb,
        r.right_thumb == layout.right_thumb,
        r.shift == layout.shift,
        r.left_thumb_shift == layout.left_thumb_shift,
        r.right_thumb_shift == layout.right_thumb_shift,
{
    let mut entries: Vec<YabEntry> = Vec::new();
    let mut i: usize = 0;
    while i < layout.normal.entries.len()
        invariant
            i <= layout.normal.entries@.len(),
            entries@.len() == i,
            forall|j: int|
                0 <= j < i ==> dotted(layout.normal.entries@[j], #[trigger] entries@[j]),
        decreases layout.normal.entries@.len() - i,
    {
        let entry = &layout.normal.entries[i];
        let value = match &entry.value {
            YabValue::Literal(s) => {
                if text::same(s.as_str(), "／") {
                    YabValue::Literal("・".to_owned())
                } else {
                    YabValue::Literal(s.clone())
                }
            },
            YabValue::Romaji { romaji, kana } => YabValue::Romaji {
                romaji: romaji.clone(),
                kana: *kana,
            },
            YabValue::Special(k) => YabValue::Special(*k),
        };
        entries.push(YabEntry { pos: entry.pos, value });
        i += 1;
    }
    YabLayout { normal: YabFace { entries }, ..layout }
}

/// Why no engine can be built.
#[derive(Debug)]
pub enum SetupError {
    UnknownLeftThumbKey(String),
    UnknownRightThumbKey(String),
}

/// The engine and the thumb keys that a configuration asks for.
#[derive(Debug)]
pub struct Setup {
    pub engine: Engine,
    pub thumbs: ThumbKeys,
}

impl Setup {
    /// The engine has just been made, with the settings of `config` and the given layout and thumb
    /// keys.
    pub open spec fn follows(self, config: ValidatedConfig, layout: YabLayout) -> bool {
        let e = self.engine@;
        let g = config.general@;
        &&& self.engine.wf()
        &&& e == EngineView::fresh(e.fsm, e.special_keys)
        &&& e.fsm == (NicolaFsm {
            thumb_shift_faces_enabled: self.thumbs.shift_faces_usable(),
            thumb_keys_are_ime_switch: self.thumbs.switches_ime(),
            ..NicolaFsm::fresh(
                layout,
                self.thumbs.left,
                self.thumbs.right,
                g.simultaneous_threshold_ms,
                g.confirm_mode,
                g.speculative_delay_ms,
            )
        })
        &&& e.special_keys.engine_on@ == combos_of(config::string_views(config.keys.engine_on@))
        &&& e.special_keys.engine_off@ == combos_of(config::string_views(config.keys.engine_off@))
        &&& e.special_keys.ime_on@ == combos_of(config::string_views(config.keys.ime_on@))
        &&& e.special_keys.ime_off@ == combos_of(config::string_views(config.keys.ime_off@))
        &&& e.special_keys.ime_toggle@ == combos_of(config::string_views(config.keys.ime_toggle@))
    }
}

/// Builds the engine that the configuration asks for. Both thumb keys must be known.
pub fn build_engine(config: &ValidatedConfig, layout: YabLayout) -> (r: Result<Setup, SetupError>)
    ensures
        match r {
            Ok(setup) => {
                &&& vk::keycode_of(config.general.left_thumb_key@) == Some(setup.thumbs.left)
                &&& vk::keycode_of(config.general.right_thumb_key@) == Some(setup.thumbs.right)
                &&& setup.follows(*config, layout)
            },
            Err(SetupError::UnknownLeftThumbKey(name)) => {
                &&& vk::keycode_of(config.general.left_thumb_key@) is None
                &&& name@ == config.general.left_thumb_key@
            },
            Err(SetupError::UnknownRightThumbKey(name)) => {
                &&& vk::keycode_of(config.general.left_thumb_key@) is Some
                &&& vk::keycode_of(config.general.right_thumb_key@) is None
                &&& name@ == config.general.right_thumb_key@
            },
        },
{
    let g = &config.general;
    let left = match vk::key_name_to_keycode(g.left_thumb_key.as_str()) {
        Some(vk) => vk,
        None => {
            return Err(SetupError::UnknownLeftThumbKey(g.left_thumb_key.clone()));
        },
    };
    let right = match vk::key_name_to_keycode(g.right_thumb_key.as_str()) {
        Some(vk) => vk,
        None => {
            return Err(SetupError::UnknownRightThumbKey(g.right_thumb_key.clone()));
        },
    };
    let thumbs = ThumbKeys { left, right };
    let mut fsm = NicolaFsm::new(
        layout,
        left,
        right,
        g.simultaneous_threshold_ms,
        g.confirm_mode,
        g.speculative_delay_ms,
    );
    fsm.set_thumb_shift_faces_enabled(thumbs.shift_faces_enabled());
    fsm.set_thumb_keys_are_ime_switch(thumbs.are_ime_switch());
    let special = SpecialKeyCombos {
        engine_on: parse_combos(&config.keys.engine_on),
        engine_off: parse_combos(&config.keys.engine_off),
        ime_on: parse_combos(&config.keys.ime_on),
        ime_off: parse_combos(&config.keys.ime_off),
        ime_toggle: parse_combos(&config.keys.ime_toggle),
    };
    Ok(Setup { engine: Engine::new(fsm, special), thumbs })
}

} // verus!
