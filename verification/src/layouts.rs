//! What a layout says and how its text is read: laws.

use vstd::prelude::*;
use vstd::string::*;

use crate::engine::fsm_types::Face;
use crate::kana_table;
use crate::scanmap::{KeyboardModel, PhysicalPos};
use crate::text;
use crate::types::KeyAction;
use crate::yab;
use crate::yab::{
    EntryView, LayoutView, ReadState, ValueView, YabEntry, YabError, YabFace, YabLayout, YabValue,
};

verus! {

// ---- Faces ----

/// A position has the value of its first entry: a special key, a kana, romaji, one character, or a
/// sequence of any other length.
pub proof fn law_first_entry_of_a_position_counts(face: YabFace, i: int)
    requires
        0 <= i < face.entries@.len(),
        forall|j: int| 0 <= j < i ==> (#[trigger] face.entries@[j]).pos != face.entries@[i].pos,
    ensures
        ({
            let a = face.action_at(face.entries@[i].pos);
            match face.entries@[i].value {
                YabValue::Romaji { romaji: _, kana: Some(c) } => a == Some(KeyAction::Char(c)),
                YabValue::Romaji { romaji, kana: None } => a == Some(KeyAction::Romaji(romaji)),
                YabValue::Literal(s) if s@.len() == 1 => a == Some(KeyAction::Char(s@[0])),
                YabValue::Literal(s) => a == Some(KeyAction::KeySequence(s)),
                YabValue::Special(k) => a == Some(KeyAction::SpecialKey(k)),
            }
        }),
{
    lemma_first_entry(face.entries@, i);
}

proof fn lemma_first_entry(entries: Seq<YabEntry>, i: int)
    requires
        0 <= i < entries.len(),
        forall|j: int| 0 <= j < i ==> (#[trigger] entries[j]).pos != entries[i].pos,
    ensures
        yab::find_entry(entries, entries[i].pos) == Some(entries[i].value),
    decreases i,
{
    if i > 0 {
        let rest = entries.drop_first();
        assert(entries[0].pos != entries[i].pos);
        assert(rest[i - 1] == entries[i]);
        assert forall|j: int| 0 <= j < i - 1 implies (#[trigger] rest[j]).pos != rest[i - 1].pos by {
            assert(rest[j] == entries[j + 1]);
        }
        lemma_first_entry(rest, i - 1);
    }
}

/// A position without an entry has no action.
pub proof fn law_position_without_an_entry_has_no_action(face: YabFace, pos: PhysicalPos)
    requires
        forall|j: int| 0 <= j < face.entries@.len() ==> (#[trigger] face.entries@[j]).pos != pos,
    ensures
        face.action_at(pos) is None,
{
    lemma_no_entry(face.entries@, pos);
}

proof fn lemma_no_entry(entries: Seq<YabEntry>, pos: PhysicalPos)
    requires
        forall|j: int| 0 <= j < entries.len() ==> (#[trigger] entries[j]).pos != pos,
    ensures
        yab::find_entry(entries, pos) is None,
    decreases entries.len(),
{
    if entries.len() > 0 {
        let rest = entries.drop_first();
        assert(entries[0].pos != pos);
        assert forall|j: int| 0 <= j < rest.len() implies (#[trigger] rest[j]).pos != pos by {
            assert(rest[j] == entries[j + 1]);
        }
        lemma_no_entry(rest, pos);
    }
}

/// Each face of a layout is looked up by itself.
pub proof fn law_faces_are_looked_up_by_themselves(l: YabLayout, pos: PhysicalPos)
    ensures
        l.action_at(Face::Normal, pos) == l.normal.action_at(pos),
        l.action_at(Face::Shift, pos) == l.shift.action_at(pos),
        l.action_at(Face::LeftThumb, pos) == l.left_thumb.action_at(pos),
        l.action_at(Face::RightThumb, pos) == l.right_thumb.action_at(pos),
        l.action_at(Face::LeftThumbShift, pos) == l.left_thumb_shift.action_at(pos),
        l.action_at(Face::RightThumbShift, pos) == l.right_thumb_shift.action_at(pos),
{
}

/// A row is added to its own face, and every other face stays as it is.
pub proof fn law_rows_are_added_to_their_face(l: LayoutView, more: Seq<EntryView>)
    ensures
        l.with(Face::Normal, more) == (LayoutView { normal: l.normal + more, ..l }),
        l.with(Face::Shift, more) == (LayoutView { shift: l.shift + more, ..l }),
        l.with(Face::LeftThumb, more) == (LayoutView { left_thumb: l.left_thumb + more, ..l }),
        l.with(Face::RightThumb, more) == (LayoutView { right_thumb: l.right_thumb + more, ..l }),
        l.with(Face::LeftThumbShift, more) == (LayoutView {
            left_thumb_shift: l.left_thumb_shift + more,
            ..l
        }),
        l.with(Face::RightThumbShift, more) == (LayoutView {
            right_thumb_shift: l.right_thumb_shift + more,
            ..l
        }),
{
}

// ---- Keys of a row ----

/// A key in single quotes stands for the text between them, whatever it is.
pub proof fn law_quoted_text_is_sent_as_it_is(s: Seq<char>)
    ensures
        yab::value_of(seq!['\''] + s + seq!['\'']) == Some(ValueView::Literal(s)),
{
    let t = seq!['\''] + s + seq!['\''];
    assert(t[0] == '\'');
    assert(t.last() == '\'');
    assert(t.subrange(1, t.len() - 1) =~= s);
    assert(t.len() >= 2);
    assert(t != seq!['無']);
}

/// Nothing, or the sign for it, has no value. Anything that is neither quoted nor one character alone
/// is romaji.
pub proof fn law_unquoted_text_is_romaji(t: Seq<char>)
    ensures
        yab::value_of(Seq::empty()) is None,
        yab::value_of(seq!['無']) is None,
        t.len() >= 2 && (t[0] != '\'' || t.last() != '\'') ==> yab::value_of(t) == Some(
            ValueView::Romaji { romaji: t, kana: None },
        ),
        t.len() == 1 && yab::special_of(t[0]) is None && t[0] != '無' ==> yab::value_of(t) == Some(
            ValueView::Romaji { romaji: t, kana: None },
        ),
        t.len() == 1 && yab::special_of(t[0]) is Some && t[0] != '無' ==> yab::value_of(t) == Some(
            ValueView::Special(yab::special_of(t[0])->0),
        ),
{
    assert(seq!['無'].len() == 1);
    if t.len() >= 1 {
        assert(t == seq!['無'] ==> t.len() == 1 && t[0] == '無');
    }
}

/// The value that entries give a position.
pub open spec fn value_at(entries: Seq<EntryView>, pos: PhysicalPos) -> Option<ValueView>
    decreases entries.len(),
{
    if entries.len() == 0 {
        None
    } else if entries[0].pos == pos {
        Some(entries[0].value)
    } else {
        value_at(entries.drop_first(), pos)
    }
}

proof fn lemma_value_at_push(entries: Seq<EntryView>, e: EntryView, pos: PhysicalPos)
    ensures
        value_at(entries.push(e), pos) == (match value_at(entries, pos) {
            Some(v) => Some(v),
            None => if e.pos == pos {
                Some(e.value)
            } else {
                None
            },
        }),
    decreases entries.len(),
{
    if entries.len() == 0 {
        assert(entries.push(e)[0] == e);
        assert(entries.push(e).drop_first() =~= Seq::empty());
        assert(value_at(Seq::empty(), pos) is None);
    } else {
        assert(entries.push(e)[0] == entries[0]);
        assert(entries.push(e).drop_first() =~= entries.drop_first().push(e));
        lemma_value_at_push(entries.drop_first(), e, pos);
    }
}

/// The keys of a row stand at the columns of the row in their order, each with what is written there.
pub proof fn law_keys_stand_at_their_columns(row: u8, cells: Seq<Seq<char>>, n: int, at: PhysicalPos)
    requires
        0 <= n <= cells.len(),
        n <= 255,
    ensures
        value_at(yab::row_entries(row as int, cells, n), at) == (if at.row == row && at.col < n {
            yab::value_of(text::trimmed(cells[at.col as int]))
        } else {
            None
        }),
    decreases n,
{
    if n > 0 {
        law_keys_stand_at_their_columns(row, cells, n - 1, at);
        let before = yab::row_entries(row as int, cells, n - 1);
        if let Some(value) = yab::value_of(text::trimmed(cells[n - 1])) {
            let e = EntryView { pos: PhysicalPos { row, col: (n - 1) as u8 }, value };
            lemma_value_at_push(before, e, at);
        }
    }
}

/// A keyboard with the JIS layout has a key more in the number row, the home row and the bottom row,
/// and one less in the row between.
pub proof fn law_keyboards_differ_by_one_key_a_row(row: int)
    requires
        0 <= row < 4,
    ensures
        yab::columns_of(KeyboardModel::Us, row) == (if row == 1 {
            yab::columns_of(KeyboardModel::Jis, row) + 1
        } else {
            yab::columns_of(KeyboardModel::Jis, row) - 1
        }),
        yab::ROWS == 4,
{
}

// ---- Lines ----

/// A line in brackets starts a section: that of the face it names, or one to be skipped.
pub proof fn law_brackets_start_a_section(
    state: ReadState,
    name: Seq<char>,
    model: KeyboardModel,
    number: int,
)
    ensures
        state.line(seq!['['] + name + seq![']'], model, number) == Ok::<ReadState, YabError>(
            ReadState { layout: state.layout, face: yab::face_named(name), row: 0 },
        ),
{
    let t = seq!['['] + name + seq![']'];
    assert(t[0] == '[');
    assert(t.last() == ']');
    assert(t.subrange(1, t.len() - 1) =~= name);
}

/// The names of the sections.
pub proof fn law_section_names()
    ensures
        yab::face_named("ローマ字シフト無し"@) == Some(Face::Normal),
        yab::face_named("ローマ字小指シフト"@) == Some(Face::Shift),
        yab::face_named("ローマ字左親指シフト"@) == Some(Face::LeftThumb),
        yab::face_named("ローマ字右親指シフト"@) == Some(Face::RightThumb),
        yab::face_named("ローマ字小指左親指シフト"@) == Some(Face::LeftThumbShift),
        yab::face_named("ローマ字小指右親指シフト"@) == Some(Face::RightThumbShift),
{
    reveal_strlit("ローマ字シフト無し");
    reveal_strlit("ローマ字小指シフト");
    reveal_strlit("ローマ字左親指シフト");
    reveal_strlit("ローマ字右親指シフト");
    reveal_strlit("ローマ字小指左親指シフト");
    reveal_strlit("ローマ字小指右親指シフト");
    assert("ローマ字シフト無し"@.len() == 9);
    assert("ローマ字小指シフト"@.len() == 9);
    assert("ローマ字左親指シフト"@.len() == 10);
    assert("ローマ字右親指シフト"@.len() == 10);
    assert("ローマ字小指左親指シフト"@.len() == 12);
    assert("ローマ字小指右親指シフト"@.len() == 12);
    assert("ローマ字シフト無し"@[4] != "ローマ字小指シフト"@[4]);
    assert("ローマ字左親指シフト"@[4] != "ローマ字右親指シフト"@[4]);
    assert("ローマ字小指左親指シフト"@[6] != "ローマ字小指右親指シフト"@[6]);
}

/// A line that is neither blank, a comment nor the start of a section is a row of the section's face,
/// where it is in one: the next row of the keyboard, of which it has no more keys.
pub proof fn law_other_lines_are_rows(
    state: ReadState,
    t: Seq<char>,
    model: KeyboardModel,
    number: usize,
)
    requires
        t.len() > 0,
        t[0] != ';',
        t[0] != '[',
    ensures
        ({
            let next = state.line(t, model, number as int);
            let cells = text::split_on(t, ',');
            match state.face {
                None => next == Ok::<ReadState, YabError>(state),
                Some(face) => if state.row >= 4 {
                    next == Err::<ReadState, YabError>(YabError::TooManyRows { line: number })
                } else if cells.len() > yab::columns_of(model, state.row) {
                    next == Err::<ReadState, YabError>(YabError::TooManyColumns { line: number })
                } else {
                    &&& next is Ok
                    &&& next->Ok_0.row == state.row + 1
                    &&& next->Ok_0.face == state.face
                    &&& next->Ok_0.layout == state.layout.with(
                        face,
                        yab::row_entries(state.row, cells, cells.len() as int),
                    )
                },
            }
        }),
{
}

/// The line is blank or a comment.
pub open spec fn is_remark(line: Seq<char>) -> bool {
    text::trimmed(line).len() == 0 || text::trimmed(line)[0] == ';'
}

proof fn lemma_prefix(a: Seq<Seq<char>>, b: Seq<Seq<char>>, model: KeyboardModel, n: int)
    requires
        n <= a.len(),
        n <= b.len(),
        forall|i: int| 0 <= i < n ==> a[i] == b[i],
    ensures
        yab::read_lines(a, model, n) == yab::read_lines(b, model, n),
    decreases n,
{
    if n > 0 {
        lemma_prefix(a, b, model, n - 1);
    }
}

proof fn lemma_error_remains(lines: Seq<Seq<char>>, model: KeyboardModel, n: int, m: int)
    requires
        n <= m,
        yab::read_lines(lines, model, n) is Err,
    ensures
        yab::read_lines(lines, model, m) == yab::read_lines(lines, model, n),
    decreases m - n,
{
    if n < m {
        lemma_error_remains(lines, model, n, m - 1);
    }
}

/// An error ends the reading: what follows the text does not matter.
pub proof fn law_first_error_counts(a: Seq<char>, b: Seq<char>, model: KeyboardModel)
    requires
        yab::layout_of(a, model) is Err,
    ensures
        yab::layout_of(a + seq!['\n'] + b, model) == yab::layout_of(a, model),
{
    text::law_split_is_of_the_two_sides(a, b, '\n');
    let first = text::split_on(a, '\n');
    let all = text::split_on(a + seq!['\n'] + b, '\n');
    lemma_prefix(all, first, model, first.len() as int);
    lemma_error_remains(all, model, first.len() as int, all.len() as int);
}

/// A blank line or a comment after a text adds nothing.
pub proof fn law_remarks_add_nothing(a: Seq<char>, remark: Seq<char>, model: KeyboardModel)
    requires
        is_remark(remark),
        !remark.contains('\n'),
    ensures
        yab::layout_of(a + seq!['\n'] + remark, model) == yab::layout_of(a, model),
{
    text::law_split_is_of_the_two_sides(a, remark, '\n');
    text::law_split_is_of_the_two_sides(remark, a, '\n');
    let first = text::split_on(a, '\n');
    let all = text::split_on(a + seq!['\n'] + remark, '\n');
    assert(all.len() == first.len() + 1);
    assert(all[first.len() as int] == remark);
    lemma_prefix(all, first, model, first.len() as int);
}

// ---- Kana ----

/// Romaji that spells a kana goes out as that kana once the kana have been looked up, and at the same
/// position; other romaji stays romaji.
pub proof fn law_romaji_goes_out_as_its_kana(
    entries: Seq<EntryView>,
    i: int,
    value: YabValue,
    romaji: Seq<char>,
    ch: char,
)
    requires
        0 <= i < entries.len(),
        entries[i].value matches ValueView::Romaji { romaji: r, .. } && r == romaji,
        value@ == yab::resolved_entries(entries)[i].value,
    ensures
        yab::resolved_entries(entries).len() == entries.len(),
        yab::resolved_entries(entries)[i].pos == entries[i].pos,
        kana_table::romaji_of(kana_table::kana_spellings(), ch) == Some(romaji)
            ==> value.action_spec() == KeyAction::Char(ch),
        (forall|c: char|
            #![trigger kana_table::romaji_of(kana_table::kana_spellings(), c)]
            kana_table::romaji_of(kana_table::kana_spellings(), c) != Some(romaji)) ==> (
        value.action_spec() matches KeyAction::Romaji(s) && s@ == romaji),
{
    kana_table::law_spellings_are_read_back(ch, romaji);
    if let Some(c) = kana_table::char_of(kana_table::kana_spellings(), romaji) {
        kana_table::law_spellings_are_read_back(c, romaji);
    }
}

/// Text that is sent as it is, and special keys, have no kana to look up.
pub proof fn law_other_values_have_no_kana(entries: Seq<EntryView>, i: int)
    requires
        0 <= i < entries.len(),
        !(entries[i].value is Romaji),
    ensures
        yab::resolved_entries(entries)[i] == entries[i],
{
}

/// The kana are looked up on every face, each for itself.
pub proof fn law_kana_are_looked_up_on_every_face(l: LayoutView)
    ensures
        l.resolved().normal == yab::resolved_entries(l.normal),
        l.resolved().shift == yab::resolved_entries(l.shift),
        l.resolved().left_thumb == yab::resolved_entries(l.left_thumb),
        l.resolved().right_thumb == yab::resolved_entries(l.right_thumb),
        l.resolved().left_thumb_shift == yab::resolved_entries(l.left_thumb_shift),
        l.resolved().right_thumb_shift == yab::resolved_entries(l.right_thumb_shift),
{
}

} // verus!
