//! Layouts: which action each physical position has on each face.
//!
//! A layout is written as text. A line that starts with `;` is a comment. A line in square
//! brackets starts the section of a face; each further line is a row of keys, from the number row
//! down, with commas between the keys. A key in single quotes is text to send as it is, a few
//! single characters stand for special keys, `無` is a key without a value, and anything else is
//! romaji. Sections of other names are skipped.

use vstd::prelude::*;
use vstd::string::*;

use crate::engine::fsm_types::Face;
use crate::kana_table;
use crate::kana_table::KanaTable;
use crate::scanmap::{KeyboardModel, PhysicalPos};
use crate::text;
use crate::types::{KeyAction, SpecialKey};

verus! {

/// What a key of a layout stands for.
#[derive(Debug)]
pub enum YabValue {
    /// Romaji for the IME to convert, and the kana that it spells, once that is known.
    Romaji { romaji: String, kana: Option<char> },
    /// Text to send as it is.
    Literal(String),
    Special(SpecialKey),
}

impl YabValue {
    pub open spec fn action_spec(self) -> KeyAction {
        match self {
            YabValue::Romaji { romaji, kana } => match kana {
                Some(c) => KeyAction::Char(c),
                None => KeyAction::Romaji(romaji),
            },
            YabValue::Literal(s) => if s@.len() == 1 {
                KeyAction::Char(s@[0])
            } else {
                KeyAction::KeySequence(s)
            },
            YabValue::Special(k) => KeyAction::SpecialKey(k),
        }
    }

    /// The action that sends the value: romaji goes out as its kana where that is known, a
    /// literal of one character as that character, a longer one as a sequence.
    #[must_use]
    pub fn action(&self) -> (a: KeyAction)
        ensures
            a == self.action_spec(),
    {
        match self {
            YabValue::Romaji { romaji, kana } => match kana {
                Some(c) => KeyAction::Char(*c),
                None => KeyAction::Romaji(romaji.clone()),
            },
            YabValue::Literal(s) => {
                let chars = text::chars_of(s.as_str());
                if chars.len() == 1 {
                    KeyAction::Char(chars[0])
                } else {
                    KeyAction::KeySequence(s.clone())
                }
            },
            YabValue::Special(k) => KeyAction::SpecialKey(*k),
        }
    }
}

/// One key of a face.
#[derive(Debug)]
pub struct YabEntry {
    pub pos: PhysicalPos,
    pub value: YabValue,
}

/// The keys of one face. Where a position is listed twice the first entry counts.
#[derive(Debug)]
pub struct YabFace {
    pub entries: Vec<YabEntry>,
}

/// Value of the first entry for `pos`.
pub open spec fn find_entry(entries: Seq<YabEntry>, pos: PhysicalPos) -> Option<YabValue>
    decreases entries.len(),
{
    if entries.len() == 0 {
        None
    } else if entries[0].pos == pos {
        Some(entries[0].value)
    } else {
        find_entry(entries.drop_first(), pos)
    }
}

impl YabFace {
    /// A face without keys.
    #[must_use]
    pub fn empty() -> (f: Self)
        ensures
            f.entries@.len() == 0,
    {
        YabFace { entries: Vec::new() }
    }

    pub open spec fn action_at(self, pos: PhysicalPos) -> Option<KeyAction> {
        match find_entry(self.entries@, pos) {
            Some(v) => Some(v.action_spec()),
            None => None,
        }
    }

    /// The action at `pos`, if the face has one.
    #[must_use]
    pub fn get(&self, pos: PhysicalPos) -> (r: Option<KeyAction>)
        ensures
            r == self.action_at(pos),
    {
        let mut i: usize = 0;
        assert(self.entries@.subrange(0, self.entries@.len() as int) =~= self.entries@);
        while i < self.entries.len()
            invariant
                i <= self.entries@.len(),
                find_entry(self.entries@, pos) == find_entry(
                    self.entries@.subrange(i as int, self.entries@.len() as int),
                    pos,
                ),
            decreases self.entries@.len() - i,
        {
            let ghost rest = self.entries@.subrange(i as int, self.entries@.len() as int);
            assert(rest[0] == self.entries@[i as int]);
            assert(rest.drop_first() =~= self.entries@.subrange(
                i + 1,
                self.entries@.len() as int,
            ));
            if self.entries[i].pos == pos {
                return Some(self.entries[i].value.action());
            }
            i += 1;
        }
        None
    }
}

/// A layout with its six faces.
#[derive(Debug)]
pub struct YabLayout {
    pub normal: YabFace,
    pub left_thumb: YabFace,
    pub right_thumb: YabFace,
    pub shift: YabFace,
    pub left_thumb_shift: YabFace,
    pub right_thumb_shift: YabFace,
}

impl YabLayout {
    /// A layout without keys.
    #[must_use]
    pub fn empty() -> (l: Self)
        ensures
            forall|face: Face, pos: PhysicalPos| l.action_at(face, pos) is None,
            l@ == LayoutView::empty(),
    {
        YabLayout {
            normal: YabFace::empty(),
            left_thumb: YabFace::empty(),
            right_thumb: YabFace::empty(),
            shift: YabFace::empty(),
            left_thumb_shift: YabFace::empty(),
            right_thumb_shift: YabFace::empty(),
        }
    }

    pub open spec fn action_at(self, face: Face, pos: PhysicalPos) -> Option<KeyAction> {
        match face {
            Face::Normal => self.normal.action_at(pos),
            Face::LeftThumb => self.left_thumb.action_at(pos),
            Face::RightThumb => self.right_thumb.action_at(pos),
            Face::Shift => self.shift.action_at(pos),
            Face::LeftThumbShift => self.left_thumb_shift.action_at(pos),
            Face::RightThumbShift => self.right_thumb_shift.action_at(pos),
        }
    }

    /// The action at `pos` on `face`, if there is one.
    #[must_use]
    pub fn get(&self, face: Face, pos: PhysicalPos) -> (r: Option<KeyAction>)
        ensures
            r == self.action_at(face, pos),
    {
        match face {
            Face::Normal => self.normal.get(pos),
            Face::LeftThumb => self.left_thumb.get(pos),
            Face::RightThumb => self.right_thumb.get(pos),
            Face::Shift => self.shift.get(pos),
            Face::LeftThumbShift => self.left_thumb_shift.get(pos),
            Face::RightThumbShift => self.right_thumb_shift.get(pos),
        }
    }
}

// ---- The text of a layout ----

/// Most rows of a section.
pub const ROWS: usize = 4;

/// The keys of a row of the keyboard.
pub open spec fn columns_of(model: KeyboardModel, row: int) -> int {
    match model {
        KeyboardModel::Jis => if row == 0 {
            13
        } else if row <= 2 {
            12
        } else {
            11
        },
        KeyboardModel::Us => if row == 0 {
            12
        } else if row == 1 {
            13
        } else if row == 2 {
            11
        } else {
            10
        },
    }
}

/// The keyboard has a key at the position.
pub open spec fn on_keyboard(pos: PhysicalPos, model: KeyboardModel) -> bool {
    pos.row < ROWS && pos.col < columns_of(model, pos.row as int)
}

fn columns(model: KeyboardModel, row: usize) -> (r: usize)
    ensures
        r == columns_of(model, row as int),
        r <= 13,
{
    match model {
        KeyboardModel::Jis => {
            if row == 0 {
                13
            } else if row <= 2 {
                12
            } else {
                11
            }
        },
        KeyboardModel::Us => {
            if row == 0 {
                12
            } else if row == 1 {
                13
            } else if row == 2 {
                11
            } else {
                10
            }
        },
    }
}

pub ghost enum ValueView {
    Romaji { romaji: Seq<char>, kana: Option<char> },
    Literal(Seq<char>),
    Special(SpecialKey),
}

impl View for YabValue {
    type V = ValueView;

    open spec fn view(&self) -> ValueView {
        match *self {
            YabValue::Romaji { romaji, kana } => ValueView::Romaji { romaji: romaji@, kana },
            YabValue::Literal(s) => ValueView::Literal(s@),
            YabValue::Special(k) => ValueView::Special(k),
        }
    }
}

pub ghost struct EntryView {
    pub pos: PhysicalPos,
    pub value: ValueView,
}

pub open spec fn entry_views(entries: Seq<YabEntry>) -> Seq<EntryView> {
    entries.map_values(|e: YabEntry| EntryView { pos: e.pos, value: e.value@ })
}

/// The special key that a character stands for.
pub open spec fn special_of(c: char) -> Option<SpecialKey> {
    if c == '後' {
        Some(SpecialKey::Backspace)
    } else if c == '逃' {
        Some(SpecialKey::Escape)
    } else if c == '入' {
        Some(SpecialKey::Enter)
    } else if c == '空' {
        Some(SpecialKey::Space)
    } else if c == '消' {
        Some(SpecialKey::Delete)
    } else if c == '挿' {
        Some(SpecialKey::Insert)
    } else if c == '上' {
        Some(SpecialKey::Up)
    } else if c == '下' {
        Some(SpecialKey::Down)
    } else if c == '左' {
        Some(SpecialKey::Left)
    } else if c == '右' {
        Some(SpecialKey::Right)
    } else if c == '家' {
        Some(SpecialKey::Home)
    } else if c == '終' {
        Some(SpecialKey::End)
    } else if c == '前' {
        Some(SpecialKey::PageUp)
    } else if c == '次' {
        Some(SpecialKey::PageDown)
    } else {
        None
    }
}

fn special_key(c: char) -> (r: Option<SpecialKey>)
    ensures
        r == special_of(c),
{
    match c {
        '後' => Some(SpecialKey::Backspace),
        '逃' => Some(SpecialKey::Escape),
        '入' => Some(SpecialKey::Enter),
        '空' => Some(SpecialKey::Space),
        '消' => Some(SpecialKey::Delete),
        '挿' => Some(SpecialKey::Insert),
        '上' => Some(SpecialKey::Up),
        '下' => Some(SpecialKey::Down),
        '左' => Some(SpecialKey::Left),
        '右' => Some(SpecialKey::Right),
        '家' => Some(SpecialKey::Home),
        '終' => Some(SpecialKey::End),
        '前' => Some(SpecialKey::PageUp),
        '次' => Some(SpecialKey::PageDown),
        _ => None,
    }
}

/// The value of a key as it is written, without the blanks around it.
pub open spec fn value_of(t: Seq<char>) -> Option<ValueView> {
    if t.len() == 0 || t == seq!['無'] {
        None
    } else if t.len() >= 2 && t[0] == '\'' && t.last() == '\'' {
        Some(ValueView::Literal(t.subrange(1, t.len() - 1)))
    } else if t.len() == 1 && special_of(t[0]) is Some {
        Some(ValueView::Special(special_of(t[0])->0))
    } else {
        Some(ValueView::Romaji { romaji: t, kana: None })
    }
}

fn parse_value(cell: &str) -> (r: Option<YabValue>)
    ensures
        match r {
            Some(v) => value_of(text::trimmed(cell@)) == Some(v@),
            None => value_of(text::trimmed(cell@)) is None,
        },
{
    let t = text::trim(cell);
    let chars = text::chars_of(t);
    let n = chars.len();
    if n == 0 {
        return None;
    }
    if n == 1 && chars[0] == '無' {
        assert(t@ =~= seq!['無']);
        return None;
    }
    if n >= 2 && chars[0] == '\'' && chars[n - 1] == '\'' {
        return Some(YabValue::Literal(t.substring_char(1, n - 1).to_owned()));
    }
    if n == 1 {
        if let Some(k) = special_key(chars[0]) {
            return Some(YabValue::Special(k));
        }
    }
    Some(YabValue::Romaji { romaji: t.to_owned(), kana: None })
}

/// The entries of the first `n` keys of a row; a key without a value has none.
pub open spec fn row_entries(row: int, cells: Seq<Seq<char>>, n: int) -> Seq<EntryView>
    decreases n,
{
    if n <= 0 {
        Seq::empty()
    } else {
        let before = row_entries(row, cells, n - 1);
        match value_of(text::trimmed(cells[n - 1])) {
            Some(value) => before.push(
                EntryView { pos: PhysicalPos { row: row as u8, col: (n - 1) as u8 }, value },
            ),
            None => before,
        }
    }
}

fn parse_row(row: usize, cells: &Vec<String>) -> (r: Vec<YabEntry>)
    requires
        row < ROWS,
        cells@.len() <= 13,
    ensures
        entry_views(r@) == row_entries(
            row as int,
            cells@.map_values(|c: String| c@),
            cells@.len() as int,
        ),
{
    let mut entries: Vec<YabEntry> = Vec::new();
    let ghost views = cells@.map_values(|c: String| c@);
    let mut i: usize = 0;
    assert(entry_views(entries@) =~= row_entries(row as int, views, 0));
    while i < cells.len()
        invariant
            row < ROWS,
            i <= cells@.len() <= 13,
            views == cells@.map_values(|c: String| c@),
            entry_views(entries@) == row_entries(row as int, views, i as int),
        decreases cells@.len() - i,
    {
        assert(views[i as int] == cells@[i as int]@);
        let ghost before = entries@;
        if let Some(value) = parse_value(cells[i].as_str()) {
            let entry = YabEntry { pos: PhysicalPos::new(row as u8, i as u8), value };
            let ghost added = entry;
            entries.push(entry);
            assert(entry_views(entries@) =~= entry_views(before).push(
                EntryView { pos: added.pos, value: added.value@ },
            ));
        }
        i += 1;
    }
    entries
}

/// A layout with its entries as sequences.
#[verifier::ext_equal]
pub ghost struct LayoutView {
    pub normal: Seq<EntryView>,
    pub left_thumb: Seq<EntryView>,
    pub right_thumb: Seq<EntryView>,
    pub shift: Seq<EntryView>,
    pub left_thumb_shift: Seq<EntryView>,
    pub right_thumb_shift: Seq<EntryView>,
}

impl LayoutView {
    pub open spec fn empty() -> LayoutView {
        LayoutView {
            normal: Seq::empty(),
            left_thumb: Seq::empty(),
            right_thumb: Seq::empty(),
            shift: Seq::empty(),
            left_thumb_shift: Seq::empty(),
            right_thumb_shift: Seq::empty(),
        }
    }

    pub open spec fn face(self, face: Face) -> Seq<EntryView> {
        match face {
            Face::Normal => self.normal,
            Face::LeftThumb => self.left_thumb,
            Face::RightThumb => self.right_thumb,
            Face::Shift => self.shift,
            Face::LeftThumbShift => self.left_thumb_shift,
            Face::RightThumbShift => self.right_thumb_shift,
        }
    }

    /// Every key is one of the keyboard.
    pub open spec fn fits(self, model: KeyboardModel) -> bool {
        forall|face: Face, i: int|
            0 <= i < self.face(face).len() ==> on_keyboard(
                (#[trigger] self.face(face)[i]).pos,
                model,
            )
    }

    pub open spec fn with(self, face: Face, more: Seq<EntryView>) -> LayoutView {
        match face {
            Face::Normal => LayoutView { normal: self.normal + more, ..self },
            Face::LeftThumb => LayoutView { left_thumb: self.left_thumb + more, ..self },
            Face::RightThumb => LayoutView { right_thumb: self.right_thumb + more, ..self },
            Face::Shift => LayoutView { shift: self.shift + more, ..self },
            Face::LeftThumbShift => LayoutView {
                left_thumb_shift: self.left_thumb_shift + more,
                ..self
            },
            Face::RightThumbShift => LayoutView {
                right_thumb_shift: self.right_thumb_shift + more,
                ..self
            },
        }
    }
}

impl View for YabLayout {
    type V = LayoutView;

    open spec fn view(&self) -> LayoutView {
        LayoutView {
            normal: entry_views(self.normal.entries@),
            left_thumb: entry_views(self.left_thumb.entries@),
            right_thumb: entry_views(self.right_thumb.entries@),
            shift: entry_views(self.shift.entries@),
            left_thumb_shift: entry_views(self.left_thumb_shift.entries@),
            right_thumb_shift: entry_views(self.right_thumb_shift.entries@),
        }
    }
}

/// The face of a section.
pub open spec fn face_named(name: Seq<char>) -> Option<Face> {
    if name == "ローマ字シフト無し"@ {
        Some(Face::Normal)
    } else if name == "ローマ字左親指シフト"@ {
        Some(Face::LeftThumb)
    } else if name == "ローマ字右親指シフト"@ {
        Some(Face::RightThumb)
    } else if name == "ローマ字小指シフト"@ {
        Some(Face::Shift)
    } else if name == "ローマ字小指左親指シフト"@ {
        Some(Face::LeftThumbShift)
    } else if name == "ローマ字小指右親指シフト"@ {
        Some(Face::RightThumbShift)
    } else {
        None
    }
}

fn section_face(name: &str) -> (r: Option<Face>)
    ensures
        r == face_named(name@),
{
    if text::same(name, "ローマ字シフト無し") {
        Some(Face::Normal)
    } else if text::same(name, "ローマ字左親指シフト") {
        Some(Face::LeftThumb)
    } else if text::same(name, "ローマ字右親指シフト") {
        Some(Face::RightThumb)
    } else if text::same(name, "ローマ字小指シフト") {
        Some(Face::Shift)
    } else if text::same(name, "ローマ字小指左親指シフト") {
        Some(Face::LeftThumbShift)
    } else if text::same(name, "ローマ字小指右親指シフト") {
        Some(Face::RightThumbShift)
    } else {
        None
    }
}

/// Why a text is no layout. The lines count from one.
#[derive(Debug, Clone, Copy, PartialEq, Eq, Structural)]
pub enum YabError {
    /// A section has more rows than the keyboard.
    TooManyRows { line: usize },
    /// A row has more keys than that of the keyboard.
    TooManyColumns { line: usize },
}

/// A text that is read up to some line.
#[verifier::ext_equal]
pub ghost struct ReadState {
    pub layout: LayoutView,
    /// The face whose section it is in.
    pub face: Option<Face>,
    /// Rows of the section so far.
    pub row: int,
}

impl ReadState {
    pub open spec fn start() -> ReadState {
        ReadState { layout: LayoutView::empty(), face: None, row: 0 }
    }

    /// One more line, without the blanks around it.
    pub open spec fn line(self, t: Seq<char>, model: KeyboardModel, number: int) -> Result<
        ReadState,
        YabError,
    > {
        let cells = text::split_on(t, ',');
        if t.len() == 0 || t[0] == ';' {
            Ok(self)
        } else if t.len() >= 2 && t[0] == '[' && t.last() == ']' {
            Ok(ReadState { face: face_named(t.subrange(1, t.len() - 1)), row: 0, ..self })
        } else if self.face is None {
            Ok(self)
        } else if self.row >= ROWS {
            Err(YabError::TooManyRows { line: number as usize })
        } else if cells.len() > columns_of(model, self.row) {
            Err(YabError::TooManyColumns { line: number as usize })
        } else {
            Ok(
                ReadState {
                    layout: self.layout.with(
                        self.face->0,
                        row_entries(self.row, cells, cells.len() as int),
                    ),
                    row: self.row + 1,
                    ..self
                },
            )
        }
    }
}

/// The first `n` lines one after the other; the first error ends the reading.
pub open spec fn read_lines(lines: Seq<Seq<char>>, model: KeyboardModel, n: int) -> Result<
    ReadState,
    YabError,
>
    decreases n,
{
    if n <= 0 {
        Ok(ReadState::start())
    } else {
        match read_lines(lines, model, n - 1) {
            Ok(state) => state.line(text::trimmed(lines[n - 1]), model, n),
            Err(e) => Err(e),
        }
    }
}

/// The layout that a text describes.
pub open spec fn layout_of(content: Seq<char>, model: KeyboardModel) -> Result<
    LayoutView,
    YabError,
> {
    let lines = text::split_on(content, '\n');
    match read_lines(lines, model, lines.len() as int) {
        Ok(state) => Ok(state.layout),
        Err(e) => Err(e),
    }
}

proof fn lemma_entry_views_append(a: Seq<YabEntry>, b: Seq<YabEntry>)
    ensures
        entry_views(a + b) == entry_views(a) + entry_views(b),
{
    assert(entry_views(a + b) =~= entry_views(a) + entry_views(b));
}

proof fn lemma_error_stays(lines: Seq<Seq<char>>, model: KeyboardModel, n: int, m: int)
    requires
        n <= m,
        read_lines(lines, model, n) is Err,
    ensures
        read_lines(lines, model, m) == read_lines(lines, model, n),
    decreases m - n,
{
    if n < m {
        lemma_error_stays(lines, model, n, m - 1);
    }
}

fn append_entries(entries: &mut Vec<YabEntry>, more: Vec<YabEntry>)
    ensures
        entry_views(final(entries)@) == entry_views(old(entries)@) + entry_views(more@),
{
    let ghost before = entries@;
    let ghost tail = more@;
    let mut more = more;
    entries.append(&mut more);
    proof {
        assert(entries@ =~= before + tail);
        lemma_entry_views_append(before, tail);
    }
}

/// The name in the brackets of a section's first line.
fn section_name(t: &str, chars: &Vec<char>) -> (r: Option<String>)
    requires
        chars@ == t@,
    ensures
        match r {
            Some(name) => t@.len() >= 2 && t@[0] == '[' && t@.last() == ']' && name@
                == t@.subrange(1, t@.len() - 1),
            None => !(t@.len() >= 2 && t@[0] == '[' && t@.last() == ']'),
        },
{
    let n = chars.len();
    if n >= 2 && chars[0] == '[' && chars[n - 1] == ']' {
        Some(t.substring_char(1, n - 1).to_owned())
    } else {
        None
    }
}

impl YabLayout {
    fn add_row(&mut self, face: Face, more: Vec<YabEntry>)
        ensures
            final(self)@ == old(self)@.with(face, entry_views(more@)),
    {
        match face {
            Face::Normal => append_entries(&mut self.normal.entries, more),
            Face::LeftThumb => append_entries(&mut self.left_thumb.entries, more),
            Face::RightThumb => append_entries(&mut self.right_thumb.entries, more),
            Face::Shift => append_entries(&mut self.shift.entries, more),
            Face::LeftThumbShift => append_entries(&mut self.left_thumb_shift.entries, more),
            Face::RightThumbShift => append_entries(&mut self.right_thumb_shift.entries, more),
        }
    }

    /// Reads a layout.
    pub fn parse(content: &str, model: KeyboardModel) -> (r: Result<YabLayout, YabError>)
        ensures
            match r {
                Ok(layout) => layout_of(content@, model) == Ok::<LayoutView, YabError>(layout@),
                Err(e) => layout_of(content@, model) == Err::<LayoutView, YabError>(e),
            },
    {
        let lines = text::split(content, '\n');
        let ghost views = text::split_on(content@, '\n');
        let mut layout = YabLayout::empty();
        let mut face: Option<Face> = None;
        let mut row: usize = 0;
        let mut i: usize = 0;
        assert(layout@ =~= LayoutView::empty());
        while i < lines.len()
            invariant
                i <= lines@.len(),
                views == lines@.map_values(|l: String| l@),
                views == text::split_on(content@, '\n'),
                row <= ROWS,
                read_lines(views, model, i as int) == Ok::<ReadState, YabError>(
                    ReadState { layout: layout@, face, row: row as int },
                ),
            decreases lines@.len() - i,
        {
            let ghost state = ReadState { layout: layout@, face, row: row as int };
            assert(views[i as int] == lines@[i as int]@);
            let t = text::trim(lines[i].as_str());
            i += 1;
            assert(read_lines(views, model, i as int) == state.line(t@, model, i as int));
            let chars = text::chars_of(t);
            if chars.len() > 0 && chars[0] != ';' {
                if let Some(name) = section_name(t, &chars) {
                    face = section_face(name.as_str());
                    row = 0;
                } else if let Some(f) = face {
                    let cells = text::split(t, ',');
                    if row >= ROWS {
                        proof {
                            lemma_error_stays(views, model, i as int, views.len() as int);
                        }
                        return Err(YabError::TooManyRows { line: i });
                    }
                    if cells.len() > columns(model, row) {
                        proof {
                            lemma_error_stays(views, model, i as int, views.len() as int);
                        }
                        return Err(YabError::TooManyColumns { line: i });
                    }
                    let more = parse_row(row, &cells);
                    layout.add_row(f, more);
                    row += 1;
                }
            }
        }
        Ok(layout)
    }
}

// ---- Kana ----

impl ValueView {
    /// Romaji with the kana that it spells, if any does.
    pub open spec fn resolved(self) -> ValueView {
        match self {
            ValueView::Romaji { romaji, kana: _ } => ValueView::Romaji {
                romaji,
                kana: kana_table::char_of(kana_table::kana_spellings(), romaji),
            },
            _ => self,
        }
    }
}

pub open spec fn resolved_entries(entries: Seq<EntryView>) -> Seq<EntryView> {
    entries.map_values(|e: EntryView| EntryView { pos: e.pos, value: e.value.resolved() })
}

impl LayoutView {
    /// The layout with the kana of its romaji.
    pub open spec fn resolved(self) -> LayoutView {
        LayoutView {
            normal: resolved_entries(self.normal),
            left_thumb: resolved_entries(self.left_thumb),
            right_thumb: resolved_entries(self.right_thumb),
            shift: resolved_entries(self.shift),
            left_thumb_shift: resolved_entries(self.left_thumb_shift),
            right_thumb_shift: resolved_entries(self.right_thumb_shift),
        }
    }
}

impl YabFace {
    fn resolve_kana(&self, table: &KanaTable) -> (r: YabFace)
        requires
            table@ == kana_table::kana_spellings(),
        ensures
            entry_views(r.entries@) == resolved_entries(entry_views(self.entries@)),
    {
        let mut entries: Vec<YabEntry> = Vec::new();
        let mut i: usize = 0;
        while i < self.entries.len()
            invariant
                i <= self.entries@.len(),
                entries@.len() == i,
                table@ == kana_table::kana_spellings(),
                forall|j: int|
                    0 <= j < i ==> (#[trigger] entries@[j]).pos == self.entries@[j].pos
                        && entries@[j].value@ == self.entries@[j].value@.resolved(),
            decreases self.entries@.len() - i,
        {
            let value = match &self.entries[i].value {
                YabValue::Romaji { romaji, kana: _ } => YabValue::Romaji {
                    romaji: romaji.clone(),
                    kana: table.kana_for_romaji(romaji.as_str()),
                },
                YabValue::Literal(s) => YabValue::Literal(s.clone()),
                YabValue::Special(k) => YabValue::Special(*k),
            };
            entries.push(YabEntry { pos: self.entries[i].pos, value });
            i += 1;
        }
        assert(entry_views(entries@) =~= resolved_entries(entry_views(self.entries@)));
        YabFace { entries }
    }
}

impl YabLayout {
    /// Looks up the kana that the romaji of the layout spells.
    #[must_use]
    pub fn resolve_kana(self) -> (r: YabLayout)
        ensures
            r@ == self@.resolved(),
    {
        let table = KanaTable::build();
        YabLayout {
            normal: self.normal.resolve_kana(&table),
            left_thumb: self.left_thumb.resolve_kana(&table),
            right_thumb: self.right_thumb.resolve_kana(&table),
            shift: self.shift.resolve_kana(&table),
            left_thumb_shift: self.left_thumb_shift.resolve_kana(&table),
            right_thumb_shift: self.right_thumb_shift.resolve_kana(&table),
        }
    }
}

proof fn lemma_entries_resolve_once(entries: Seq<EntryView>)
    ensures
        resolved_entries(resolved_entries(entries)) == resolved_entries(entries),
{
    assert(resolved_entries(resolved_entries(entries)) =~= resolved_entries(entries));
}

/// Looking the kana up a second time changes nothing.
pub proof fn law_kana_are_resolved_once(layout: LayoutView)
    ensures
        layout.resolved().resolved() == layout.resolved(),
{
    lemma_entries_resolve_once(layout.normal);
    lemma_entries_resolve_once(layout.left_thumb);
    lemma_entries_resolve_once(layout.right_thumb);
    lemma_entries_resolve_once(layout.shift);
    lemma_entries_resolve_once(layout.left_thumb_shift);
    lemma_entries_resolve_once(layout.right_thumb_shift);
}

proof fn lemma_row_positions(row: int, cells: Seq<Seq<char>>, n: int, i: int)
    requires
        0 <= row < ROWS,
        0 <= n <= 13,
        0 <= i < row_entries(row, cells, n).len(),
    ensures
        row_entries(row, cells, n)[i].pos.row == row,
        row_entries(row, cells, n)[i].pos.col < n,
    decreases n,
{
    if n > 0 && i < row_entries(row, cells, n - 1).len() {
        lemma_row_positions(row, cells, n - 1, i);
    }
}

proof fn lemma_read_layout_fits(lines: Seq<Seq<char>>, model: KeyboardModel, n: int)
    ensures
        read_lines(lines, model, n) matches Ok(state) ==> state.layout.fits(model) && 0 <= state.row
            <= ROWS,
    decreases n,
{
    if n > 0 {
        lemma_read_layout_fits(lines, model, n - 1);
        if let Ok(state) = read_lines(lines, model, n - 1) {
            let t = text::trimmed(lines[n - 1]);
            let cells = text::split_on(t, ',');
            if let Ok(next) = state.line(t, model, n) {
                assert forall|face: Face, i: int|
                    0 <= i < next.layout.face(face).len() implies on_keyboard(
                    (#[trigger] next.layout.face(face)[i]).pos,
                    model,
                ) by {
                    let old_len = state.layout.face(face).len();
                    if i < old_len {
                        assert(next.layout.face(face)[i] == state.layout.face(face)[i]);
                    } else {
                        let more = row_entries(state.row, cells, cells.len() as int);
                        assert(next.layout.face(face)[i] == more[i - old_len]);
                        lemma_row_positions(
                            state.row,
                            cells,
                            cells.len() as int,
                            i - old_len,
                        );
                    }
                }
            }
        }
    }
}

/// A layout that is read has values at positions of the keyboard only.
pub proof fn law_layout_fits_the_keyboard(content: Seq<char>, model: KeyboardModel)
    requires
        layout_of(content, model) is Ok,
    ensures
        layout_of(content, model)->Ok_0.fits(model),
{
    let lines = text::split_on(content, '\n');
    lemma_read_layout_fits(lines, model, lines.len() as int);
}

} // verus!
