//! How characters are spelled for an IME in romaji mode.

use vstd::prelude::*;

use crate::text;

verus! {

/// A character and how it is spelled.
#[derive(Debug)]
pub struct CharRomaji {
    pub ch: char,
    pub romaji: String,
}

/// The characters and their spellings, in order.
pub open spec fn spellings(table: Seq<CharRomaji>) -> Seq<(char, Seq<char>)> {
    table.map_values(|e: CharRomaji| (e.ch, e.romaji@))
}

/// Spelling of the first entry for `ch`.
pub open spec fn romaji_of(table: Seq<(char, Seq<char>)>, ch: char) -> Option<Seq<char>>
    decreases table.len(),
{
    if table.len() == 0 {
        None
    } else if table[0].0 == ch {
        Some(table[0].1)
    } else {
        romaji_of(table.drop_first(), ch)
    }
}

/// Character of the first entry that is spelled `s`.
pub open spec fn char_of(table: Seq<(char, Seq<char>)>, s: Seq<char>) -> Option<char>
    decreases table.len(),
{
    if table.len() == 0 {
        None
    } else if table[0].1 == s {
        Some(table[0].0)
    } else {
        char_of(table.drop_first(), s)
    }
}

/// Looks up how a character is spelled.
pub fn find_romaji(table: &Vec<CharRomaji>, ch: char) -> (r: Option<&str>)
    ensures
        match r {
            Some(s) => romaji_of(spellings(table@), ch) == Some(s@),
            None => romaji_of(spellings(table@), ch) is None,
        },
{
    let ghost all = spellings(table@);
    let mut i: usize = 0;
    assert(all.subrange(0, all.len() as int) =~= all);
    while i < table.len()
        invariant
            i <= table@.len(),
            all == spellings(table@),
            romaji_of(all, ch) == romaji_of(all.subrange(i as int, all.len() as int), ch),
        decreases table@.len() - i,
    {
        assert(all.subrange(i as int, all.len() as int).drop_first() =~= all.subrange(
            i + 1,
            all.len() as int,
        ));
        if table[i].ch == ch {
            return Some(table[i].romaji.as_str());
        }
        i += 1;
    }
    None
}

/// Looks up which character is spelled `s`.
pub fn find_char(table: &Vec<CharRomaji>, s: &str) -> (r: Option<char>)
    ensures
        r == char_of(spellings(table@), s@),
{
    let ghost all = spellings(table@);
    let mut i: usize = 0;
    assert(all.subrange(0, all.len() as int) =~= all);
    while i < table.len()
        invariant
            i <= table@.len(),
            all == spellings(table@),
            char_of(all, s@) == char_of(all.subrange(i as int, all.len() as int), s@),
        decreases table@.len() - i,
    {
        assert(all.subrange(i as int, all.len() as int).drop_first() =~= all.subrange(
            i + 1,
            all.len() as int,
        ));
        if text::same(table[i].romaji.as_str(), s) {
            return Some(table[i].ch);
        }
        i += 1;
    }
    None
}

/// The kana and how an IME in romaji mode spells them.
pub open spec fn kana_spellings() -> Seq<(char, Seq<char>)> {
    seq![
        ('あ', "a"@),
        ('い', "i"@),
        ('う', "u"@),
        ('え', "e"@),
        ('お', "o"@),
        ('か', "ka"@),
        ('き', "ki"@),
        ('く', "ku"@),
        ('け', "ke"@),
        ('こ', "ko"@),
        ('さ', "sa"@),
        ('し', "si"@),
        ('す', "su"@),
        ('せ', "se"@),
        ('そ', "so"@),
        ('た', "ta"@),
        ('ち', "ti"@),
        ('つ', "tu"@),
        ('て', "te"@),
        ('と', "to"@),
        ('な', "na"@),
        ('に', "ni"@),
        ('ぬ', "nu"@),
        ('ね', "ne"@),
        ('の', "no"@),
        ('は', "ha"@),
        ('ひ', "hi"@),
        ('ふ', "hu"@),
        ('へ', "he"@),
        ('ほ', "ho"@),
        ('ま', "ma"@),
        ('み', "mi"@),
        ('む', "mu"@),
        ('め', "me"@),
        ('も', "mo"@),
        ('や', "ya"@),
        ('ゆ', "yu"@),
        ('よ', "yo"@),
        ('ら', "ra"@),
        ('り', "ri"@),
        ('る', "ru"@),
        ('れ', "re"@),
        ('ろ', "ro"@),
        ('わ', "wa"@),
        ('を', "wo"@),
        ('ん', "nn"@),
        ('が', "ga"@),
        ('ぎ', "gi"@),
        ('ぐ', "gu"@),
        ('げ', "ge"@),
        ('ご', "go"@),
        ('ざ', "za"@),
        ('じ', "zi"@),
        ('ず', "zu"@),
        ('ぜ', "ze"@),
        ('ぞ', "zo"@),
        ('だ', "da"@),
        ('ぢ', "di"@),
        ('づ', "du"@),
        ('で', "de"@),
        ('ど', "do"@),
        ('ば', "ba"@),
        ('び', "bi"@),
        ('ぶ', "bu"@),
        ('べ', "be"@),
        ('ぼ', "bo"@),
        ('ぱ', "pa"@),
        ('ぴ', "pi"@),
        ('ぷ', "pu"@),
        ('ぺ', "pe"@),
        ('ぽ', "po"@),
        ('ゔ', "vu"@),
        ('ぁ', "xa"@),
        ('ぃ', "xi"@),
        ('ぅ', "xu"@),
        ('ぇ', "xe"@),
        ('ぉ', "xo"@),
        ('ゃ', "xya"@),
        ('ゅ', "xyu"@),
        ('ょ', "xyo"@),
        ('っ', "xtu"@),
        ('ゎ', "xwa"@),
    ]
}

fn entry(ch: char, romaji: &str) -> (r: CharRomaji)
    ensures
        r.ch == ch,
        r.romaji@ == romaji@,
{
    CharRomaji { ch, romaji: romaji.to_owned() }
}

/// The kana and their spellings, to be looked up both ways.
#[derive(Debug)]
pub struct KanaTable {
    entries: Vec<CharRomaji>,
}

impl View for KanaTable {
    type V = Seq<(char, Seq<char>)>;

    closed spec fn view(&self) -> Seq<(char, Seq<char>)> {
        spellings(self.entries@)
    }
}

impl KanaTable {
    #[must_use]
    pub fn build() -> (r: Self)
        ensures
            r@ == kana_spellings(),
    {
        let entries = vec![
            entry('あ', "a"),
            entry('い', "i"),
            entry('う', "u"),
            entry('え', "e"),
            entry('お', "o"),
            entry('か', "ka"),
            entry('き', "ki"),
            entry('く', "ku"),
            entry('け', "ke"),
            entry('こ', "ko"),
            entry('さ', "sa"),
            entry('し', "si"),
            entry('す', "su"),
            entry('せ', "se"),
            entry('そ', "so"),
            entry('た', "ta"),
            entry('ち', "ti"),
            entry('つ', "tu"),
            entry('て', "te"),
            entry('と', "to"),
            entry('な', "na"),
            entry('に', "ni"),
            entry('ぬ', "nu"),
            entry('ね', "ne"),
            entry('の', "no"),
            entry('は', "ha"),
            entry('ひ', "hi"),
            entry('ふ', "hu"),
            entry('へ', "he"),
            entry('ほ', "ho"),
            entry('ま', "ma"),
            entry('み', "mi"),
            entry('む', "mu"),
            entry('め', "me"),
            entry('も', "mo"),
            entry('や', "ya"),
            entry('ゆ', "yu"),
            entry('よ', "yo"),
            entry('ら', "ra"),
            entry('り', "ri"),
            entry('る', "ru"),
            entry('れ', "re"),
            entry('ろ', "ro"),
            entry('わ', "wa"),
            entry('を', "wo"),
            entry('ん', "nn"),
            entry('が', "ga"),
            entry('ぎ', "gi"),
            entry('ぐ', "gu"),
            entry('げ', "ge"),
            entry('ご', "go"),
            entry('ざ', "za"),
            entry('じ', "zi"),
            entry('ず', "zu"),
            entry('ぜ', "ze"),
            entry('ぞ', "zo"),
            entry('だ', "da"),
            entry('ぢ', "di"),
            entry('づ', "du"),
            entry('で', "de"),
            entry('ど', "do"),
            entry('ば', "ba"),
            entry('び', "bi"),
            entry('ぶ', "bu"),
            entry('べ', "be"),
            entry('ぼ', "bo"),
            entry('ぱ', "pa"),
            entry('ぴ', "pi"),
            entry('ぷ', "pu"),
            entry('ぺ', "pe"),
            entry('ぽ', "po"),
            entry('ゔ', "vu"),
            entry('ぁ', "xa"),
            entry('ぃ', "xi"),
            entry('ぅ', "xu"),
            entry('ぇ', "xe"),
            entry('ぉ', "xo"),
            entry('ゃ', "xya"),
            entry('ゅ', "xyu"),
            entry('ょ', "xyo"),
            entry('っ', "xtu"),
            entry('ゎ', "xwa"),
        ];
        assert(spellings(entries@) =~= kana_spellings());
        KanaTable { entries }
    }

    /// How a kana is spelled.
    #[must_use]
    pub fn romaji_for_kana(&self, ch: char) -> (r: Option<&str>)
        ensures
            match r {
                Some(s) => romaji_of(self@, ch) == Some(s@),
                None => romaji_of(self@, ch) is None,
            },
    {
        find_romaji(&self.entries, ch)
    }

    /// Which kana is spelled `s`.
    #[must_use]
    pub fn kana_for_romaji(&self, s: &str) -> (r: Option<char>)
        ensures
            r == char_of(self@, s@),
    {
        find_char(&self.entries, s)
    }
}

// ---- How the spellings are made ----

pub open spec fn vowels() -> Seq<char> {
    seq!['a', 'i', 'u', 'e', 'o']
}

/// The lines of the kana table; the last is that of the small vowels.
pub open spec fn lines() -> Seq<Seq<char>> {
    seq![
        seq!['あ', 'い', 'う', 'え', 'お'],
        seq!['か', 'き', 'く', 'け', 'こ'],
        seq!['さ', 'し', 'す', 'せ', 'そ'],
        seq!['た', 'ち', 'つ', 'て', 'と'],
        seq!['な', 'に', 'ぬ', 'ね', 'の'],
        seq!['は', 'ひ', 'ふ', 'へ', 'ほ'],
        seq!['ま', 'み', 'む', 'め', 'も'],
        seq!['ら', 'り', 'る', 'れ', 'ろ'],
        seq!['が', 'ぎ', 'ぐ', 'げ', 'ご'],
        seq!['ざ', 'じ', 'ず', 'ぜ', 'ぞ'],
        seq!['だ', 'ぢ', 'づ', 'で', 'ど'],
        seq!['ば', 'び', 'ぶ', 'べ', 'ぼ'],
        seq!['ぱ', 'ぴ', 'ぷ', 'ぺ', 'ぽ'],
        seq!['ぁ', 'ぃ', 'ぅ', 'ぇ', 'ぉ'],
    ]
}

/// The consonants of the lines. The first line has none.
pub open spec fn consonants() -> Seq<Seq<char>> {
    seq![
        Seq::empty(),
        seq!['k'],
        seq!['s'],
        seq!['t'],
        seq!['n'],
        seq!['h'],
        seq!['m'],
        seq!['r'],
        seq!['g'],
        seq!['z'],
        seq!['d'],
        seq!['b'],
        seq!['p'],
        seq!['x'],
    ]
}

/// Kana in two sizes, large and small.
pub open spec fn sizes() -> Seq<(char, char)> {
    seq![
        ('あ', 'ぁ'),
        ('い', 'ぃ'),
        ('う', 'ぅ'),
        ('え', 'ぇ'),
        ('お', 'ぉ'),
        ('や', 'ゃ'),
        ('ゆ', 'ゅ'),
        ('よ', 'ょ'),
        ('つ', 'っ'),
        ('わ', 'ゎ'),
    ]
}

/// Kana outside the full lines.
pub open spec fn single_kana() -> Seq<(char, Seq<char>)> {
    seq![
        ('や', seq!['y', 'a']),
        ('ゆ', seq!['y', 'u']),
        ('よ', seq!['y', 'o']),
        ('わ', seq!['w', 'a']),
        ('を', seq!['w', 'o']),
        ('ん', seq!['n', 'n']),
        ('ゔ', seq!['v', 'u']),
    ]
}

spec fn line_start(r: int) -> int {
    if r == 0 {
        0
    } else if r == 1 {
        5
    } else if r == 2 {
        10
    } else if r == 3 {
        15
    } else if r == 4 {
        20
    } else if r == 5 {
        25
    } else if r == 6 {
        30
    } else if r == 7 {
        38
    } else if r == 8 {
        46
    } else if r == 9 {
        51
    } else if r == 10 {
        56
    } else if r == 11 {
        61
    } else if r == 12 {
        66
    } else {
        72
    }
}

/// A spelling as a number.
spec fn number(s: Seq<char>) -> int {
    if s.len() == 1 {
        s[0] as int
    } else if s.len() == 2 {
        s[0] as int * 128 + s[1] as int
    } else {
        (s[0] as int * 128 + s[1] as int) * 128 + s[2] as int
    }
}

proof fn lemma_spelled()
    ensures
        kana_spellings().len() == 82,
        kana_spellings()[0] == ('あ', seq!['a']),
        kana_spellings()[1] == ('い', seq!['i']),
        kana_spellings()[2] == ('う', seq!['u']),
        kana_spellings()[3] == ('え', seq!['e']),
        kana_spellings()[4] == ('お', seq!['o']),
        kana_spellings()[5] == ('か', seq!['k', 'a']),
        kana_spellings()[6] == ('き', seq!['k', 'i']),
        kana_spellings()[7] == ('く', seq!['k', 'u']),
        kana_spellings()[8] == ('け', seq!['k', 'e']),
        kana_spellings()[9] == ('こ', seq!['k', 'o']),
        kana_spellings()[10] == ('さ', seq!['s', 'a']),
        kana_spellings()[11] == ('し', seq!['s', 'i']),
        kana_spellings()[12] == ('す', seq!['s', 'u']),
        kana_spellings()[13] == ('せ', seq!['s', 'e']),
        kana_spellings()[14] == ('そ', seq!['s', 'o']),
        kana_spellings()[15] == ('た', seq!['t', 'a']),
        kana_spellings()[16] == ('ち', seq!['t', 'i']),
        kana_spellings()[17] == ('つ', seq!['t', 'u']),
        kana_spellings()[18] == ('て', seq!['t', 'e']),
        kana_spellings()[19] == ('と', seq!['t', 'o']),
        kana_spellings()[20] == ('な', seq!['n', 'a']),
        kana_spellings()[21] == ('に', seq!['n', 'i']),
        kana_spellings()[22] == ('ぬ', seq!['n', 'u']),
        kana_spellings()[23] == ('ね', seq!['n', 'e']),
        kana_spellings()[24] == ('の', seq!['n', 'o']),
        kana_spellings()[25] == ('は', seq!['h', 'a']),
        kana_spellings()[26] == ('ひ', seq!['h', 'i']),
        kana_spellings()[27] == ('ふ', seq!['h', 'u']),
        kana_spellings()[28] == ('へ', seq!['h', 'e']),
        kana_spellings()[29] == ('ほ', seq!['h', 'o']),
        kana_spellings()[30] == ('ま', seq!['m', 'a']),
        kana_spellings()[31] == ('み', seq!['m', 'i']),
        kana_spellings()[32] == ('む', seq!['m', 'u']),
        kana_spellings()[33] == ('め', seq!['m', 'e']),
        kana_spellings()[34] == ('も', seq!['m', 'o']),
        kana_spellings()[35] == ('や', seq!['y', 'a']),
        kana_spellings()[36] == ('ゆ', seq!['y', 'u']),
        kana_spellings()[37] == ('よ', seq!['y', 'o']),
        kana_spellings()[38] == ('ら', seq!['r', 'a']),
        kana_spellings()[39] == ('り', seq!['r', 'i']),
        kana_spellings()[40] == ('る', seq!['r', 'u']),
        kana_spellings()[41] == ('れ', seq!['r', 'e']),
        kana_spellings()[42] == ('ろ', seq!['r', 'o']),
        kana_spellings()[43] == ('わ', seq!['w', 'a']),
        kana_spellings()[44] == ('を', seq!['w', 'o']),
        kana_spellings()[45] == ('ん', seq!['n', 'n']),
        kana_spellings()[46] == ('が', seq!['g', 'a']),
        kana_spellings()[47] == ('ぎ', seq!['g', 'i']),
        kana_spellings()[48] == ('ぐ', seq!['g', 'u']),
        kana_spellings()[49] == ('げ', seq!['g', 'e']),
        kana_spellings()[50] == ('ご', seq!['g', 'o']),
        kana_spellings()[51] == ('ざ', seq!['z', 'a']),
        kana_spellings()[52] == ('じ', seq!['z', 'i']),
        kana_spellings()[53] == ('ず', seq!['z', 'u']),
        kana_spellings()[54] == ('ぜ', seq!['z', 'e']),
        kana_spellings()[55] == ('ぞ', seq!['z', 'o']),
        kana_spellings()[56] == ('だ', seq!['d', 'a']),
        kana_spellings()[57] == ('ぢ', seq!['d', 'i']),
        kana_spellings()[58] == ('づ', seq!['d', 'u']),
        kana_spellings()[59] == ('で', seq!['d', 'e']),
        kana_spellings()[60] == ('ど', seq!['d', 'o']),
        kana_spellings()[61] == ('ば', seq!['b', 'a']),
        kana_spellings()[62] == ('び', seq!['b', 'i']),
        kana_spellings()[63] == ('ぶ', seq!['b', 'u']),
        kana_spellings()[64] == ('べ', seq!['b', 'e']),
        kana_spellings()[65] == ('ぼ', seq!['b', 'o']),
        kana_spellings()[66] == ('ぱ', seq!['p', 'a']),
        kana_spellings()[67] == ('ぴ', seq!['p', 'i']),
        kana_spellings()[68] == ('ぷ', seq!['p', 'u']),
        kana_spellings()[69] == ('ぺ', seq!['p', 'e']),
        kana_spellings()[70] == ('ぽ', seq!['p', 'o']),
        kana_spellings()[71] == ('ゔ', seq!['v', 'u']),
        kana_spellings()[72] == ('ぁ', seq!['x', 'a']),
        kana_spellings()[73] == ('ぃ', seq!['x', 'i']),
        kana_spellings()[74] == ('ぅ', seq!['x', 'u']),
        kana_spellings()[75] == ('ぇ', seq!['x', 'e']),
        kana_spellings()[76] == ('ぉ', seq!['x', 'o']),
        kana_spellings()[77] == ('ゃ', seq!['x', 'y', 'a']),
        kana_spellings()[78] == ('ゅ', seq!['x', 'y', 'u']),
        kana_spellings()[79] == ('ょ', seq!['x', 'y', 'o']),
        kana_spellings()[80] == ('っ', seq!['x', 't', 'u']),
        kana_spellings()[81] == ('ゎ', seq!['x', 'w', 'a']),
{
    reveal_strlit("a");
    assert("a"@ =~= seq!['a']);
    reveal_strlit("i");
    assert("i"@ =~= seq!['i']);
    reveal_strlit("u");
    assert("u"@ =~= seq!['u']);
    reveal_strlit("e");
    assert("e"@ =~= seq!['e']);
    reveal_strlit("o");
    assert("o"@ =~= seq!['o']);
    reveal_strlit("ka");
    assert("ka"@ =~= seq!['k', 'a']);
    reveal_strlit("ki");
    assert("ki"@ =~= seq!['k', 'i']);
    reveal_strlit("ku");
    assert("ku"@ =~= seq!['k', 'u']);
    reveal_strlit("ke");
    assert("ke"@ =~= seq!['k', 'e']);
    reveal_strlit("ko");
    assert("ko"@ =~= seq!['k', 'o']);
    reveal_strlit("sa");
    assert("sa"@ =~= seq!['s', 'a']);
    reveal_strlit("si");
    assert("si"@ =~= seq!['s', 'i']);
    reveal_strlit("su");
    assert("su"@ =~= seq!['s', 'u']);
    reveal_strlit("se");
    assert("se"@ =~= seq!['s', 'e']);
    reveal_strlit("so");
    assert("so"@ =~= seq!['s', 'o']);
    reveal_strlit("ta");
    assert("ta"@ =~= seq!['t', 'a']);
    reveal_strlit("ti");
    assert("ti"@ =~= seq!['t', 'i']);
    reveal_strlit("tu");
    assert("tu"@ =~= seq!['t', 'u']);
    reveal_strlit("te");
    assert("te"@ =~= seq!['t', 'e']);
    reveal_strlit("to");
    assert("to"@ =~= seq!['t', 'o']);
    reveal_strlit("na");
    assert("na"@ =~= seq!['n', 'a']);
    reveal_strlit("ni");
    assert("ni"@ =~= seq!['n', 'i']);
    reveal_strlit("nu");
    assert("nu"@ =~= seq!['n', 'u']);
    reveal_strlit("ne");
    assert("ne"@ =~= seq!['n', 'e']);
    reveal_strlit("no");
    assert("no"@ =~= seq!['n', 'o']);
    reveal_strlit("ha");
    assert("ha"@ =~= seq!['h', 'a']);
    reveal_strlit("hi");
    assert("hi"@ =~= seq!['h', 'i']);
    reveal_strlit("hu");
    assert("hu"@ =~= seq!['h', 'u']);
    reveal_strlit("he");
    assert("he"@ =~= seq!['h', 'e']);
    reveal_strlit("ho");
    assert("ho"@ =~= seq!['h', 'o']);
    reveal_strlit("ma");
    assert("ma"@ =~= seq!['m', 'a']);
    reveal_strlit("mi");
    assert("mi"@ =~= seq!['m', 'i']);
    reveal_strlit("mu");
    assert("mu"@ =~= seq!['m', 'u']);
    reveal_strlit("me");
    assert("me"@ =~= seq!['m', 'e']);
    reveal_strlit("mo");
    assert("mo"@ =~= seq!['m', 'o']);
    reveal_strlit("ya");
    assert("ya"@ =~= seq!['y', 'a']);
    reveal_strlit("yu");
    assert("yu"@ =~= seq!['y', 'u']);
    reveal_strlit("yo");
    assert("yo"@ =~= seq!['y', 'o']);
    reveal_strlit("ra");
    assert("ra"@ =~= seq!['r', 'a']);
    reveal_strlit("ri");
    assert("ri"@ =~= seq!['r', 'i']);
    reveal_strlit("ru");
    assert("ru"@ =~= seq!['r', 'u']);
    reveal_strlit("re");
    assert("re"@ =~= seq!['r', 'e']);
    reveal_strlit("ro");
    assert("ro"@ =~= seq!['r', 'o']);
    reveal_strlit("wa");
    assert("wa"@ =~= seq!['w', 'a']);
    reveal_strlit("wo");
    assert("wo"@ =~= seq!['w', 'o']);
    reveal_strlit("nn");
    assert("nn"@ =~= seq!['n', 'n']);
    reveal_strlit("ga");
    assert("ga"@ =~= seq!['g', 'a']);
    reveal_strlit("gi");
    assert("gi"@ =~= seq!['g', 'i']);
    reveal_strlit("gu");
    assert("gu"@ =~= seq!['g', 'u']);
    reveal_strlit("ge");
    assert("ge"@ =~= seq!['g', 'e']);
    reveal_strlit("go");
    assert("go"@ =~= seq!['g', 'o']);
    reveal_strlit("za");
    assert("za"@ =~= seq!['z', 'a']);
    reveal_strlit("zi");
    assert("zi"@ =~= seq!['z', 'i']);
    reveal_strlit("zu");
    assert("zu"@ =~= seq!['z', 'u']);
    reveal_strlit("ze");
    assert("ze"@ =~= seq!['z', 'e']);
    reveal_strlit("zo");
    assert("zo"@ =~= seq!['z', 'o']);
    reveal_strlit("da");
    assert("da"@ =~= seq!['d', 'a']);
    reveal_strlit("di");
    assert("di"@ =~= seq!['d', 'i']);
    reveal_strlit("du");
    assert("du"@ =~= seq!['d', 'u']);
    reveal_strlit("de");
    assert("de"@ =~= seq!['d', 'e']);
    reveal_strlit("do");
    assert("do"@ =~= seq!['d', 'o']);
    reveal_strlit("ba");
    assert("ba"@ =~= seq!['b', 'a']);
    reveal_strlit("bi");
    assert("bi"@ =~= seq!['b', 'i']);
    reveal_strlit("bu");
    assert("bu"@ =~= seq!['b', 'u']);
    reveal_strlit("be");
    assert("be"@ =~= seq!['b', 'e']);
    reveal_strlit("bo");
    assert("bo"@ =~= seq!['b', 'o']);
    reveal_strlit("pa");
    assert("pa"@ =~= seq!['p', 'a']);
    reveal_strlit("pi");
    assert("pi"@ =~= seq!['p', 'i']);
    reveal_strlit("pu");
    assert("pu"@ =~= seq!['p', 'u']);
    reveal_strlit("pe");
    assert("pe"@ =~= seq!['p', 'e']);
    reveal_strlit("po");
    assert("po"@ =~= seq!['p', 'o']);
    reveal_strlit("vu");
    assert("vu"@ =~= seq!['v', 'u']);
    reveal_strlit("xa");
    assert("xa"@ =~= seq!['x', 'a']);
    reveal_strlit("xi");
    assert("xi"@ =~= seq!['x', 'i']);
    reveal_strlit("xu");
    assert("xu"@ =~= seq!['x', 'u']);
    reveal_strlit("xe");
    assert("xe"@ =~= seq!['x', 'e']);
    reveal_strlit("xo");
    assert("xo"@ =~= seq!['x', 'o']);
    reveal_strlit("xya");
    assert("xya"@ =~= seq!['x', 'y', 'a']);
    reveal_strlit("xyu");
    assert("xyu"@ =~= seq!['x', 'y', 'u']);
    reveal_strlit("xyo");
    assert("xyo"@ =~= seq!['x', 'y', 'o']);
    reveal_strlit("xtu");
    assert("xtu"@ =~= seq!['x', 't', 'u']);
    reveal_strlit("xwa");
    assert("xwa"@ =~= seq!['x', 'w', 'a']);
}

/// The kana are distinct, and so are their spellings.
proof fn lemma_distinct(i: int, j: int)
    requires
        0 <= i < j < kana_spellings().len(),
    ensures
        kana_spellings()[i].0 != kana_spellings()[j].0,
        kana_spellings()[i].1 != kana_spellings()[j].1,
{
    lemma_spelled();
    assert(number(kana_spellings()[i].1) != number(kana_spellings()[j].1));
}

proof fn lemma_found(table: Seq<(char, Seq<char>)>, i: int)
    requires
        0 <= i < table.len(),
        forall|j: int|
            0 <= j < i ==> (#[trigger] table[j]).0 != table[i].0 && table[j].1 != table[i].1,
    ensures
        romaji_of(table, table[i].0) == Some(table[i].1),
        char_of(table, table[i].1) == Some(table[i].0),
    decreases i,
{
    if i > 0 {
        let rest = table.drop_first();
        assert(table[0].0 != table[i].0);
        assert(rest[i - 1] == table[i]);
        assert forall|j: int| 0 <= j < i - 1 implies (#[trigger] rest[j]).0 != rest[i - 1].0
            && rest[j].1 != rest[i - 1].1 by {
            assert(rest[j] == table[j + 1]);
        }
        lemma_found(rest, i - 1);
    }
}

proof fn lemma_only_found(table: Seq<(char, Seq<char>)>, ch: char, s: Seq<char>)
    ensures
        romaji_of(table, ch) is Some ==> exists|i: int|
            0 <= i < table.len() && #[trigger] table[i] == (ch, romaji_of(table, ch)->0),
        char_of(table, s) is Some ==> exists|i: int|
            0 <= i < table.len() && #[trigger] table[i] == (char_of(table, s)->0, s),
    decreases table.len(),
{
    if table.len() > 0 {
        let rest = table.drop_first();
        lemma_only_found(rest, ch, s);
        if romaji_of(table, ch) is Some {
            if table[0].0 == ch {
                assert(table[0] == (ch, romaji_of(table, ch)->0));
            } else {
                let i = choose|i: int|
                    0 <= i < rest.len() && #[trigger] rest[i] == (ch, romaji_of(rest, ch)->0);
                assert(table[i + 1] == rest[i]);
            }
        }
        if char_of(table, s) is Some {
            if table[0].1 == s {
                assert(table[0] == (char_of(table, s)->0, s));
            } else {
                let i = choose|i: int|
                    0 <= i < rest.len() && #[trigger] rest[i] == (char_of(rest, s)->0, s);
                assert(table[i + 1] == rest[i]);
            }
        }
    }
}

proof fn lemma_kana_found(i: int)
    requires
        0 <= i < kana_spellings().len(),
    ensures
        romaji_of(kana_spellings(), kana_spellings()[i].0) == Some(kana_spellings()[i].1),
        char_of(kana_spellings(), kana_spellings()[i].1) == Some(kana_spellings()[i].0),
{
    let table = kana_spellings();
    assert forall|j: int| 0 <= j < i implies (#[trigger] table[j]).0 != table[i].0 && table[j].1
        != table[i].1 by {
        lemma_distinct(j, i);
    }
    lemma_found(table, i);
}

/// A spelling belongs to one kana and a kana has one spelling: what is spelled is read back.
pub proof fn law_spellings_are_read_back(ch: char, s: Seq<char>)
    ensures
        romaji_of(kana_spellings(), ch) == Some(s) <==> char_of(kana_spellings(), s) == Some(ch),
{
    let table = kana_spellings();
    lemma_only_found(table, ch, s);
    if romaji_of(table, ch) == Some(s) {
        let i = choose|i: int| 0 <= i < table.len() && #[trigger] table[i] == (ch, s);
        lemma_kana_found(i);
    }
    if char_of(table, s) == Some(ch) {
        let i = choose|i: int| 0 <= i < table.len() && #[trigger] table[i] == (ch, s);
        lemma_kana_found(i);
    }
}

/// A kana of a full line is spelled with the consonant of the line and its vowel.
pub proof fn law_kana_are_spelled_by_consonant_and_vowel(r: int, v: int)
    requires
        0 <= r < lines().len(),
        0 <= v < vowels().len(),
    ensures
        romaji_of(kana_spellings(), lines()[r][v]) == Some(consonants()[r].push(vowels()[v])),
        char_of(kana_spellings(), consonants()[r].push(vowels()[v])) == Some(lines()[r][v]),
{
    lemma_spelled();
    let i = line_start(r) + v;
    lemma_kana_found(i);
    assert(kana_spellings()[i].0 == lines()[r][v]);
    assert(kana_spellings()[i].1 =~= consonants()[r].push(vowels()[v]));
}

/// The kana outside the full lines.
pub proof fn law_single_kana(i: int)
    requires
        0 <= i < single_kana().len(),
    ensures
        romaji_of(kana_spellings(), single_kana()[i].0) == Some(single_kana()[i].1),
{
    lemma_spelled();
    let k: int = if i < 3 {
        35 + i
    } else if i < 6 {
        40 + i
    } else {
        71
    };
    lemma_kana_found(k);
    assert(kana_spellings()[k].0 == single_kana()[i].0);
    assert(kana_spellings()[k].1 =~= single_kana()[i].1);
}

/// A small kana is spelled as the large one, with an `x` before it.
pub proof fn law_small_kana_take_an_x(i: int)
    requires
        0 <= i < sizes().len(),
    ensures
        romaji_of(kana_spellings(), sizes()[i].0) is Some,
        romaji_of(kana_spellings(), sizes()[i].1) == Some(
            seq!['x'] + romaji_of(kana_spellings(), sizes()[i].0)->0,
        ),
{
    lemma_spelled();
    let large: int = if i < 5 {
        i
    } else if i < 8 {
        30 + i
    } else if i == 8 {
        17
    } else {
        43
    };
    let small: int = 72 + i;
    lemma_kana_found(large);
    lemma_kana_found(small);
    assert(kana_spellings()[large].0 == sizes()[i].0);
    assert(kana_spellings()[small].0 == sizes()[i].1);
    assert(kana_spellings()[small].1 =~= seq!['x'] + kana_spellings()[large].1);
}

/// Of any two entries for a character the first counts, and where there is none nothing is found.
pub proof fn law_first_entry_counts(
    first: Seq<(char, Seq<char>)>,
    second: Seq<(char, Seq<char>)>,
    ch: char,
)
    ensures
        romaji_of(first + second, ch) == (if romaji_of(first, ch) is Some {
            romaji_of(first, ch)
        } else {
            romaji_of(second, ch)
        }),
        romaji_of(Seq::empty(), ch) is None,
    decreases first.len(),
{
    if first.len() == 0 {
        assert(first + second =~= second);
    } else {
        assert((first + second).drop_first() =~= first.drop_first() + second);
        law_first_entry_counts(first.drop_first(), second, ch);
    }
}

} // verus!
