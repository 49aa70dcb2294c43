//! String helpers with exact contracts over character sequences.

use vstd::prelude::*;
use vstd::string::*;

verus! {

/// The character has the Unicode `White_Space` property.
pub open spec fn whitespace(c: char) -> bool {
    let code = c as u32;
    ||| 0x09 <= code <= 0x0D
    ||| code == 0x20
    ||| code == 0x85
    ||| code == 0xA0
    ||| code == 0x1680
    ||| 0x2000 <= code <= 0x200A
    ||| code == 0x2028
    ||| code == 0x2029
    ||| code == 0x202F
    ||| code == 0x205F
    ||| code == 0x3000
}

/// The standard library's `Debug` rendering of a string: quoted, with the escapes that
/// `str::escape_debug` documents.
pub uninterp spec fn debug_quoted(s: Seq<char>) -> Seq<char>;

/// Calls `char::is_whitespace`; claims that it holds of the characters with the Unicode
/// `White_Space` property and of no others.
#[verifier::external_body]
fn is_whitespace(c: char) -> (r: bool)
    ensures
        r == whitespace(c),
{
    c.is_whitespace()
}

/// Formats with `{:?}`; claims that the text depends on the string's characters alone.
#[verifier::external_body]
pub(crate) fn debug_string(s: &str) -> (r: String)
    ensures
        r@ == debug_quoted(s@),
{
    format!("{s:?}")
}

/// `String::push` appends one character to the end.
pub assume_specification[ String::push ](s: &mut String, c: char)
    ensures
        final(s)@ == old(s)@.push(c),
;

/// The ASCII upper-case letters map to lower case; every other character stays.
pub open spec fn ascii_lower(c: char) -> char {
    if 'A' <= c && c <= 'Z' {
        ((c as u8) + 32) as char
    } else {
        c
    }
}

pub open spec fn ascii_lower_seq(s: Seq<char>) -> Seq<char> {
    s.map_values(|c: char| ascii_lower(c))
}

/// Equal up to the case of ASCII letters.
pub open spec fn same_ignoring_ascii_case(a: Seq<char>, b: Seq<char>) -> bool {
    ascii_lower_seq(a) == ascii_lower_seq(b)
}

pub open spec fn has_prefix(s: Seq<char>, p: Seq<char>) -> bool {
    p.len() <= s.len() && s.subrange(0, p.len() as int) == p
}

pub open spec fn has_suffix(s: Seq<char>, p: Seq<char>) -> bool {
    p.len() <= s.len() && s.subrange(s.len() - p.len(), s.len() as int) == p
}

pub open spec fn occurs_at(s: Seq<char>, p: Seq<char>, i: int) -> bool {
    0 <= i <= s.len() - p.len() && s.subrange(i, i + p.len()) == p
}

/// `p` occurs in `s` as a contiguous run.
pub open spec fn contains_seq(s: Seq<char>, p: Seq<char>) -> bool {
    exists|i: int| occurs_at(s, p, i)
}

pub open spec fn trim_start(s: Seq<char>) -> Seq<char>
    decreases s.len(),
{
    if s.len() > 0 && whitespace(s[0]) {
        trim_start(s.drop_first())
    } else {
        s
    }
}

pub open spec fn trim_end(s: Seq<char>) -> Seq<char>
    decreases s.len(),
{
    if s.len() > 0 && whitespace(s.last()) {
        trim_end(s.drop_last())
    } else {
        s
    }
}

/// `s` without the whitespace at its two ends.
pub open spec fn trimmed(s: Seq<char>) -> Seq<char> {
    trim_end(trim_start(s))
}

/// `s` without any repetition of the non-empty `suffix` at its end.
pub open spec fn strip_suffixes(s: Seq<char>, suffix: Seq<char>) -> Seq<char>
    decreases s.len(),
{
    if suffix.len() > 0 && has_suffix(s, suffix) {
        strip_suffixes(s.subrange(0, s.len() - suffix.len()), suffix)
    } else {
        s
    }
}

/// The parts of `s` between the occurrences of `sep`; one part where there is none.
pub open spec fn split_on(s: Seq<char>, sep: char) -> Seq<Seq<char>>
    decreases s.len(),
{
    if s.len() == 0 {
        seq![s]
    } else {
        let rest = split_on(s.drop_last(), sep);
        if s.last() == sep {
            rest.push(Seq::empty())
        } else {
            rest.update(rest.len() - 1, rest.last().push(s.last()))
        }
    }
}

/// The parts with `sep` between neighbours.
pub open spec fn joined(parts: Seq<Seq<char>>, sep: Seq<char>) -> Seq<char>
    decreases parts.len(),
{
    if parts.len() == 0 {
        Seq::empty()
    } else if parts.len() == 1 {
        parts[0]
    } else {
        joined(parts.drop_last(), sep) + sep + parts.last()
    }
}

/// Upper-case digit of value `d` in base sixteen.
pub open spec fn digit_char(d: int) -> char {
    if 0 <= d < 10 {
        ((d + '0' as int) as u8) as char
    } else {
        ((d - 10 + 'A' as int) as u8) as char
    }
}

/// Positional notation of `n`, without leading zeros.
pub open spec fn numeral(n: nat, base: nat) -> Seq<char>
    decreases n,
{
    if n < base || base < 2 {
        seq![digit_char(n as int)]
    } else {
        proof {
            assert(n / base < n) by (nonlinear_arith)
                requires
                    n >= base,
                    base >= 2,
            ;
        }
        numeral(n / base, base).push(digit_char((n % base) as int))
    }
}

pub open spec fn decimal(n: nat) -> Seq<char> {
    numeral(n, 10)
}

pub open spec fn is_digit(c: char) -> bool {
    '0' <= c && c <= '9'
}

/// The number that decimal digits spell.
pub open spec fn digits_value(s: Seq<char>) -> nat
    decreases s.len(),
{
    if s.len() == 0 {
        0
    } else {
        (digits_value(s.drop_last()) * 10 + (s.last() as int - '0' as int)) as nat
    }
}

/// The number that a text of digits spells, if it is one and the number fits.
pub open spec fn digits_number(digits: Seq<char>) -> Option<u64> {
    if digits.len() > 0 && (forall|i: int| 0 <= i < digits.len() ==> is_digit(#[trigger] digits[i]))
        && digits_value(digits) <= u64::MAX {
        Some(digits_value(digits) as u64)
    } else {
        None
    }
}

/// The number that a text spells: an optional plus sign and decimal digits, nothing else, and no
/// more than fits.
pub open spec fn unsigned_number(s: Seq<char>) -> Option<u64> {
    digits_number(
        if s.len() > 0 && s[0] == '+' {
            s.drop_first()
        } else {
            s
        },
    )
}

/// `0x` and upper-case hexadecimal digits, at least two of them.
pub open spec fn hex_code(n: nat) -> Seq<char> {
    if n < 16 {
        seq!['0', 'x', '0', digit_char(n as int)]
    } else {
        seq!['0', 'x'] + numeral(n, 16)
    }
}

pub open spec fn bool_text(b: bool) -> Seq<char> {
    if b {
        "true"@
    } else {
        "false"@
    }
}

/// `Debug` rendering of an optional number.
pub open spec fn optional_decimal(n: Option<u64>) -> Seq<char> {
    match n {
        Some(v) => "Some("@ + decimal(v as nat) + ")"@,
        None => "None"@,
    }
}

/// The characters of `s`.
pub fn chars_of(s: &str) -> (v: Vec<char>)
    ensures
        v@ == s@,
{
    let n = s.unicode_len();
    let mut v: Vec<char> = Vec::new();
    let mut it = s.chars();
    let mut i: usize = 0;
    while i < n
        invariant
            n == s@.len(),
            i <= n,
            v@ == s@.subrange(0, i as int),
            vstd::std_specs::iter::IteratorSpec::remaining(&it) == s@.subrange(i as int, n as int),
        decreases n - i,
    {
        match it.next() {
            Some(c) => {
                v.push(c);
                assert(v@ =~= s@.subrange(0, i + 1));
            },
            None => {
                return v;
            },
        }
        i += 1;
    }
    assert(s@.subrange(0, n as int) =~= s@);
    v
}

/// The two strings hold the same characters.
#[must_use]
pub fn same(a: &str, b: &str) -> (r: bool)
    ensures
        r == (a@ == b@),
{
    let x = chars_of(a);
    let y = chars_of(b);
    same_chars(&x, &y)
}

fn same_chars(x: &Vec<char>, y: &Vec<char>) -> (r: bool)
    ensures
        r == (x@ == y@),
{
    if x.len() != y.len() {
        return false;
    }
    let mut i: usize = 0;
    while i < x.len()
        invariant
            x@.len() == y@.len(),
            i <= x@.len(),
            forall|j: int| 0 <= j < i ==> x@[j] == y@[j],
        decreases x@.len() - i,
    {
        if x[i] != y[i] {
            return false;
        }
        i += 1;
    }
    assert(x@ =~= y@);
    true
}

/// `p` occurs in `s` at index `at`.
fn occurs(s: &Vec<char>, p: &Vec<char>, at: usize) -> (r: bool)
    requires
        at + p@.len() <= s@.len(),
    ensures
        r == occurs_at(s@, p@, at as int),
{
    let n = s.len();
    let mut i: usize = 0;
    while i < p.len()
        invariant
            n == s@.len(),
            at + p@.len() <= n,
            i <= p@.len(),
            forall|j: int| 0 <= j < i ==> s@[at + j] == p@[j],
        decreases p@.len() - i,
    {
        if s[at + i] != p[i] {
            assert(s@.subrange(at as int, at + p@.len())[i as int] != p@[i as int]);
            return false;
        }
        i += 1;
    }
    assert(s@.subrange(at as int, at + p@.len()) =~= p@);
    true
}

#[must_use]
pub fn contains(s: &str, p: &str) -> (r: bool)
    ensures
        r == contains_seq(s@, p@),
{
    let x = chars_of(s);
    let y = chars_of(p);
    if y.len() > x.len() {
        return false;
    }
    let last = x.len() - y.len();
    let mut i: usize = 0;
    while !occurs(&x, &y, i)
        invariant
            x@ == s@,
            y@ == p@,
            i <= last == x@.len() - y@.len(),
            forall|j: int| 0 <= j < i ==> !occurs_at(x@, y@, j),
        decreases last - i,
    {
        if i == last {
            return false;
        }
        i += 1;
    }
    true
}

#[must_use]
pub fn starts_with(s: &str, p: &str) -> (r: bool)
    ensures
        r == has_prefix(s@, p@),
{
    let x = chars_of(s);
    let y = chars_of(p);
    y.len() <= x.len() && occurs(&x, &y, 0)
}

#[must_use]
pub fn ends_with(s: &str, p: &str) -> (r: bool)
    ensures
        r == has_suffix(s@, p@),
{
    let x = chars_of(s);
    let y = chars_of(p);
    y.len() <= x.len() && occurs(&x, &y, x.len() - y.len())
}

fn lower(c: char) -> (r: char)
    ensures
        r == ascii_lower(c),
{
    if 'A' <= c && c <= 'Z' {
        ((c as u8) + 32) as char
    } else {
        c
    }
}

#[must_use]
pub fn eq_ignore_ascii_case(a: &str, b: &str) -> (r: bool)
    ensures
        r == same_ignoring_ascii_case(a@, b@),
{
    let x = lower_chars(a);
    let y = lower_chars(b);
    same_chars(&x, &y)
}

fn lower_chars(s: &str) -> (v: Vec<char>)
    ensures
        v@ == ascii_lower_seq(s@),
{
    let x = chars_of(s);
    let mut v: Vec<char> = Vec::new();
    let mut i: usize = 0;
    while i < x.len()
        invariant
            i <= x@.len(),
            v@.len() == i,
            forall|j: int| 0 <= j < i ==> v@[j] == ascii_lower(x@[j]),
        decreases x@.len() - i,
    {
        v.push(lower(x[i]));
        i += 1;
    }
    assert(v@ =~= ascii_lower_seq(s@));
    v
}

/// `s` in lower case ends with `p`.
#[must_use]
pub fn lower_ends_with(s: &str, p: &str) -> (r: bool)
    ensures
        r == has_suffix(ascii_lower_seq(s@), p@),
{
    let x = lower_chars(s);
    let y = chars_of(p);
    y.len() <= x.len() && occurs(&x, &y, x.len() - y.len())
}

proof fn lemma_trim_start(s: Seq<char>, i: int)
    requires
        0 <= i <= s.len(),
        forall|j: int| 0 <= j < i ==> whitespace(#[trigger] s[j]),
        i == s.len() || !whitespace(s[i]),
    ensures
        trim_start(s) == s.subrange(i, s.len() as int),
    decreases i,
{
    if i > 0 {
        lemma_trim_start(s.drop_first(), i - 1);
        assert(s.drop_first().subrange(i - 1, s.len() - 1) =~= s.subrange(i, s.len() as int));
    } else {
        assert(s.subrange(0, s.len() as int) =~= s);
    }
}

proof fn lemma_trim_end(s: Seq<char>, n: int)
    requires
        0 <= n <= s.len(),
        forall|j: int| n <= j < s.len() ==> whitespace(#[trigger] s[j]),
        n == 0 || !whitespace(s[n - 1]),
    ensures
        trim_end(s) == s.subrange(0, n),
    decreases s.len() - n,
{
    if n < s.len() {
        lemma_trim_end(s.drop_last(), n);
        assert(s.drop_last().subrange(0, n) =~= s.subrange(0, n));
    } else {
        assert(s.subrange(0, n) =~= s);
    }
}

/// The slice of `s` between the whitespace at its two ends.
#[must_use]
pub fn trim(s: &str) -> (r: &str)
    ensures
        r@ == trimmed(s@),
{
    let x = chars_of(s);
    let mut from: usize = 0;
    while from < x.len() && is_whitespace(x[from])
        invariant
            from <= x@.len(),
            forall|j: int| 0 <= j < from ==> whitespace(#[trigger] x@[j]),
        ensures
            from <= x@.len(),
            forall|j: int| 0 <= j < from ==> whitespace(#[trigger] x@[j]),
            from == x@.len() || !whitespace(x@[from as int]),
        decreases x@.len() - from,
    {
        from += 1;
    }
    let mut to: usize = x.len();
    while to > from && is_whitespace(x[to - 1])
        invariant
            from <= to <= x@.len(),
            forall|j: int| to <= j < x@.len() ==> whitespace(#[trigger] x@[j]),
        ensures
            from <= to <= x@.len(),
            forall|j: int| to <= j < x@.len() ==> whitespace(#[trigger] x@[j]),
            to == from || !whitespace(x@[to - 1]),
        decreases to,
    {
        to -= 1;
    }
    proof {
        lemma_trim_start(s@, from as int);
        let t = trim_start(s@);
        assert forall|j: int| to - from <= j < t.len() implies whitespace(#[trigger] t[j]) by {
            assert(t[j] == s@[from + j]);
        }
        lemma_trim_end(t, to - from);
        assert(t.subrange(0, to - from) =~= s@.subrange(from as int, to as int));
    }
    s.substring_char(from, to)
}

/// The slice of `s` before the repetitions of `suffix` at its end.
#[must_use]
pub fn trim_end_matches<'a>(s: &'a str, suffix: &str) -> (r: &'a str)
    requires
        suffix@.len() > 0,
    ensures
        r@ == strip_suffixes(s@, suffix@),
{
    let x = chars_of(s);
    let y = chars_of(suffix);
    let mut cur: &'a str = s;
    assert(s@.subrange(0, s@.len() as int) =~= s@);
    let mut n: usize = x.len();
    while ends_with(cur, suffix)
        invariant
            x@ == s@,
            y@ == suffix@,
            suffix@.len() > 0,
            n == cur@.len(),
            n <= x@.len(),
            strip_suffixes(s@, suffix@) == strip_suffixes(cur@, suffix@),
        decreases cur@.len(),
    {
        n = n - y.len();
        cur = cur.substring_char(0, n);
    }
    cur
}

fn digit(d: u64) -> (c: char)
    requires
        d < 16,
    ensures
        c == digit_char(d as int),
{
    if d < 10 {
        ((d as u8) + ('0' as u8)) as char
    } else {
        ((d as u8) - 10 + ('A' as u8)) as char
    }
}

/// Appends the positional notation of `n`.
pub fn push_numeral(out: &mut String, n: u64, base: u64)
    requires
        2 <= base <= 16,
    ensures
        final(out)@ == old(out)@ + numeral(n as nat, base as nat),
    decreases n,
{
    if n < base {
        out.push(digit(n));
        assert(out@ =~= old(out)@ + numeral(n as nat, base as nat));
    } else {
        assert(n / base < n) by (nonlinear_arith)
            requires
                n >= base,
                base >= 2,
        ;
        push_numeral(out, n / base, base);
        assert(n % base < base) by (nonlinear_arith)
            requires
                base >= 2,
        ;
        out.push(digit(n % base));
        assert(out@ =~= old(out)@ + numeral(n as nat, base as nat));
    }
}

pub fn push_decimal(out: &mut String, n: u64)
    ensures
        final(out)@ == old(out)@ + decimal(n as nat),
{
    push_numeral(out, n, 10);
}

/// Appends `0x` and at least two hexadecimal digits.
pub fn push_hex_code(out: &mut String, n: u16)
    ensures
        final(out)@ == old(out)@ + hex_code(n as nat),
{
    out.push('0');
    out.push('x');
    if n < 16 {
        out.push('0');
        out.push(digit(n as u64));
        assert(out@ =~= old(out)@ + hex_code(n as nat));
    } else {
        push_numeral(out, n as u64, 16);
        assert(out@ =~= old(out)@ + hex_code(n as nat));
    }
}

pub fn push_bool(out: &mut String, b: bool)
    ensures
        final(out)@ == old(out)@ + bool_text(b),
{
    if b {
        out.append("true");
    } else {
        out.append("false");
    }
}

/// Appends the `Debug` rendering of an optional number.
pub fn push_optional_decimal(out: &mut String, n: Option<u64>)
    ensures
        final(out)@ == old(out)@ + optional_decimal(n),
{
    match n {
        Some(v) => {
            out.append("Some(");
            push_decimal(out, v);
            out.append(")");
            assert(out@ =~= old(out)@ + optional_decimal(n));
        },
        None => {
            out.append("None");
        },
    }
}

/// The parts of `s` between the occurrences of `sep`.
#[must_use]
pub fn split(s: &str, sep: char) -> (parts: Vec<String>)
    ensures
        parts@.map_values(|p: String| p@) == split_on(s@, sep),
        parts@.len() > 0,
{
    let x = chars_of(s);
    let mut done: Vec<String> = Vec::new();
    let mut cur = String::new();
    let mut i: usize = 0;
    assert(x@.subrange(0, 0) =~= Seq::<char>::empty());
    assert(done@.map_values(|p: String| p@).push(cur@) =~= split_on(Seq::<char>::empty(), sep));
    while i < x.len()
        invariant
            i <= x@.len(),
            done@.map_values(|p: String| p@).push(cur@) == split_on(
                x@.subrange(0, i as int),
                sep,
            ),
        decreases x@.len() - i,
    {
        let ghost so_far = split_on(x@.subrange(0, i as int), sep);
        let ghost next = x@.subrange(0, i + 1);
        let ghost before = done@.map_values(|p: String| p@);
        let ghost last = cur@;
        let c = x[i];
        assert(next.drop_last() =~= x@.subrange(0, i as int));
        assert(next.last() == c);
        if c == sep {
            done.push(cur);
            cur = String::new();
            assert(done@.map_values(|p: String| p@) =~= before.push(last));
            assert(done@.map_values(|p: String| p@).push(cur@) =~= so_far.push(Seq::empty()));
        } else {
            cur.push(c);
            assert(so_far.last() == last);
            assert(done@.map_values(|p: String| p@).push(cur@) =~= so_far.update(
                so_far.len() - 1,
                so_far.last().push(c),
            ));
        }
        i += 1;
    }
    assert(x@.subrange(0, i as int) =~= s@);
    let ghost before = done@.map_values(|p: String| p@);
    let ghost last = cur@;
    done.push(cur);
    assert(done@.map_values(|p: String| p@) =~= before.push(last));
    done
}

proof fn lemma_value_grows(s: Seq<char>, n: int)
    requires
        0 <= n <= s.len(),
        forall|i: int| 0 <= i < s.len() ==> is_digit(#[trigger] s[i]),
    ensures
        digits_value(s.subrange(0, n)) <= digits_value(s),
    decreases s.len() - n,
{
    if n < s.len() {
        lemma_value_grows(s, n + 1);
        assert(s.subrange(0, n + 1).drop_last() =~= s.subrange(0, n));
        assert(s.subrange(0, n + 1).last() == s[n]);
    } else {
        assert(s.subrange(0, n) =~= s);
    }
}

/// Reads a number.
#[must_use]
pub fn parse_unsigned(s: &str) -> (r: Option<u64>)
    ensures
        r == unsigned_number(s@),
{
    let x = chars_of(s);
    let from: usize = if x.len() > 0 && x[0] == '+' {
        1
    } else {
        0
    };
    let ghost digits = x@.skip(from as int);
    proof {
        if from == 1 {
            assert(digits =~= s@.drop_first());
        } else {
            assert(digits =~= s@);
        }
    }
    if from == x.len() {
        return None;
    }
    let mut value: u64 = 0;
    let mut i: usize = from;
    assert(digits.subrange(0, 0) =~= Seq::<char>::empty());
    while i < x.len()
        invariant
            from <= i <= x@.len(),
            from <= 1,
            digits == x@.skip(from as int),
            digits.len() > 0,
            unsigned_number(s@) == digits_number(digits),
            forall|j: int| 0 <= j < i - from ==> is_digit(#[trigger] digits[j]),
            value == digits_value(digits.subrange(0, i - from)),
        decreases x@.len() - i,
    {
        let c = x[i];
        let ghost k = i - from;
        assert(digits[k] == c);
        if !('0' <= c && c <= '9') {
            assert(!is_digit(digits[k]));
            return None;
        }
        let d: u64 = (c as u32 - '0' as u32) as u64;
        let ghost next = digits.subrange(0, k + 1);
        assert(next.drop_last() =~= digits.subrange(0, k));
        assert(digits_value(next) == value * 10 + d);
        if value > (u64::MAX - d) / 10 {
            proof {
                assert(digits_value(next) > u64::MAX);
                if forall|j: int| 0 <= j < digits.len() ==> is_digit(#[trigger] digits[j]) {
                    lemma_value_grows(digits, k + 1);
                }
            }
            return None;
        }
        value = value * 10 + d;
        i += 1;
    }
    assert(digits.subrange(0, digits.len() as int) =~= digits);
    Some(value)
}

/// A number that is written is read back.
pub proof fn law_numbers_are_read_back(n: u64)
    ensures
        unsigned_number(decimal(n as nat)) == Some(n),
{
    lemma_decimal_value(n as nat);
}

proof fn lemma_decimal_value(n: nat)
    ensures
        decimal(n).len() > 0,
        forall|i: int| 0 <= i < decimal(n).len() ==> is_digit(#[trigger] decimal(n)[i]),
        digits_value(decimal(n)) == n,
    decreases n,
{
    let s = decimal(n);
    if n < 10 {
        assert(s.drop_last() =~= Seq::<char>::empty());
        assert(digits_value(s.drop_last()) == 0);
    } else {
        lemma_decimal_value(n / 10);
        assert(s.drop_last() =~= decimal(n / 10));
        assert forall|i: int| 0 <= i < s.len() implies is_digit(#[trigger] s[i]) by {
            if i < s.len() - 1 {
                assert(s[i] == decimal(n / 10)[i]);
            }
        }
    }
}

// ---- Laws of splitting and trimming ----

proof fn lemma_split_has_a_part(s: Seq<char>, sep: char)
    ensures
        split_on(s, sep).len() >= 1,
    decreases s.len(),
{
    if s.len() > 0 {
        lemma_split_has_a_part(s.drop_last(), sep);
    }
}

/// A text without the separator is its only part, and around a separator the parts are those of the
/// two sides.
pub proof fn law_split_is_of_the_two_sides(a: Seq<char>, b: Seq<char>, sep: char)
    ensures
        split_on(a + seq![sep] + b, sep) == split_on(a, sep) + split_on(b, sep),
        !a.contains(sep) ==> split_on(a, sep) == seq![a],
    decreases b.len(),
{
    if !a.contains(sep) {
        lemma_unsplit(a, sep);
    }
    let s = a + seq![sep] + b;
    lemma_split_has_a_part(a, sep);
    if b.len() == 0 {
        assert(s.drop_last() =~= a);
        assert(s.last() == sep);
        assert(b =~= Seq::empty());
        assert(split_on(s, sep) =~= split_on(a, sep) + split_on(b, sep));
    } else {
        let shorter = b.drop_last();
        law_split_is_of_the_two_sides(a, shorter, sep);
        lemma_split_has_a_part(shorter, sep);
        assert(s.drop_last() =~= a + seq![sep] + shorter);
        assert(s.last() == b.last());
        assert(split_on(s, sep) =~= split_on(a, sep) + split_on(b, sep));
    }
}

proof fn lemma_unsplit(a: Seq<char>, sep: char)
    requires
        !a.contains(sep),
    ensures
        split_on(a, sep) == seq![a],
    decreases a.len(),
{
    if a.len() > 0 {
        assert forall|i: int| 0 <= i < a.drop_last().len() implies a.drop_last()[i] != sep by {
            assert(a[i] != sep);
        }
        lemma_unsplit(a.drop_last(), sep);
        assert(a[a.len() - 1] != sep);
        assert(a.drop_last().push(a.last()) =~= a);
        assert(split_on(a, sep) =~= seq![a]);
    } else {
        assert(split_on(a, sep) =~= seq![a]);
    }
}

/// Joining the parts of a text gives the text back.
pub proof fn law_parts_join_to_the_text(s: Seq<char>, sep: char)
    ensures
        joined(split_on(s, sep), seq![sep]) == s,
    decreases s.len(),
{
    if s.len() == 0 {
        assert(joined(split_on(s, sep), seq![sep]) =~= s);
    } else {
        let before = s.drop_last();
        law_parts_join_to_the_text(before, sep);
        lemma_split_has_a_part(before, sep);
        let rest = split_on(before, sep);
        let parts = split_on(s, sep);
        if s.last() == sep {
            assert(parts.drop_last() =~= rest);
            assert(joined(parts, seq![sep]) =~= s);
        } else {
            assert(parts.len() == rest.len());
            if parts.len() == 1 {
                assert(joined(parts, seq![sep]) =~= s);
            } else {
                assert(parts.drop_last() =~= rest.drop_last());
                assert(joined(rest, seq![sep]) == joined(rest.drop_last(), seq![sep]) + seq![sep]
                    + rest.last());
                assert(parts.last() == rest.last().push(s.last()));
                assert(joined(parts, seq![sep]) == joined(rest.drop_last(), seq![sep]) + seq![sep]
                    + parts.last());
                assert(joined(parts, seq![sep]) =~= joined(rest, seq![sep]).push(s.last()));
                assert(s =~= before.push(s.last()));
            }
        }
    }
}

/// Blanks around a text that neither starts nor ends with one are trimmed away, and nothing else is.
pub proof fn law_blanks_around_a_text_are_trimmed(a: Seq<char>, t: Seq<char>, b: Seq<char>)
    requires
        forall|i: int| 0 <= i < a.len() ==> whitespace(#[trigger] a[i]),
        forall|i: int| 0 <= i < b.len() ==> whitespace(#[trigger] b[i]),
        t.len() > 0 ==> !whitespace(t[0]) && !whitespace(t.last()),
    ensures
        trimmed(a + t + b) == t,
{
    let s = a + t + b;
    if t.len() == 0 {
        assert forall|j: int| 0 <= j < s.len() implies whitespace(#[trigger] s[j]) by {
            if j < a.len() {
                assert(s[j] == a[j]);
            } else {
                assert(s[j] == b[j - a.len()]);
            }
        }
        lemma_trim_start(s, s.len() as int);
        assert(trim_start(s) =~= Seq::empty());
        assert(trimmed(s) =~= t);
    } else {
        assert forall|j: int| 0 <= j < a.len() implies whitespace(#[trigger] s[j]) by {
            assert(s[j] == a[j]);
        }
        assert(s[a.len() as int] == t[0]);
        lemma_trim_start(s, a.len() as int);
        let r = s.subrange(a.len() as int, s.len() as int);
        assert(r =~= t + b);
        assert forall|j: int| t.len() <= j < r.len() implies whitespace(#[trigger] r[j]) by {
            assert(r[j] == b[j - t.len()]);
        }
        assert(r[t.len() - 1] == t.last());
        lemma_trim_end(r, t.len() as int);
        assert(r.subrange(0, t.len() as int) =~= t);
    }
}

/// The value of an upper-case digit in base sixteen.
pub open spec fn hex_digit_value(c: char) -> int {
    if '0' <= c && c <= '9' {
        c as int - '0' as int
    } else {
        c as int - 'A' as int + 10
    }
}

/// The number that upper-case digits in base sixteen spell.
pub open spec fn hex_value(s: Seq<char>) -> int
    decreases s.len(),
{
    if s.len() == 0 {
        0
    } else {
        hex_value(s.drop_last()) * 16 + hex_digit_value(s.last())
    }
}

/// A code in base sixteen spells its number behind `0x`, with two digits at least.
pub proof fn law_hex_codes_are_read_back(n: nat)
    ensures
        hex_code(n).len() >= 4,
        hex_code(n).subrange(0, 2) == seq!['0', 'x'],
        hex_value(hex_code(n).subrange(2, hex_code(n).len() as int)) == n,
{
    lemma_hex_numeral(n);
    let code = hex_code(n);
    let digits = code.subrange(2, code.len() as int);
    assert(code.subrange(0, 2) =~= seq!['0', 'x']);
    if n < 16 {
        assert(digits =~= seq!['0', digit_char(n as int)]);
        assert(digits.drop_last() =~= seq!['0']);
        assert(digits.drop_last().drop_last() =~= Seq::empty());
        assert(hex_value(seq!['0']) == 0) by {
            assert(seq!['0'].drop_last() =~= Seq::empty());
            assert(hex_value(Seq::empty()) == 0);
        }
        assert(hex_digit_value(digit_char(n as int)) == n);
    } else {
        assert(digits =~= numeral(n, 16));
        lemma_hex_numeral(n / 16);
        assert(numeral(n, 16).len() >= 2);
    }
}

proof fn lemma_hex_numeral(n: nat)
    ensures
        hex_value(numeral(n, 16)) == n,
        numeral(n, 16).len() >= 1,
    decreases n,
{
    let s = numeral(n, 16);
    if n < 16 {
        assert(s =~= seq![digit_char(n as int)]);
        assert(s.drop_last() =~= Seq::empty());
        assert(hex_value(Seq::empty()) == 0);
        assert(hex_digit_value(digit_char(n as int)) == n);
    } else {
        lemma_hex_numeral(n / 16);
        assert(s.drop_last() =~= numeral(n / 16, 16));
        assert(hex_digit_value(digit_char((n % 16) as int)) == n % 16);
    }
}

/// Letters differ by their case alone from what they are lowered to, and nothing else is lowered.
pub proof fn law_letters_are_lowered(c: char, k: int)
    requires
        0 <= k < 26,
    ensures
        ascii_lower(((65 + k) as u8) as char) == ((97 + k) as u8) as char,
        !('A' <= c && c <= 'Z') ==> ascii_lower(c) == c,
        ascii_lower(ascii_lower(c)) == ascii_lower(c),
{
}

/// To be the same but for case is an equivalence that holds of a text and its lower-case form.
pub proof fn law_case_does_not_matter(a: Seq<char>, b: Seq<char>, c: Seq<char>)
    ensures
        same_ignoring_ascii_case(a, a),
        same_ignoring_ascii_case(a, b) == same_ignoring_ascii_case(b, a),
        same_ignoring_ascii_case(a, b) && same_ignoring_ascii_case(b, c)
            ==> same_ignoring_ascii_case(a, c),
        same_ignoring_ascii_case(a, ascii_lower_seq(a)),
        same_ignoring_ascii_case(a, b) ==> a.len() == b.len(),
{
    assert forall|i: int| 0 <= i < a.len() implies ascii_lower(#[trigger] ascii_lower_seq(a)[i])
        == ascii_lower_seq(a)[i] by {
        law_letters_are_lowered(a[i], 0);
    }
    assert(ascii_lower_seq(ascii_lower_seq(a)) =~= ascii_lower_seq(a));
    assert(ascii_lower_seq(a).len() == a.len());
    assert(ascii_lower_seq(b).len() == b.len());
}

/// A text begins and ends with its parts, and holds what stands in it.
pub proof fn law_parts_are_found(a: Seq<char>, p: Seq<char>, b: Seq<char>)
    ensures
        has_prefix(p + b, p),
        has_suffix(a + p, p),
        contains_seq(a + p + b, p),
{
    assert((p + b).subrange(0, p.len() as int) =~= p);
    assert((a + p).subrange(a.len() as int, (a + p).len() as int) =~= p);
    let s = a + p + b;
    assert(s.subrange(a.len() as int, (a.len() + p.len()) as int) =~= p);
    assert(occurs_at(s, p, a.len() as int));
}

/// What is found is there: a text with a prefix, a suffix or a part is made of it and the rest.
pub proof fn law_what_is_found_is_there(s: Seq<char>, p: Seq<char>)
    ensures
        has_prefix(s, p) ==> exists|b: Seq<char>| s == #[trigger] (p + b),
        has_suffix(s, p) ==> exists|a: Seq<char>| s == #[trigger] (a + p),
        contains_seq(s, p) ==> exists|a: Seq<char>, b: Seq<char>| s == #[trigger] (a + p + b),
{
    if has_prefix(s, p) {
        let b = s.subrange(p.len() as int, s.len() as int);
        assert(s =~= p + b);
    }
    if has_suffix(s, p) {
        let a = s.subrange(0, s.len() - p.len());
        assert(s =~= a + p);
    }
    if contains_seq(s, p) {
        let i = choose|i: int| occurs_at(s, p, i);
        let a = s.subrange(0, i);
        let b = s.subrange(i + p.len(), s.len() as int);
        assert(s =~= a + p + b);
    }
}

/// Stripping takes a suffix off as often as it stands there, and nothing more.
pub proof fn law_suffixes_are_stripped(s: Seq<char>, suffix: Seq<char>)
    requires
        suffix.len() > 0,
    ensures
        strip_suffixes(s + suffix, suffix) == strip_suffixes(s, suffix),
        !has_suffix(s, suffix) ==> strip_suffixes(s, suffix) == s,
{
    let t = s + suffix;
    assert(t.subrange(s.len() as int, t.len() as int) =~= suffix);
    assert(t.subrange(0, s.len() as int) =~= s);
}

} // verus!
