//! Characters, keywords and numbers as text.
//!
//! Every parser of the crate works on sequences of characters. This module
//! holds the operations they share, each with the sequence it computes.

use vstd::prelude::*;

verus! {

/// `String::push` of std: appends one character.
pub assume_specification[ String::push ](s: &mut String, c: char)
    ensures
        final(s)@ == old(s)@.push(c),
;

/// The characters with the Unicode property `White_Space`.
pub open spec fn is_white_space(c: char) -> bool {
    ||| '\u{9}' <= c <= '\u{d}'
    ||| c == ' '
    ||| c == '\u{85}'
    ||| c == '\u{a0}'
    ||| c == '\u{1680}'
    ||| '\u{2000}' <= c <= '\u{200a}'
    ||| c == '\u{2028}'
    ||| c == '\u{2029}'
    ||| c == '\u{202f}'
    ||| c == '\u{205f}'
    ||| c == '\u{3000}'
}

/// Whether `c` is Unicode white space.
pub fn white_space(c: char) -> (r: bool)
    ensures
        r == is_white_space(c),
{
    ('\u{9}' <= c && c <= '\u{d}') || c == ' ' || c == '\u{85}' || c == '\u{a0}' || c == '\u{1680}'
        || ('\u{2000}' <= c && c <= '\u{200a}') || c == '\u{2028}' || c == '\u{2029}' || c
        == '\u{202f}' || c == '\u{205f}' || c == '\u{3000}'
}

/// ASCII white space in the sense of HTML: tab, line feed, form feed,
/// carriage return and space.
pub open spec fn is_ascii_space(c: char) -> bool {
    c == '\u{9}' || c == '\u{a}' || c == '\u{c}' || c == '\u{d}' || c == ' '
}

/// Whether `c` is ASCII white space.
pub fn ascii_space(c: char) -> (r: bool)
    ensures
        r == is_ascii_space(c),
{
    c == '\u{9}' || c == '\u{a}' || c == '\u{c}' || c == '\u{d}' || c == ' '
}

/// `s` without its leading white space.
pub open spec fn trim_start(s: Seq<char>) -> Seq<char>
    decreases s.len(),
{
    if s.len() > 0 && is_white_space(s[0]) {
        trim_start(s.subrange(1, s.len() as int))
    } else {
        s
    }
}

/// `s` without its trailing white space.
pub open spec fn trim_end(s: Seq<char>) -> Seq<char>
    decreases s.len(),
{
    if s.len() > 0 && is_white_space(s[s.len() - 1]) {
        trim_end(s.subrange(0, s.len() - 1))
    } else {
        s
    }
}

/// `s` without the white space at both ends.
pub open spec fn trimmed(s: Seq<char>) -> Seq<char> {
    trim_end(trim_start(s))
}

/// The ASCII lower-case form of `c`.
pub open spec fn lower_char(c: char) -> char {
    if 'A' <= c <= 'Z' {
        ((c as u8 + 32) as u8) as char
    } else {
        c
    }
}

/// `s` with every ASCII letter in lower case.
pub open spec fn lowered(s: Seq<char>) -> Seq<char> {
    Seq::new(s.len(), |i: int| lower_char(s[i]))
}

/// The normal form of a keyword: trimmed and in lower case.
pub open spec fn keyword_form(s: Seq<char>) -> Seq<char> {
    lowered(trimmed(s))
}

/// The characters of `s`.
pub fn chars_of(s: &str) -> (v: Vec<char>)
    ensures
        v@ == s@,
{
    let mut v: Vec<char> = Vec::new();
    for c in it: s.chars()
        invariant
            v@ == s@.take(it.index()),
            it.seq() == s@,
    {
        v.push(c);
        assert(v@ =~= s@.take(it.index() + 1));
    }
    assert(s@.take(s@.len() as int) =~= s@);
    v
}

/// The string with the characters `v`.
pub fn string_of(v: &[char]) -> (s: String)
    ensures
        s@ == v@,
{
    let mut s = String::new();
    let mut i: usize = 0;
    while i < v.len()
        invariant
            i <= v.len(),
            s@ == v@.take(i as int),
        decreases v.len() - i,
    {
        s.push(v[i]);
        i += 1;
        assert(s@ =~= v@.take(i as int));
    }
    assert(v@.take(v@.len() as int) =~= v@);
    s
}

/// The ASCII lower-case form of `c`.
pub fn to_lower(c: char) -> (r: char)
    ensures
        r == lower_char(c),
{
    if 'A' <= c && c <= 'Z' {
        (c as u8 + 32) as char
    } else {
        c
    }
}

/// `v` with every ASCII letter in lower case.
pub fn lower(v: &[char]) -> (r: Vec<char>)
    ensures
        r@ == lowered(v@),
{
    let mut r: Vec<char> = Vec::new();
    let mut i: usize = 0;
    while i < v.len()
        invariant
            i <= v.len(),
            r@ == lowered(v@).take(i as int),
        decreases v.len() - i,
    {
        r.push(to_lower(v[i]));
        i += 1;
        assert(r@ =~= lowered(v@).take(i as int));
    }
    assert(lowered(v@).take(v@.len() as int) =~= lowered(v@));
    r
}

/// The part of `v` from `from` up to `to`.
pub fn part(v: &[char], from: usize, to: usize) -> (r: Vec<char>)
    requires
        from <= to <= v@.len(),
    ensures
        r@ == v@.subrange(from as int, to as int),
{
    let mut r: Vec<char> = Vec::new();
    let mut i: usize = from;
    while i < to
        invariant
            from <= i <= to <= v@.len(),
            r@ == v@.subrange(from as int, i as int),
        decreases to - i,
    {
        r.push(v[i]);
        i += 1;
        assert(r@ =~= v@.subrange(from as int, i as int));
    }
    r
}

/// `v` without the white space at both ends.
pub fn trim(v: &[char]) -> (r: Vec<char>)
    ensures
        r@ == trimmed(v@),
{
    let n: usize = v.len();
    let mut a: usize = 0;
    assert(v@.subrange(0, n as int) =~= v@);
    while a < n && white_space(v[a])
        invariant
            a <= n == v@.len(),
            trim_start(v@) == trim_start(v@.subrange(a as int, n as int)),
        decreases n - a,
    {
        proof {
            let rest = v@.subrange(a as int, n as int);
            assert(rest.subrange(1, rest.len() as int) =~= v@.subrange(a + 1, n as int));
        }
        a += 1;
    }
    assert(trim_start(v@) == v@.subrange(a as int, n as int));
    let mut b: usize = n;
    while b > a && white_space(v[b - 1])
        invariant
            a <= b <= n == v@.len(),
            trim_start(v@) == v@.subrange(a as int, n as int),
            trim_end(trim_start(v@)) == trim_end(v@.subrange(a as int, b as int)),
        decreases b,
    {
        proof {
            let rest = v@.subrange(a as int, b as int);
            assert(rest.subrange(0, rest.len() - 1) =~= v@.subrange(a as int, b - 1));
        }
        b -= 1;
    }
    part(v, a, b)
}

/// Whether `v` spells `word`.
pub fn spells(v: &[char], word: &str) -> (r: bool)
    ensures
        r == (v@ == word@),
{
    let w = chars_of(word);
    same_chars(v, w.as_slice())
}

/// Whether two character sequences are the same.
pub fn same_chars(v: &[char], w: &[char]) -> (r: bool)
    ensures
        r == (v@ == w@),
{
    if v.len() != w.len() {
        return false;
    }
    let mut i: usize = 0;
    while i < v.len()
        invariant
            i <= v.len() == w.len(),
            forall|k: int| 0 <= k < i ==> v@[k] == w@[k],
        decreases v.len() - i,
    {
        if v[i] != w[i] {
            assert(v@[i as int] != w@[i as int]);
            return false;
        }
        i += 1;
    }
    assert(v@ =~= w@);
    true
}

/// Whether `s` spells `word`.
pub fn same_text(s: &str, word: &str) -> (r: bool)
    ensures
        r == (s@ == word@),
{
    let v = chars_of(s);
    spells(v.as_slice(), word)
}

/// The keyword that `s` writes: trimmed and in ASCII lower case.
pub fn keyword(s: &str) -> (r: Vec<char>)
    ensures
        r@ == keyword_form(s@),
{
    let v = chars_of(s);
    let t = trim(v.as_slice());
    lower(t.as_slice())
}

/// A keyword in lower case, without white space at its ends, is its own normal
/// form.
pub proof fn keyword_form_of_keyword(s: Seq<char>)
    requires
        s.len() > 0,
        !is_white_space(s[0]),
        !is_white_space(s[s.len() - 1]),
        forall|i: int| 0 <= i < s.len() ==> !('A' <= #[trigger] s[i] <= 'Z'),
    ensures
        keyword_form(s) == s,
{
    assert(trimmed(s) == s);
    assert(lowered(s) =~= s);
}

/// The number of bytes of `s` in UTF-8.
pub open spec fn byte_count(s: Seq<char>) -> nat {
    vstd::utf8::encode_utf8(s).len()
}

/// The number of bytes of `s` in UTF-8.
pub fn byte_len(s: &str) -> (n: usize)
    ensures
        n == byte_count(s@),
{
    s.as_bytes().len()
}

/// The bytes of two texts in a row are those of the one, then of the other.
pub proof fn byte_count_of_concat(a: Seq<char>, b: Seq<char>)
    ensures
        byte_count(a + b) == byte_count(a) + byte_count(b),
    decreases a.len(),
{
    if a.len() == 0 {
        assert(a + b =~= b);
    } else {
        assert((a + b).drop_first() =~= a.drop_first() + b);
        byte_count_of_concat(a.drop_first(), b);
    }
}

/// The number of UTF-16 code units of `s`.
pub open spec fn utf16_count(s: Seq<char>) -> nat
    decreases s.len(),
{
    if s.len() == 0 {
        0
    } else {
        utf16_count(s.subrange(0, s.len() - 1)) + if (s[s.len() - 1] as u32) < 0x10000 {
            1nat
        } else {
            2nat
        }
    }
}

/// The number of UTF-16 code units of `s`.
pub fn utf16_len(s: &str) -> (n: u128)
    ensures
        n == utf16_count(s@),
{
    let v = chars_of(s);
    let mut n: u128 = 0;
    let mut i: usize = 0;
    assert(v@.take(0) =~= Seq::<char>::empty());
    while i < v.len()
        invariant
            i <= v.len(),
            n == utf16_count(v@.take(i as int)),
            n <= 2 * i,
        decreases v.len() - i,
    {
        assert(v@.take(i + 1).subrange(0, i as int) =~= v@.take(i as int));
        n = n + if (v[i] as u32) < 0x10000 { 1 } else { 2 };
        i += 1;
    }
    assert(v@.take(v@.len() as int) =~= v@);
    n
}

/// The character of the decimal digit `d`.
pub open spec fn digit_char(d: nat) -> char {
    (48 + d) as char
}

/// `n` in decimal, without leading zeros.
pub open spec fn decimal_text(n: nat) -> Seq<char>
    decreases n,
{
    if n < 10 {
        seq![digit_char(n)]
    } else {
        decimal_text(n / 10).push(digit_char(n % 10))
    }
}

/// `n` in decimal, without leading zeros.
pub fn decimal(n: u64) -> (s: String)
    ensures
        s@ == decimal_text(n as nat),
    decreases n,
{
    if n < 10 {
        let mut s = String::new();
        s.push((48 + n as u8) as char);
        assert(s@ =~= decimal_text(n as nat));
        s
    } else {
        let mut s = decimal(n / 10);
        s.push((48 + (n % 10) as u8) as char);
        s
    }
}

/// `n` in decimal, with a minus sign where it is below zero.
pub open spec fn integer_text(n: int) -> Seq<char> {
    if n < 0 {
        "-"@ + decimal_text((-n) as nat)
    } else {
        decimal_text(n as nat)
    }
}

/// `s` consists of white space.
pub open spec fn all_white(s: Seq<char>) -> bool {
    forall|i: int| 0 <= i < s.len() ==> is_white_space(#[trigger] s[i])
}

/// `s` neither begins nor ends with white space.
pub open spec fn dark_ends(s: Seq<char>) -> bool {
    s.len() > 0 ==> !is_white_space(s[0]) && !is_white_space(s[s.len() - 1])
}

proof fn start_is_trimmed(a: Seq<char>, t: Seq<char>)
    requires
        all_white(a),
        t.len() > 0 ==> !is_white_space(t[0]),
    ensures
        trim_start(a + t) == t,
    decreases a.len(),
{
    let s = a + t;
    if a.len() == 0 {
        assert(s =~= t);
    } else {
        let rest = a.subrange(1, a.len() as int);
        assert(s.subrange(1, s.len() as int) =~= rest + t);
        assert forall|i: int| 0 <= i < rest.len() implies is_white_space(#[trigger] rest[i]) by {
            assert(rest[i] == a[i + 1]);
        }
        start_is_trimmed(rest, t);
    }
}

proof fn end_is_trimmed(t: Seq<char>, b: Seq<char>)
    requires
        all_white(b),
        t.len() > 0 ==> !is_white_space(t[t.len() - 1]),
    ensures
        trim_end(t + b) == t,
    decreases b.len(),
{
    let s = t + b;
    if b.len() == 0 {
        assert(s =~= t);
    } else {
        let rest = b.subrange(0, b.len() - 1);
        assert(s.subrange(0, s.len() - 1) =~= t + rest);
        assert forall|i: int| 0 <= i < rest.len() implies is_white_space(#[trigger] rest[i]) by {
            assert(rest[i] == b[i]);
        }
        end_is_trimmed(t, rest);
    }
}

/// Trimming takes the white space off both ends, all of it and nothing else.
pub proof fn trimming_takes_the_ends(a: Seq<char>, t: Seq<char>, b: Seq<char>)
    requires
        all_white(a),
        all_white(b),
        dark_ends(t),
    ensures
        trimmed(a + t + b) == t,
{
    assert(a + t + b =~= a + (t + b));
    if t.len() == 0 {
        let s = a + b;
        assert(t + b =~= b);
        assert(a + (t + b) =~= s + t);
        assert forall|i: int| 0 <= i < s.len() implies is_white_space(#[trigger] s[i]) by {
            if i < a.len() {
                assert(s[i] == a[i]);
            } else {
                assert(s[i] == b[i - a.len()]);
            }
        }
        start_is_trimmed(s, t);
    } else {
        start_is_trimmed(a, t + b);
        end_is_trimmed(t, b);
    }
}

/// Lower case changes the capital letters of ASCII to their small ones, and no
/// other character.
pub proof fn lower_case_changes_capitals(s: Seq<char>, i: int)
    requires
        0 <= i < s.len(),
    ensures
        lowered(s).len() == s.len(),
        'A' <= s[i] <= 'Z' ==> lowered(s)[i] as int == s[i] as int + ('a' as int - 'A' as int),
        !('A' <= s[i] <= 'Z') ==> lowered(s)[i] == s[i],
{
}

/// The white space of ASCII is white space; no letter, digit or punctuation mark
/// of ASCII is.
pub proof fn ascii_white_space(c: char)
    requires
        c <= '\u{7f}',
    ensures
        is_ascii_space(c) ==> is_white_space(c),
        '!' <= c ==> !is_white_space(c) && !is_ascii_space(c),
        c == ' ' || c == '\t' || c == '\n' || c == '\r' ==> is_ascii_space(c),
{
}

} // verus!
