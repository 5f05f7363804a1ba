//! Searching and splitting sequences of characters.

use vstd::prelude::*;

use crate::text::{ascii_space, chars_of, part, same_chars, trim, white_space};

verus! {

/// The character sequences that a list of vectors holds.
pub open spec fn texts(v: Seq<Vec<char>>) -> Seq<Seq<char>> {
    v.map_values(|w: Vec<char>| w@)
}

/// `s` begins with `t`.
pub open spec fn begins(s: Seq<char>, t: Seq<char>) -> bool {
    t.len() <= s.len() && s.take(t.len() as int) == t
}

/// `s` ends with `t`.
pub open spec fn finishes(s: Seq<char>, t: Seq<char>) -> bool {
    t.len() <= s.len() && s.skip(s.len() - t.len()) == t
}

/// `s` without its last `n` characters.
pub open spec fn cut(s: Seq<char>, n: nat) -> Seq<char> {
    s.take(s.len() - n)
}

/// Where `t` first occurs in `s`.
pub open spec fn find_text(s: Seq<char>, t: Seq<char>) -> Option<int>
    decreases s.len(),
{
    if s.len() < t.len() {
        None
    } else if s.take(t.len() as int) == t {
        Some(0)
    } else if s.len() == 0 {
        None
    } else {
        match find_text(s.skip(1), t) {
            Some(i) => Some(i + 1),
            None => None,
        }
    }
}

/// Where `c` last occurs in `s`.
pub open spec fn find_last(s: Seq<char>, c: char) -> Option<int>
    decreases s.len(),
{
    if s.len() == 0 {
        None
    } else if s.last() == c {
        Some(s.len() - 1)
    } else {
        find_last(s.drop_last(), c)
    }
}

/// What parts a text into words.
#[derive(Clone, Copy, Debug, PartialEq, Eq, Structural)]
pub enum Separator {
    /// Unicode white space.
    WhiteSpace,
    /// ASCII white space.
    AsciiSpace,
    /// ASCII white space and commas.
    AsciiSpaceOrComma,
    /// Commas.
    Comma,
}

impl Separator {
    /// `c` stands between words.
    pub open spec fn parts(self, c: char) -> bool {
        match self {
            Separator::WhiteSpace => crate::text::is_white_space(c),
            Separator::AsciiSpace => crate::text::is_ascii_space(c),
            Separator::AsciiSpaceOrComma => crate::text::is_ascii_space(c) || c == ',',
            Separator::Comma => c == ',',
        }
    }

    /// Whether `c` stands between words.
    pub fn separates(self, c: char) -> (r: bool)
        ensures
            r == self.parts(c),
    {
        match self {
            Separator::WhiteSpace => white_space(c),
            Separator::AsciiSpace => ascii_space(c),
            Separator::AsciiSpaceOrComma => ascii_space(c) || c == ',',
            Separator::Comma => c == ',',
        }
    }
}

/// The state of a scan: the finished pieces and the piece that is open.
#[verifier::ext_equal]
pub struct Scan {
    pub done: Seq<Seq<char>>,
    pub open: Seq<char>,
}

impl Scan {
    /// The scan of nothing.
    pub open spec fn start() -> Scan {
        Scan { done: Seq::empty(), open: Seq::empty() }
    }

    /// One more character of the open piece.
    pub open spec fn grown(self, c: char) -> Scan {
        Scan { open: self.open.push(c), ..self }
    }

    /// The open piece is finished; an empty one is dropped.
    pub open spec fn closed(self) -> Scan {
        if self.open.len() == 0 {
            self
        } else {
            Scan { done: self.done.push(self.open), open: Seq::empty() }
        }
    }
}

/// The scan of `s` for the words between separators.
pub open spec fn word_scan(s: Seq<char>, by: Separator) -> Scan
    decreases s.len(),
{
    if s.len() == 0 {
        Scan::start()
    } else if by.parts(s.last()) {
        word_scan(s.drop_last(), by).closed()
    } else {
        word_scan(s.drop_last(), by).grown(s.last())
    }
}

/// The words of `s`: its longest runs without a separator.
pub open spec fn words(s: Seq<char>, by: Separator) -> Seq<Seq<char>> {
    word_scan(s, by).closed().done
}

/// The words of `v`.
pub fn split_words(v: &[char], by: Separator) -> (r: Vec<Vec<char>>)
    ensures
        texts(r@) == words(v@, by),
{
    let mut done: Vec<Vec<char>> = Vec::new();
    let mut open: Vec<char> = Vec::new();
    let mut i: usize = 0;
    assert(v@.take(0) =~= Seq::<char>::empty());
    assert(texts(done@) =~= Seq::<Seq<char>>::empty());
    while i < v.len()
        invariant
            i <= v.len(),
            word_scan(v@.take(i as int), by) == (Scan { done: texts(done@), open: open@ }),
        decreases v.len() - i,
    {
        let c: char = v[i];
        proof {
            assert(v@.take(i + 1).drop_last() =~= v@.take(i as int));
        }
        if by.separates(c) {
            if open.len() > 0 {
                let ghost before = done@;
                let ghost word = open@;
                done.push(open);
                assert(texts(done@) =~= texts(before).push(word));
                open = Vec::new();
            }
        } else {
            open.push(c);
        }
        i += 1;
    }
    assert(v@.take(v@.len() as int) =~= v@);
    if open.len() > 0 {
        let ghost before = done@;
        let ghost word = open@;
        done.push(open);
        assert(texts(done@) =~= texts(before).push(word));
    }
    done
}

/// Whether `v` begins with `t`.
pub fn starts_with(v: &[char], t: &str) -> (r: bool)
    ensures
        r == begins(v@, t@),
{
    let w = chars_of(t);
    starts_with_chars(v, w.as_slice())
}

/// Whether `v` begins with `w`.
pub fn starts_with_chars(v: &[char], w: &[char]) -> (r: bool)
    ensures
        r == begins(v@, w@),
{
    if w.len() > v.len() {
        return false;
    }
    let head = part(v, 0, w.len());
    assert(head@ =~= v@.take(w@.len() as int));
    same_chars(head.as_slice(), w)
}

/// Whether `v` ends with `t`.
pub fn ends_with(v: &[char], t: &str) -> (r: bool)
    ensures
        r == finishes(v@, t@),
{
    let w = chars_of(t);
    if w.len() > v.len() {
        return false;
    }
    let tail = part(v, v.len() - w.len(), v.len());
    assert(tail@ =~= v@.skip(v@.len() - w@.len()));
    same_chars(tail.as_slice(), w.as_slice())
}

/// Where `t` first occurs in `v`.
pub fn position_of(v: &[char], t: &str) -> (r: Option<usize>)
    ensures
        match r {
            Some(i) => find_text(v@, t@) == Some(i as int) && i + t@.len() <= v@.len(),
            None => find_text(v@, t@) is None,
        },
{
    let w = chars_of(t);
    let mut i: usize = 0;
    assert(v@.skip(0) =~= v@);
    while i <= v.len()
        invariant
            i <= v@.len() + 1,
            w@ == t@,
            i <= v@.len() ==> (match find_text(v@.skip(i as int), w@) {
                Some(k) => find_text(v@, w@) == Some(k + i),
                None => find_text(v@, w@) is None,
            }),
            i > v@.len() ==> find_text(v@, w@) is None,
        decreases v@.len() + 1 - i,
    {
        let ghost rest = v@.skip(i as int);
        if v.len() - i < w.len() {
            return None;
        }
        let here = part(v, i, i + w.len());
        assert(here@ =~= rest.take(w@.len() as int));
        if same_chars(here.as_slice(), w.as_slice()) {
            return Some(i);
        }
        if i == v.len() {
            return None;
        }
        assert(rest.skip(1) =~= v@.skip(i + 1));
        i += 1;
    }
    None
}

/// Where `c` last occurs in `v`.
pub fn last_position_of(v: &[char], c: char) -> (r: Option<usize>)
    ensures
        match r {
            Some(i) => find_last(v@, c) == Some(i as int) && i < v@.len() && v@[i as int] == c,
            None => find_last(v@, c) is None,
        },
{
    let mut i: usize = v.len();
    assert(v@.take(v@.len() as int) =~= v@);
    while i > 0
        invariant
            i <= v@.len(),
            find_last(v@, c) == find_last(v@.take(i as int), c),
        decreases i,
    {
        assert(v@.take(i as int).drop_last() =~= v@.take(i - 1));
        if v[i - 1] == c {
            return Some(i - 1);
        }
        i -= 1;
    }
    None
}

/// Whether `c` occurs in `v`.
pub fn holds(v: &[char], c: char) -> (r: bool)
    ensures
        r == v@.contains(c),
{
    let mut i: usize = 0;
    while i < v.len()
        invariant
            i <= v@.len(),
            forall|k: int| 0 <= k < i ==> v@[k] != c,
        decreases v@.len() - i,
    {
        if v[i] == c {
            return true;
        }
        i += 1;
    }
    false
}

/// The items of a list, each trimmed; empty ones are dropped.
pub open spec fn trimmed_items(p: Seq<Seq<char>>) -> Seq<Seq<char>>
    decreases p.len(),
{
    if p.len() == 0 {
        Seq::empty()
    } else {
        let rest = trimmed_items(p.drop_last());
        let item = crate::text::trimmed(p.last());
        if item.len() == 0 {
            rest
        } else {
            rest.push(item)
        }
    }
}

/// Trims the items of a list and drops the empty ones.
pub fn trim_items(p: &Vec<Vec<char>>) -> (r: Vec<Vec<char>>)
    ensures
        texts(r@) == trimmed_items(texts(p@)),
{
    let ghost all = texts(p@);
    let mut r: Vec<Vec<char>> = Vec::new();
    let mut i: usize = 0;
    assert(texts(r@) =~= Seq::<Seq<char>>::empty());
    assert(all.take(0) =~= Seq::<Seq<char>>::empty());
    while i < p.len()
        invariant
            i <= p@.len(),
            all == texts(p@),
            texts(r@) == trimmed_items(all.take(i as int)),
        decreases p@.len() - i,
    {
        assert(all.take(i + 1).drop_last() =~= all.take(i as int));
        let item = trim(p[i].as_slice());
        if item.len() > 0 {
            let ghost before = r@;
            let ghost word = item@;
            r.push(item);
            assert(texts(r@) =~= texts(before).push(word));
        }
        i += 1;
    }
    assert(all.take(all.len() as int) =~= all);
    r
}

/// What is found is there, and nowhere before; what is not found is nowhere.
pub proof fn first_places_are_found(s: Seq<char>, t: Seq<char>)
    ensures
        match find_text(s, t) {
            Some(i) => {
                &&& 0 <= i <= s.len() - t.len()
                &&& s.subrange(i, i + t.len()) == t
                &&& forall|k: int| 0 <= k < i ==> #[trigger] s.subrange(k, k + t.len()) != t
            },
            None => forall|k: int|
                0 <= k <= s.len() - t.len() ==> #[trigger] s.subrange(k, k + t.len()) != t,
        },
    decreases s.len(),
{
    let n = t.len() as int;
    if s.len() >= t.len() && s.take(n) == t {
        assert(s.subrange(0, n) =~= s.take(n));
    } else if s.len() >= t.len() && s.len() > 0 {
        let rest = s.skip(1);
        first_places_are_found(rest, t);
        assert(s.subrange(0, n) =~= s.take(n));
        assert forall|k: int| 0 < k <= s.len() - n implies #[trigger] s.subrange(k, k + n)
            == rest.subrange(k - 1, k - 1 + n) by {
            assert(s.subrange(k, k + n) =~= rest.subrange(k - 1, k - 1 + n));
        }
    }
}

/// The last place of a character is found.
pub proof fn last_places_are_found(s: Seq<char>, c: char)
    ensures
        match find_last(s, c) {
            Some(i) => 0 <= i < s.len() && s[i] == c && forall|k: int|
                i < k < s.len() ==> #[trigger] s[k] != c,
            None => forall|k: int| 0 <= k < s.len() ==> #[trigger] s[k] != c,
        },
    decreases s.len(),
{
    if s.len() > 0 && s.last() != c {
        last_places_are_found(s.drop_last(), c);
        assert(forall|k: int| 0 <= k < s.len() - 1 ==> s.drop_last()[k] == #[trigger] s[k]);
    }
}

/// No character of `s` stands between words.
pub open spec fn unparted(s: Seq<char>, by: Separator) -> bool {
    forall|i: int| 0 <= i < s.len() ==> !by.parts(#[trigger] s[i])
}

proof fn scan_goes_on(a: Seq<char>, c: char, b: Seq<char>, by: Separator)
    requires
        by.parts(c),
    ensures
        word_scan(a.push(c) + b, by) == (Scan {
            done: words(a, by) + word_scan(b, by).done,
            open: word_scan(b, by).open,
        }),
    decreases b.len(),
{
    let s = a.push(c) + b;
    if b.len() == 0 {
        assert(s =~= a.push(c));
        assert(s.drop_last() =~= a);
        assert(words(a, by) + Seq::<Seq<char>>::empty() =~= words(a, by));
    } else {
        let d = b.drop_last();
        assert(s.drop_last() =~= a.push(c) + d);
        scan_goes_on(a, c, d, by);
        let x = word_scan(d, by);
        if by.parts(b.last()) {
            assert((words(a, by) + x.done).push(x.open) =~= words(a, by) + x.done.push(x.open));
        }
    }
}

/// A separator parts a text: its words are those before it, and then those behind
/// it.
pub proof fn separators_part_words(a: Seq<char>, c: char, b: Seq<char>, by: Separator)
    requires
        by.parts(c),
    ensures
        words(a.push(c) + b, by) == words(a, by) + words(b, by),
{
    scan_goes_on(a, c, b, by);
    let x = word_scan(b, by);
    assert((words(a, by) + x.done).push(x.open) =~= words(a, by) + x.done.push(x.open));
}

proof fn word_stays_open(w: Seq<char>, by: Separator)
    requires
        unparted(w, by),
    ensures
        word_scan(w, by) == (Scan { done: Seq::empty(), open: w }),
    decreases w.len(),
{
    if w.len() > 0 {
        let d = w.drop_last();
        assert forall|i: int| 0 <= i < d.len() implies !by.parts(#[trigger] d[i]) by {
            assert(d[i] == w[i]);
        }
        word_stays_open(d, by);
        assert(d.push(w.last()) =~= w);
    } else {
        assert(w =~= Seq::<char>::empty());
    }
}

/// A text without a separator is one word, or none where it is empty.
pub proof fn words_stay_whole(w: Seq<char>, by: Separator)
    requires
        unparted(w, by),
    ensures
        words(w, by) == if w.len() == 0 {
            Seq::<Seq<char>>::empty()
        } else {
            seq![w]
        },
{
    word_stays_open(w, by);
    assert(Seq::<Seq<char>>::empty().push(w) =~= seq![w]);
}

/// The words of a list, with a separator between them.
pub open spec fn joined(list: Seq<Seq<char>>, c: char) -> Seq<char>
    decreases list.len(),
{
    if list.len() == 0 {
        Seq::empty()
    } else if list.len() == 1 {
        list[0]
    } else {
        joined(list.drop_last(), c).push(c) + list.last()
    }
}

/// Words that are written with a separator between them are read back: as many,
/// in the same order, and each as it was.
pub proof fn written_words_read_back(list: Seq<Seq<char>>, c: char, by: Separator)
    requires
        by.parts(c),
        forall|i: int|
            0 <= i < list.len() ==> (#[trigger] list[i]).len() > 0 && unparted(list[i], by),
    ensures
        words(joined(list, c), by) == list,
    decreases list.len(),
{
    if list.len() == 0 {
        words_stay_whole(Seq::empty(), by);
        assert(list =~= Seq::<Seq<char>>::empty());
    } else if list.len() == 1 {
        words_stay_whole(list[0], by);
        assert(list =~= seq![list[0]]);
    } else {
        let d = list.drop_last();
        assert forall|i: int| 0 <= i < d.len() implies (#[trigger] d[i]).len() > 0 && unparted(
            d[i],
            by,
        ) by {
            assert(d[i] == list[i]);
        }
        written_words_read_back(d, c, by);
        separators_part_words(joined(d, c), c, list.last(), by);
        words_stay_whole(list.last(), by);
        assert(d + seq![list.last()] =~= list);
    }
}

/// Commas part items by commas alone; white space parts words, and where commas
/// do too, so do they.
pub proof fn separators_are_their_characters(c: char)
    ensures
        Separator::Comma.parts(c) <==> c == ',',
        Separator::AsciiSpace.parts(c) <==> (c == ' ' || c == '\t' || c == '\n' || c == '\r' || c
            == '\u{c}'),
        Separator::AsciiSpaceOrComma.parts(c) <==> (Separator::AsciiSpace.parts(c)
            || Separator::Comma.parts(c)),
        Separator::WhiteSpace.parts(c) <==> crate::text::is_white_space(c),
{
}

} // verus!
