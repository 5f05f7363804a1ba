//! The grammar of `box-shadow`.

use vstd::prelude::*;

use crate::color::{Color, ColorFault, ColorParseError};
use crate::number::{read_literal, Literal, Precision};
use crate::scan::{ends_with, Scan};
use crate::text::{ascii_space, chars_of, lower, part, spells, string_of, trim};

pub mod writing;

verus! {

/// One shadow.
#[derive(Clone, Debug, PartialEq, Eq)]
pub struct BoxShadow {
    /// How far the shadow is shifted to the right.
    pub offset_x: Literal,
    /// How far the shadow is shifted down.
    pub offset_y: Literal,
    /// The blur, which is not negative.
    pub blur_radius: Literal,
    /// How far the shadow grows on each side.
    pub spread: Literal,
    pub color: Color,
    /// The shadow is drawn inside the padding box.
    pub inset: bool,
}

/// One shadow, with its numbers as they were written.
#[verifier::ext_equal]
pub struct BoxShadowView {
    pub offset_x: Seq<char>,
    pub offset_y: Seq<char>,
    pub blur_radius: Seq<char>,
    pub spread: Seq<char>,
    pub color: Color,
    pub inset: bool,
}

impl View for BoxShadow {
    type V = BoxShadowView;

    open spec fn view(&self) -> BoxShadowView {
        BoxShadowView {
            offset_x: self.offset_x@,
            offset_y: self.offset_y@,
            blur_radius: self.blur_radius@,
            spread: self.spread@,
            color: self.color,
            inset: self.inset,
        }
    }
}

/// Why a text is no list of shadows.
#[derive(Clone, Debug, PartialEq, Eq)]
pub enum BoxShadowParseError {
    /// A shadow needs two lengths.
    NotEnoughLengths,
    /// A shadow takes four lengths.
    TooManyLengths,
    BadLength(String),
    BadColor(String, ColorParseError),
}

/// [`BoxShadowParseError`] with its text as characters.
#[verifier::ext_equal]
pub enum BoxShadowFault {
    NotEnoughLengths,
    TooManyLengths,
    BadLength(Seq<char>),
    BadColor(Seq<char>, ColorFault),
}

impl View for BoxShadowParseError {
    type V = BoxShadowFault;

    open spec fn view(&self) -> BoxShadowFault {
        match self {
            BoxShadowParseError::NotEnoughLengths => BoxShadowFault::NotEnoughLengths,
            BoxShadowParseError::TooManyLengths => BoxShadowFault::TooManyLengths,
            BoxShadowParseError::BadLength(s) => BoxShadowFault::BadLength(s@),
            BoxShadowParseError::BadColor(s, e) => BoxShadowFault::BadColor(s@, e@),
        }
    }
}

/// How many parentheses are open behind `s`.
pub open spec fn depth(s: Seq<char>) -> int
    decreases s.len(),
{
    if s.len() == 0 {
        0
    } else if s.last() == '(' {
        depth(s.drop_last()) + 1
    } else if s.last() == ')' {
        depth(s.drop_last()) - 1
    } else {
        depth(s.drop_last())
    }
}

/// The scan of a list for the items between commas that stand in no
/// parentheses.
pub open spec fn list_scan(s: Seq<char>) -> Scan
    decreases s.len(),
{
    if s.len() == 0 {
        Scan::start()
    } else {
        let before = list_scan(s.drop_last());
        if s.last() == ',' && depth(s.drop_last()) == 0 {
            Scan {
                done: before.done.push(crate::text::trimmed(before.open)),
                open: Seq::empty(),
            }
        } else {
            before.grown(s.last())
        }
    }
}

/// The items of the list `s`, each trimmed. A comma at the end opens no item.
pub open spec fn shadow_items(s: Seq<char>) -> Seq<Seq<char>> {
    let scan = list_scan(s);
    let last = crate::text::trimmed(scan.open);
    if last.len() == 0 {
        scan.done
    } else {
        scan.done.push(last)
    }
}

/// Splits a list of shadows at the commas that stand in no parentheses.
pub fn split_shadows(input: &[char]) -> (r: Vec<Vec<char>>)
    ensures
        crate::scan::texts(r@) == shadow_items(input@),
{
    let n: usize = input.len();
    let mut done: Vec<Vec<char>> = Vec::new();
    let mut open: Vec<char> = Vec::new();
    let mut level: i128 = 0;
    let mut i: usize = 0;
    assert(input@.take(0) =~= Seq::<char>::empty());
    assert(crate::scan::texts(done@) =~= Seq::<Seq<char>>::empty());
    while i < n
        invariant
            i <= n == input@.len(),
            -(i as int) <= level <= i,
            level == depth(input@.take(i as int)),
            list_scan(input@.take(i as int)) == (Scan {
                done: crate::scan::texts(done@),
                open: open@,
            }),
        decreases n - i,
    {
        let c: char = input[i];
        assert(input@.take(i + 1).drop_last() =~= input@.take(i as int));
        if c == ',' && level == 0 {
            let item = trim(open.as_slice());
            let ghost before = done@;
            let ghost word = item@;
            done.push(item);
            assert(crate::scan::texts(done@) =~= crate::scan::texts(before).push(word));
            open = Vec::new();
        } else {
            open.push(c);
            if c == '(' {
                level = level + 1;
            } else if c == ')' {
                level = level - 1;
            }
        }
        i += 1;
    }
    assert(input@.take(n as int) =~= input@);
    let last = trim(open.as_slice());
    if last.len() > 0 {
        let ghost before = done@;
        let ghost word = last@;
        done.push(last);
        assert(crate::scan::texts(done@) =~= crate::scan::texts(before).push(word));
    }
    done
}

/// The scan of a shadow for its tokens: white space in parentheses does not
/// part them.
pub open spec fn token_scan(s: Seq<char>) -> Scan
    decreases s.len(),
{
    if s.len() == 0 {
        Scan::start()
    } else if crate::text::is_ascii_space(s.last()) && depth(s.drop_last()) == 0 {
        token_scan(s.drop_last()).closed()
    } else {
        token_scan(s.drop_last()).grown(s.last())
    }
}

/// The tokens of the shadow `s`.
pub open spec fn tokens(s: Seq<char>) -> Seq<Seq<char>> {
    token_scan(s).closed().done
}

/// Splits a shadow into tokens; a function call is one token.
pub fn split_tokens_respecting_parens(token: &[char]) -> (r: Vec<Vec<char>>)
    ensures
        crate::scan::texts(r@) == tokens(token@),
{
    let n: usize = token.len();
    let mut done: Vec<Vec<char>> = Vec::new();
    let mut open: Vec<char> = Vec::new();
    let mut level: i128 = 0;
    let mut i: usize = 0;
    assert(token@.take(0) =~= Seq::<char>::empty());
    assert(crate::scan::texts(done@) =~= Seq::<Seq<char>>::empty());
    while i < n
        invariant
            i <= n == token@.len(),
            -(i as int) <= level <= i,
            level == depth(token@.take(i as int)),
            token_scan(token@.take(i as int)) == (Scan {
                done: crate::scan::texts(done@),
                open: open@,
            }),
        decreases n - i,
    {
        let c: char = token[i];
        assert(token@.take(i + 1).drop_last() =~= token@.take(i as int));
        if ascii_space(c) && level == 0 {
            if open.len() > 0 {
                let ghost before = done@;
                let ghost word = open@;
                done.push(open);
                assert(crate::scan::texts(done@) =~= crate::scan::texts(before).push(word));
                open = Vec::new();
            }
        } else {
            open.push(c);
            if c == '(' {
                level = level + 1;
            } else if c == ')' {
                level = level - 1;
            }
        }
        i += 1;
    }
    assert(token@.take(n as int) =~= token@);
    if open.len() > 0 {
        let ghost before = done@;
        let ghost word = open@;
        done.push(open);
        assert(crate::scan::texts(done@) =~= crate::scan::texts(before).push(word));
    }
    done
}

/// `s` begins as a length does.
pub open spec fn looks_like_length(s: Seq<char>) -> bool {
    s.len() > 0 && (crate::number::is_digit(s[0]) || s[0] == '+' || s[0] == '-' || s[0] == '.')
}

/// Whether `s` begins as a length does.
pub fn is_length_token(s: &[char]) -> (r: bool)
    ensures
        r == looks_like_length(s@),
{
    s.len() > 0 && (crate::number::digit(s[0]) || s[0] == '+' || s[0] == '-' || s[0] == '.')
}

/// The number of the length `s`, without its unit.
pub open spec fn px_number(s: Seq<char>) -> Seq<char> {
    if crate::scan::finishes(s, "px"@) {
        crate::scan::cut(s, 2)
    } else {
        s
    }
}

/// Parses a length in pixels.
pub fn parse_px(s: &[char]) -> (r: Result<Literal, BoxShadowParseError>)
    ensures
        crate::outcome::viewed(r) == (if Precision::Single.reading(px_number(s@)) is Some {
            Ok(px_number(s@))
        } else {
            Err(BoxShadowFault::BadLength(s@))
        }),
{
    let n: usize = s.len();
    proof {
        reveal_strlit("px");
    }
    let end: usize = if ends_with(s, "px") {
        n - 2
    } else {
        n
    };
    let number = part(s, 0, end);
    assert(number@ =~= px_number(s@));
    match read_literal(number.as_slice(), Precision::Single) {
        Some((l, _)) => Ok(l),
        None => Err(BoxShadowParseError::BadLength(string_of(s))),
    }
}

/// What the tokens of a shadow have given so far.
#[verifier::ext_equal]
pub struct GatheredView {
    pub lengths: Seq<Seq<char>>,
    pub color: Option<Color>,
    pub inset: bool,
}

/// What the tokens of a shadow have given so far.
struct Gathered {
    lengths: Vec<Literal>,
    color: Option<Color>,
    inset: bool,
}

impl View for Gathered {
    type V = GatheredView;

    closed spec fn view(&self) -> GatheredView {
        GatheredView {
            lengths: crate::number::literals(self.lengths@),
            color: self.color,
            inset: self.inset,
        }
    }
}

/// The token is the keyword `inset`.
pub open spec fn is_inset(token: Seq<char>) -> bool {
    crate::text::lowered(token) == "inset"@
}

/// What one more token gives: the keyword, a colour or a length.
pub open spec fn taken(g: GatheredView, token: Seq<char>) -> Result<GatheredView, BoxShadowFault> {
    if is_inset(token) {
        Ok(GatheredView { inset: true, ..g })
    } else if !looks_like_length(token) {
        match crate::color::parse::plain_outcome(token) {
            Ok(c) => Ok(GatheredView { color: Some(c), ..g }),
            Err(e) => Err(BoxShadowFault::BadColor(token, e)),
        }
    } else if Precision::Single.reading(px_number(token)) is None {
        Err(BoxShadowFault::BadLength(token))
    } else if g.lengths.len() >= 4 {
        Err(BoxShadowFault::TooManyLengths)
    } else {
        Ok(GatheredView { lengths: g.lengths.push(px_number(token)), ..g })
    }
}

/// What the tokens of a shadow give, in their order; the first that gives
/// nothing decides.
pub open spec fn gathered(tokens: Seq<Seq<char>>) -> Result<GatheredView, BoxShadowFault>
    decreases tokens.len(),
{
    if tokens.len() == 0 {
        Ok(GatheredView { lengths: Seq::empty(), color: None, inset: false })
    } else {
        match gathered(tokens.drop_last()) {
            Ok(g) => taken(g, tokens.last()),
            Err(e) => Err(e),
        }
    }
}

/// The blur that a length gives: what is not above zero is no blur.
pub open spec fn blur_of(length: Seq<char>) -> Seq<char> {
    match Precision::Single.reading(length) {
        Some(x) => if x.is_above_zero() {
            length
        } else {
            "0"@
        },
        None => "0"@,
    }
}

/// The shadow of what was gathered: two offsets, then blur and spread where
/// they are given. Without a colour it is transparent.
pub open spec fn assembled(g: GatheredView) -> Result<BoxShadowView, BoxShadowFault> {
    if g.lengths.len() < 2 {
        Err(BoxShadowFault::NotEnoughLengths)
    } else {
        Ok(
            BoxShadowView {
                offset_x: g.lengths[0],
                offset_y: g.lengths[1],
                blur_radius: if g.lengths.len() > 2 {
                    blur_of(g.lengths[2])
                } else {
                    "0"@
                },
                spread: if g.lengths.len() > 3 {
                    g.lengths[3]
                } else {
                    "0"@
                },
                color: match g.color {
                    Some(c) => c,
                    None => Color { r: 0, g: 0, b: 0, a: 0 },
                },
                inset: g.inset,
            },
        )
    }
}

/// What the text `s` parses to as one shadow.
pub open spec fn shadow_outcome(s: Seq<char>) -> Result<BoxShadowView, BoxShadowFault> {
    match gathered(tokens(s)) {
        Ok(g) => assembled(g),
        Err(e) => Err(e),
    }
}

fn take(g: Gathered, token: &[char]) -> (r: Result<Gathered, BoxShadowParseError>)
    ensures
        crate::outcome::viewed(r) == taken(g@, token@),
{
    let mut g = g;
    let l = lower(token);
    if spells(l.as_slice(), "inset") {
        g.inset = true;
        return Ok(g);
    }
    if !is_length_token(token) {
        let text = string_of(token);
        return match Color::parse(text.as_str()) {
            Ok(c) => {
                g.color = Some(c);
                Ok(g)
            },
            Err(e) => Err(BoxShadowParseError::BadColor(text, e)),
        };
    }
    match parse_px(token) {
        Ok(length) => {
            if g.lengths.len() >= 4 {
                return Err(BoxShadowParseError::TooManyLengths);
            }
            let ghost before = g.lengths@;
            let ghost text = length@;
            g.lengths.push(length);
            assert(crate::number::literals(g.lengths@) =~= crate::number::literals(before).push(text));
            Ok(g)
        },
        Err(e) => Err(e),
    }
}

fn blur_from(length: &Literal) -> (r: Literal)
    ensures
        r@ == blur_of(length@),
{
    let v = chars_of(length.text.as_str());
    match read_literal(v.as_slice(), Precision::Single) {
        Some((l, x)) => if x.is_above_zero() {
            l
        } else {
            Literal::zero()
        },
        None => Literal::zero(),
    }
}

/// Parses one shadow.
pub fn parse_one_shadow(token: &[char]) -> (r: Result<BoxShadow, BoxShadowParseError>)
    ensures
        crate::outcome::viewed(r) == shadow_outcome(token@),
{
    let parts = split_tokens_respecting_parens(token);
    let ghost all = crate::scan::texts(parts@);
    let mut g = Gathered { lengths: Vec::new(), color: None, inset: false };
    let mut i: usize = 0;
    assert(all.take(0) =~= Seq::<Seq<char>>::empty());
    assert(crate::number::literals(g.lengths@) =~= Seq::<Seq<char>>::empty());
    while i < parts.len()
        invariant
            i <= parts@.len(),
            all == crate::scan::texts(parts@),
            all == tokens(token@),
            gathered(all.take(i as int)) == Ok::<GatheredView, BoxShadowFault>(g@),
        decreases parts@.len() - i,
    {
        assert(all.take(i + 1).drop_last() =~= all.take(i as int));
        match take(g, parts[i].as_slice()) {
            Ok(next) => {
                g = next;
            },
            Err(e) => {
                proof {
                    gathering_stops(all, i + 1);
                }
                return Err(e);
            },
        }
        i += 1;
    }
    assert(all.take(all.len() as int) =~= all);
    let n: usize = g.lengths.len();
    if n < 2 {
        return Err(BoxShadowParseError::NotEnoughLengths);
    }
    Ok(
        BoxShadow {
            offset_x: g.lengths[0].duplicate(),
            offset_y: g.lengths[1].duplicate(),
            blur_radius: if n > 2 {
                blur_from(&g.lengths[2])
            } else {
                Literal::zero()
            },
            spread: if n > 3 {
                g.lengths[3].duplicate()
            } else {
                Literal::zero()
            },
            color: match g.color {
                Some(c) => c,
                None => Color { r: 0, g: 0, b: 0, a: 0 },
            },
            inset: g.inset,
        },
    )
}

/// A token that gives nothing decides, whatever follows it.
proof fn gathering_stops(tokens: Seq<Seq<char>>, n: int)
    requires
        0 <= n <= tokens.len(),
        gathered(tokens.take(n)) is Err,
    ensures
        gathered(tokens) == gathered(tokens.take(n)),
    decreases tokens.len() - n,
{
    if n == tokens.len() {
        assert(tokens.take(n) =~= tokens);
    } else {
        assert(tokens.take(n + 1).drop_last() =~= tokens.take(n));
        gathering_stops(tokens, n + 1);
    }
}

/// What the shadows of a list parse to, in their order; the first that is none
/// decides.
pub open spec fn shadows_outcome(items: Seq<Seq<char>>) -> Result<
    Seq<BoxShadowView>,
    BoxShadowFault,
>
    decreases items.len(),
{
    if items.len() == 0 {
        Ok(Seq::empty())
    } else {
        match shadows_outcome(items.drop_last()) {
            Ok(list) => match shadow_outcome(items.last()) {
                Ok(s) => Ok(list.push(s)),
                Err(e) => Err(e),
            },
            Err(e) => Err(e),
        }
    }
}

/// What the text `input` parses to as the value of `box-shadow`.
pub open spec fn box_shadow_outcome(input: Seq<char>) -> Result<
    Seq<BoxShadowView>,
    BoxShadowFault,
> {
    let s = crate::text::trimmed(input);
    if s.len() == 0 || crate::text::lowered(s) == "none"@ {
        Ok(Seq::empty())
    } else {
        shadows_outcome(shadow_items(s))
    }
}

/// The shadows of a list by their views.
pub open spec fn shadow_views(v: Seq<BoxShadow>) -> Seq<BoxShadowView> {
    v.map_values(|s: BoxShadow| s@)
}

/// A list of shadows as contracts see it.
pub open spec fn shadows_seen(r: Result<Vec<BoxShadow>, BoxShadowParseError>) -> Result<
    Seq<BoxShadowView>,
    BoxShadowFault,
> {
    match r {
        Ok(v) => Ok(shadow_views(v@)),
        Err(e) => Err(e@),
    }
}

proof fn listing_stops(items: Seq<Seq<char>>, n: int)
    requires
        0 <= n <= items.len(),
        shadows_outcome(items.take(n)) is Err,
    ensures
        shadows_outcome(items) == shadows_outcome(items.take(n)),
    decreases items.len() - n,
{
    if n == items.len() {
        assert(items.take(n) =~= items);
    } else {
        assert(items.take(n + 1).drop_last() =~= items.take(n));
        listing_stops(items, n + 1);
    }
}

/// Parses the value of `box-shadow`: `none`, or shadows between commas. The
/// first shadow of the list is the one that is painted on top.
pub fn parse_box_shadow(input: &str) -> (r: Result<Vec<BoxShadow>, BoxShadowParseError>)
    ensures
        shadows_seen(r) == box_shadow_outcome(input@),
{
    let v = chars_of(input);
    let s = trim(v.as_slice());
    let l = lower(s.as_slice());
    let mut list: Vec<BoxShadow> = Vec::new();
    assert(shadow_views(list@) =~= Seq::<BoxShadowView>::empty());
    if s.len() == 0 || spells(l.as_slice(), "none") {
        return Ok(list);
    }
    let items = split_shadows(s.as_slice());
    let ghost all = crate::scan::texts(items@);
    let mut i: usize = 0;
    assert(all.take(0) =~= Seq::<Seq<char>>::empty());
    while i < items.len()
        invariant
            i <= items@.len(),
            all == crate::scan::texts(items@),
            shadows_outcome(all.take(i as int)) == Ok::<Seq<BoxShadowView>, BoxShadowFault>(
                shadow_views(list@),
            ),
            box_shadow_outcome(input@) == shadows_outcome(all),
        decreases items@.len() - i,
    {
        assert(all.take(i + 1).drop_last() =~= all.take(i as int));
        match parse_one_shadow(items[i].as_slice()) {
            Ok(shadow) => {
                let ghost before = list@;
                let ghost view = shadow@;
                list.push(shadow);
                assert(shadow_views(list@) =~= shadow_views(before).push(view));
            },
            Err(e) => {
                proof {
                    listing_stops(all, i + 1);
                }
                return Err(e);
            },
        }
        i += 1;
    }
    assert(all.take(all.len() as int) =~= all);
    Ok(list)
}

proof fn depth_of_concat(a: Seq<char>, b: Seq<char>)
    ensures
        depth(a + b) == depth(a) + depth(b),
    decreases b.len(),
{
    if b.len() == 0 {
        assert(a + b =~= a);
    } else {
        assert((a + b).drop_last() =~= a + b.drop_last());
        depth_of_concat(a, b.drop_last());
    }
}

proof fn scan_of_concat(a: Seq<char>, b: Seq<char>)
    requires
        depth(a) == 0,
        list_scan(a).open.len() == 0,
    ensures
        list_scan(a + b).done == list_scan(a).done + list_scan(b).done,
        list_scan(a + b).open == list_scan(b).open,
    decreases b.len(),
{
    if b.len() == 0 {
        assert(a + b =~= a);
        assert(list_scan(a).done + list_scan(b).done =~= list_scan(a).done);
        assert(list_scan(a).open =~= list_scan(b).open);
    } else {
        assert((a + b).drop_last() =~= a + b.drop_last());
        scan_of_concat(a, b.drop_last());
        depth_of_concat(a, b.drop_last());
        assert(list_scan(a + b).done =~= list_scan(a).done + list_scan(b).done);
    }
}

/// Shadows stand in the order in which they are listed: what is listed before
/// a comma comes before what is listed behind it.
pub proof fn lists_keep_their_order(a: Seq<char>, b: Seq<char>)
    requires
        depth(a) == 0,
    ensures
        shadow_items(a.push(',') + b) == list_scan(a).done.push(
            crate::text::trimmed(list_scan(a).open),
        ) + shadow_items(b),
{
    let p = a.push(',');
    assert(p.drop_last() =~= a);
    scan_of_concat(p, b);
    assert(shadow_items(p + b) =~= list_scan(p).done + shadow_items(b));
}

/// Commas in parentheses part no shadows: a text without any other comma is
/// one item.
pub proof fn calls_are_not_split(s: Seq<char>)
    requires
        forall|i: int| 0 <= i < s.len() && s[i] == ',' ==> depth(#[trigger] s.take(i)) != 0,
    ensures
        shadow_items(s) == if crate::text::trimmed(s).len() == 0 {
            Seq::empty()
        } else {
            seq![crate::text::trimmed(s)]
        },
{
    whole_scan(s);
    assert(Seq::<Seq<char>>::empty().push(crate::text::trimmed(s)) =~= seq![
        crate::text::trimmed(s),
    ]);
}

proof fn whole_scan(s: Seq<char>)
    requires
        forall|i: int| 0 <= i < s.len() && s[i] == ',' ==> depth(#[trigger] s.take(i)) != 0,
    ensures
        list_scan(s) == (Scan { done: Seq::empty(), open: s }),
    decreases s.len(),
{
    if s.len() == 0 {
        assert(s =~= Seq::<char>::empty());
    } else {
        let t = s.drop_last();
        assert forall|i: int| 0 <= i < t.len() && t[i] == ',' implies depth(#[trigger] t.take(i))
            != 0 by {
            assert(t.take(i) =~= s.take(i));
        }
        whole_scan(t);
        assert(s.take(s.len() - 1) =~= t);
        assert(t.push(s.last()) =~= s);
    }
}

/// A shadow is inset exactly where `inset` is among its tokens, wherever it
/// stands.
pub proof fn inset_may_stand_anywhere(s: Seq<char>)
    ensures
        shadow_outcome(s) matches Ok(b) ==> (b.inset <==> exists|i: int|
            0 <= i < tokens(s).len() && is_inset(#[trigger] tokens(s)[i])),
{
    if gathered(tokens(s)) is Ok {
        inset_is_gathered(tokens(s));
    }
}

proof fn inset_is_gathered(t: Seq<Seq<char>>)
    requires
        gathered(t) is Ok,
    ensures
        gathered(t)->Ok_0.inset <==> exists|i: int| 0 <= i < t.len() && is_inset(#[trigger] t[i]),
    decreases t.len(),
{
    if t.len() > 0 {
        let u = t.drop_last();
        inset_is_gathered(u);
        if is_inset(t.last()) {
            assert(is_inset(t[t.len() - 1]));
        }
        if exists|i: int| 0 <= i < u.len() && is_inset(#[trigger] u[i]) {
            let k = choose|i: int| 0 <= i < u.len() && is_inset(#[trigger] u[i]);
            assert(is_inset(t[k]));
        }
        if exists|i: int| 0 <= i < t.len() && is_inset(#[trigger] t[i]) {
            let k = choose|i: int| 0 <= i < t.len() && is_inset(#[trigger] t[i]);
            if k < u.len() {
                assert(is_inset(u[k]));
            }
        }
    }
}

/// The tokens without the keyword `inset`.
pub open spec fn without_inset(tokens: Seq<Seq<char>>) -> Seq<Seq<char>>
    decreases tokens.len(),
{
    if tokens.len() == 0 {
        tokens
    } else if is_inset(tokens.last()) {
        without_inset(tokens.drop_last())
    } else {
        without_inset(tokens.drop_last()).push(tokens.last())
    }
}

proof fn inset_gives_nothing_else(t: Seq<Seq<char>>)
    ensures
        match (gathered(t), gathered(without_inset(t))) {
            (Ok(g), Ok(h)) => g.lengths == h.lengths && g.color == h.color,
            (Err(e), Err(f)) => e == f,
            _ => false,
        },
    decreases t.len(),
{
    if t.len() > 0 {
        let rest = without_inset(t.drop_last());
        inset_gives_nothing_else(t.drop_last());
        if !is_inset(t.last()) {
            assert(rest.push(t.last()).drop_last() =~= rest);
        }
    }
}

/// The places of `inset` decide nothing: where two shadows agree but for them,
/// they are the same shadow, or fail for the same reason.
pub proof fn places_of_inset_decide_nothing(s: Seq<char>, t: Seq<char>)
    requires
        without_inset(tokens(s)) == without_inset(tokens(t)),
    ensures
        match (shadow_outcome(s), shadow_outcome(t)) {
            (Ok(a), Ok(b)) => a == (BoxShadowView { inset: a.inset, ..b }),
            (Err(e), Err(f)) => e == f,
            _ => false,
        },
{
    inset_gives_nothing_else(tokens(s));
    inset_gives_nothing_else(tokens(t));
}

/// A blur is never negative.
pub proof fn blurs_are_not_negative(s: Seq<char>)
    ensures
        shadow_outcome(s) matches Ok(b) ==> (Precision::Single.reading(b.blur_radius) matches Some(
            x,
        ) && !x.is_below_zero()),
{
    crate::number::zero_is_zero(Precision::Single);
}

} // verus!
