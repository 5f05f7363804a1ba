//! The grammar of `clip-path`.

use vstd::prelude::*;

use crate::number::{read_literal, Literal, Precision};
use crate::scan::{
    ends_with, last_position_of, position_of, split_words, starts_with, trim_items, Separator,
};
use crate::sides::{expand_sides, first_numbers};
use crate::text::{chars_of, keyword, lower, part, spells, string_of, trim};

pub mod writing;

verus! {

/// The box that a shape is resolved against.
#[derive(Clone, Copy, Debug, PartialEq, Eq, Hash, Structural)]
pub enum GeometryBox {
    BorderBox,
    PaddingBox,
    ContentBox,
    MarginBox,
    FillBox,
    StrokeBox,
    ViewBox,
}

impl Default for GeometryBox {
    fn default() -> (r: GeometryBox)
        ensures
            r == GeometryBox::BorderBox,
    {
        GeometryBox::BorderBox
    }
}

impl GeometryBox {
    /// The keyword of the box.
    pub open spec fn name(self) -> Seq<char> {
        match self {
            GeometryBox::BorderBox => "border-box"@,
            GeometryBox::PaddingBox => "padding-box"@,
            GeometryBox::ContentBox => "content-box"@,
            GeometryBox::MarginBox => "margin-box"@,
            GeometryBox::FillBox => "fill-box"@,
            GeometryBox::StrokeBox => "stroke-box"@,
            GeometryBox::ViewBox => "view-box"@,
        }
    }

    /// The box with the keyword `k`.
    pub open spec fn named(k: Seq<char>) -> Option<GeometryBox> {
        if k == "border-box"@ {
            Some(GeometryBox::BorderBox)
        } else if k == "padding-box"@ {
            Some(GeometryBox::PaddingBox)
        } else if k == "content-box"@ {
            Some(GeometryBox::ContentBox)
        } else if k == "margin-box"@ {
            Some(GeometryBox::MarginBox)
        } else if k == "fill-box"@ {
            Some(GeometryBox::FillBox)
        } else if k == "stroke-box"@ {
            Some(GeometryBox::StrokeBox)
        } else if k == "view-box"@ {
            Some(GeometryBox::ViewBox)
        } else {
            None
        }
    }

    /// Parses the keyword of a box, in any case and with white space around it.
    pub fn parse(token: &str) -> (r: Option<GeometryBox>)
        ensures
            r == GeometryBox::named(crate::text::keyword_form(token@)),
    {
        let k = keyword(token);
        if spells(k.as_slice(), "border-box") {
            Some(GeometryBox::BorderBox)
        } else if spells(k.as_slice(), "padding-box") {
            Some(GeometryBox::PaddingBox)
        } else if spells(k.as_slice(), "content-box") {
            Some(GeometryBox::ContentBox)
        } else if spells(k.as_slice(), "margin-box") {
            Some(GeometryBox::MarginBox)
        } else if spells(k.as_slice(), "fill-box") {
            Some(GeometryBox::FillBox)
        } else if spells(k.as_slice(), "stroke-box") {
            Some(GeometryBox::StrokeBox)
        } else if spells(k.as_slice(), "view-box") {
            Some(GeometryBox::ViewBox)
        } else {
            None
        }
    }
}

/// Which points lie inside a polygon.
#[derive(Clone, Copy, Debug, PartialEq, Eq, Hash, Structural)]
pub enum FillRule {
    /// Those that the outline winds around.
    NonZero,
    /// Those from which a ray crosses the outline an odd number of times.
    EvenOdd,
}

impl Default for FillRule {
    fn default() -> (r: FillRule)
        ensures
            r == FillRule::NonZero,
    {
        FillRule::NonZero
    }
}

impl FillRule {
    /// The keyword of the rule.
    pub open spec fn name(self) -> Seq<char> {
        match self {
            FillRule::NonZero => "nonzero"@,
            FillRule::EvenOdd => "evenodd"@,
        }
    }

    /// The rule with the keyword `k`.
    pub open spec fn named(k: Seq<char>) -> Option<FillRule> {
        if k == "nonzero"@ {
            Some(FillRule::NonZero)
        } else if k == "evenodd"@ {
            Some(FillRule::EvenOdd)
        } else {
            None
        }
    }

    /// Parses the keyword of a rule, in any case and with white space around it.
    pub fn parse(token: &str) -> (r: Option<FillRule>)
        ensures
            r == FillRule::named(crate::text::keyword_form(token@)),
    {
        let k = keyword(token);
        if spells(k.as_slice(), "nonzero") {
            Some(FillRule::NonZero)
        } else if spells(k.as_slice(), "evenodd") {
            Some(FillRule::EvenOdd)
        } else {
            None
        }
    }
}

/// One coordinate of a position.
#[derive(Clone, Debug, PartialEq, Eq)]
pub enum Coord {
    /// Pixels.
    Px(Literal),
    /// Hundredths of the box.
    Percent(Literal),
    /// The middle.
    Center,
    /// The left or the top.
    Start,
    /// The right or the bottom.
    End,
}

/// [`Coord`] with its number as it was written.
#[verifier::ext_equal]
pub enum CoordView {
    Px(Seq<char>),
    Percent(Seq<char>),
    Center,
    Start,
    End,
}

impl View for Coord {
    type V = CoordView;

    open spec fn view(&self) -> CoordView {
        match self {
            Coord::Px(l) => CoordView::Px(l@),
            Coord::Percent(l) => CoordView::Percent(l@),
            Coord::Center => CoordView::Center,
            Coord::Start => CoordView::Start,
            Coord::End => CoordView::End,
        }
    }
}

/// The horizontal and the vertical radius of a corner.
#[derive(Clone, Debug, PartialEq, Eq)]
pub struct CornerRadius {
    pub h: Literal,
    pub v: Literal,
}

/// The radii of the four corners.
#[derive(Clone, Debug, PartialEq, Eq)]
pub struct BorderRadius {
    pub top_left: CornerRadius,
    pub top_right: CornerRadius,
    pub bottom_right: CornerRadius,
    pub bottom_left: CornerRadius,
}

/// The radii of the four corners: the horizontal ones from the top left
/// clockwise, then the vertical ones.
#[verifier::ext_equal]
pub struct BorderRadiusView {
    pub h: (Seq<char>, Seq<char>, Seq<char>, Seq<char>),
    pub v: (Seq<char>, Seq<char>, Seq<char>, Seq<char>),
}

impl View for BorderRadius {
    type V = BorderRadiusView;

    open spec fn view(&self) -> BorderRadiusView {
        BorderRadiusView {
            h: (self.top_left.h@, self.top_right.h@, self.bottom_right.h@, self.bottom_left.h@),
            v: (self.top_left.v@, self.top_right.v@, self.bottom_right.v@, self.bottom_left.v@),
        }
    }
}

/// No rounding.
pub open spec fn square_corners() -> BorderRadiusView {
    BorderRadiusView { h: ("0"@, "0"@, "0"@, "0"@), v: ("0"@, "0"@, "0"@, "0"@) }
}

fn zero_corner() -> (r: CornerRadius)
    ensures
        r.h@ == "0"@,
        r.v@ == "0"@,
{
    CornerRadius { h: Literal::zero(), v: Literal::zero() }
}

impl BorderRadius {
    /// No rounding.
    pub fn zero() -> (r: BorderRadius)
        ensures
            r@ == square_corners(),
    {
        BorderRadius {
            top_left: zero_corner(),
            top_right: zero_corner(),
            bottom_right: zero_corner(),
            bottom_left: zero_corner(),
        }
    }
}

/// A point of a polygon.
#[derive(Clone, Debug, PartialEq, Eq)]
pub struct Point {
    pub x: Literal,
    pub y: Literal,
}

impl View for Point {
    type V = (Seq<char>, Seq<char>);

    open spec fn view(&self) -> (Seq<char>, Seq<char>) {
        (self.x@, self.y@)
    }
}

/// A shape to clip to. A radius that is not given is infinite.
#[derive(Clone, Debug, PartialEq, Eq)]
pub enum ClipPath {
    /// No clipping.
    Unclipped,
    /// The box without a margin on each side, with rounded corners.
    Inset { top: Literal, right: Literal, bottom: Literal, left: Literal, radius: BorderRadius },
    Circle { radius: Option<Literal>, cx: Coord, cy: Coord },
    Ellipse { rx: Option<Literal>, ry: Option<Literal>, cx: Coord, cy: Coord },
    Polygon { points: Vec<Point>, fill_rule: FillRule },
}

/// [`ClipPath`] with its numbers as they were written.
#[verifier::ext_equal]
pub enum ClipPathView {
    Unclipped,
    Inset {
        sides: (Seq<char>, Seq<char>, Seq<char>, Seq<char>),
        radius: BorderRadiusView,
    },
    Circle { radius: Option<Seq<char>>, center: (CoordView, CoordView) },
    Ellipse {
        rx: Option<Seq<char>>,
        ry: Option<Seq<char>>,
        center: (CoordView, CoordView),
    },
    Polygon { points: Seq<(Seq<char>, Seq<char>)>, fill_rule: FillRule },
}

/// The views of a list of points.
pub open spec fn point_views(v: Seq<Point>) -> Seq<(Seq<char>, Seq<char>)> {
    v.map_values(|p: Point| p@)
}

impl View for ClipPath {
    type V = ClipPathView;

    open spec fn view(&self) -> ClipPathView {
        match self {
            ClipPath::Unclipped => ClipPathView::Unclipped,
            ClipPath::Inset { top, right, bottom, left, radius } => ClipPathView::Inset {
                sides: (top@, right@, bottom@, left@),
                radius: radius@,
            },
            ClipPath::Circle { radius, cx, cy } => ClipPathView::Circle {
                radius: crate::outcome::seen(*radius),
                center: (cx@, cy@),
            },
            ClipPath::Ellipse { rx, ry, cx, cy } => ClipPathView::Ellipse {
                rx: crate::outcome::seen(*rx),
                ry: crate::outcome::seen(*ry),
                center: (cx@, cy@),
            },
            ClipPath::Polygon { points, fill_rule } => ClipPathView::Polygon {
                points: point_views(points@),
                fill_rule: *fill_rule,
            },
        }
    }
}

/// The number of `s`, without its unit.
pub open spec fn bare_number(s: Seq<char>) -> Seq<char> {
    let t = crate::text::trimmed(s);
    crate::text::trimmed(
        if crate::scan::finishes(t, "px"@) {
            crate::scan::cut(t, 2)
        } else if crate::scan::finishes(t, "%"@) {
            crate::scan::cut(t, 1)
        } else {
            t
        },
    )
}

/// The length or percentage that `s` writes, without its unit.
pub open spec fn length_outcome(s: Seq<char>) -> Option<Seq<char>> {
    if Precision::Single.reading(bare_number(s)) is Some {
        Some(bare_number(s))
    } else {
        None
    }
}

/// Parses a length or a percentage; the unit is dropped.
pub fn parse_length_or_percent(s: &[char]) -> (r: Option<Literal>)
    ensures
        crate::outcome::seen(r) == length_outcome(s@),
{
    let t = trim(s);
    let n: usize = t.len();
    proof {
        reveal_strlit("px");
        reveal_strlit("%");
    }
    let end: usize = if ends_with(t.as_slice(), "px") {
        n - 2
    } else if ends_with(t.as_slice(), "%") {
        n - 1
    } else {
        n
    };
    let head = part(t.as_slice(), 0, end);
    assert(head@ =~= t@.take(end as int));
    assert(t@.take(n as int) =~= t@);
    let number = trim(head.as_slice());
    match read_literal(number.as_slice(), Precision::Single) {
        Some((l, _)) => Some(l),
        None => None,
    }
}

/// The lengths that all of the tokens write; `None` where one of them does not.
pub open spec fn lengths_outcome(tokens: Seq<Seq<char>>) -> Option<Seq<Seq<char>>>
    decreases tokens.len(),
{
    if tokens.len() == 0 {
        Some(Seq::empty())
    } else {
        match (lengths_outcome(tokens.drop_last()), length_outcome(tokens.last())) {
            (Some(list), Some(l)) => Some(list.push(l)),
            _ => None,
        }
    }
}

proof fn lengths_stop(tokens: Seq<Seq<char>>, n: int)
    requires
        0 <= n <= tokens.len(),
        lengths_outcome(tokens.take(n)) is None,
    ensures
        lengths_outcome(tokens) is None,
    decreases tokens.len() - n,
{
    if n == tokens.len() {
        assert(tokens.take(n) =~= tokens);
    } else {
        assert(tokens.take(n + 1).drop_last() =~= tokens.take(n));
        lengths_stop(tokens, n + 1);
    }
}

/// The texts of the literals of a list.
pub open spec fn literals_seen(r: Option<Vec<Literal>>) -> Option<Seq<Seq<char>>> {
    match r {
        Some(v) => Some(crate::number::literals(v@)),
        None => None,
    }
}

fn parse_lengths(tokens: &Vec<Vec<char>>) -> (r: Option<Vec<Literal>>)
    ensures
        literals_seen(r) == lengths_outcome(crate::scan::texts(tokens@)),
{
    let ghost all = crate::scan::texts(tokens@);
    let mut list: Vec<Literal> = Vec::new();
    let mut i: usize = 0;
    assert(all.take(0) =~= Seq::<Seq<char>>::empty());
    assert(crate::number::literals(list@) =~= Seq::<Seq<char>>::empty());
    while i < tokens.len()
        invariant
            i <= tokens@.len(),
            all == crate::scan::texts(tokens@),
            lengths_outcome(all.take(i as int)) == Some(crate::number::literals(list@)),
        decreases tokens@.len() - i,
    {
        assert(all.take(i + 1).drop_last() =~= all.take(i as int));
        match parse_length_or_percent(tokens[i].as_slice()) {
            Some(l) => {
                let ghost before = list@;
                let ghost text = l@;
                list.push(l);
                assert(crate::number::literals(list@) =~= crate::number::literals(before).push(
                    text,
                ));
            },
            None => {
                proof {
                    lengths_stop(all, i + 1);
                }
                return None;
            },
        }
        i += 1;
    }
    assert(all.take(all.len() as int) =~= all);
    Some(list)
}

/// Expands one to four values to top, right, bottom and left.
pub fn expand_trbl<T: Copy>(values: &[T]) -> (r: Option<(T, T, T, T)>)
    ensures
        r == crate::sides::expanded(values@),
{
    expand_sides(values)
}

/// Four literals, for the sides or the corners of a box.
struct Four {
    a: Literal,
    b: Literal,
    c: Literal,
    d: Literal,
}

impl Four {
    spec fn texts(self) -> (Seq<char>, Seq<char>, Seq<char>, Seq<char>) {
        (self.a@, self.b@, self.c@, self.d@)
    }
}

/// The values of the four sides that the words of `s` give.
pub open spec fn sides_outcome(s: Seq<char>) -> Option<
    (Seq<char>, Seq<char>, Seq<char>, Seq<char>),
> {
    match lengths_outcome(crate::scan::words(s, Separator::AsciiSpace)) {
        Some(list) => crate::sides::expanded(list),
        None => None,
    }
}

fn parse_sides(s: &[char]) -> (r: Option<Four>)
    ensures
        match (r, sides_outcome(s@)) {
            (Some(f), Some(t)) => f.texts() == t,
            (None, None) => true,
            _ => false,
        },
{
    let tokens = split_words(s, Separator::AsciiSpace);
    let list = match parse_lengths(&tokens) {
        Some(list) => list,
        None => {
            return None;
        },
    };
    let n: usize = list.len();
    let places: Vec<usize> = first_numbers(n);
    match expand_trbl(places.as_slice()) {
        Some((a, b, c, d)) => Some(
            Four {
                a: list[a].duplicate(),
                b: list[b].duplicate(),
                c: list[c].duplicate(),
                d: list[d].duplicate(),
            },
        ),
        None => None,
    }
}

/// The radii that `s` writes: horizontal ones, and vertical ones behind a
/// slash; without a slash both are the same.
pub open spec fn radius_outcome(s: Seq<char>) -> Option<BorderRadiusView> {
    let (h, v) = match crate::scan::find_text(s, "/"@) {
        Some(i) => (sides_outcome(s.take(i)), sides_outcome(s.skip(i + 1))),
        None => (sides_outcome(s), sides_outcome(s)),
    };
    match (h, v) {
        (Some(h), Some(v)) => Some(BorderRadiusView { h, v }),
        _ => None,
    }
}

/// Parses the radii of the four corners.
pub fn parse_border_radius(s: &[char]) -> (r: Option<BorderRadius>)
    ensures
        crate::outcome::seen(r) == radius_outcome(s@),
{
    proof {
        reveal_strlit("/");
    }
    let n: usize = s.len();
    let (h, v) = match position_of(s, "/") {
        Some(i) => {
            let first = part(s, 0, i);
            let second = part(s, i + 1, n);
            assert(first@ =~= s@.take(i as int));
            assert(second@ =~= s@.skip(i + 1));
            (parse_sides(first.as_slice()), parse_sides(second.as_slice()))
        },
        None => (parse_sides(s), parse_sides(s)),
    };
    match (h, v) {
        (Some(h), Some(v)) => Some(
            BorderRadius {
                top_left: CornerRadius { h: h.a, v: v.a },
                top_right: CornerRadius { h: h.b, v: v.b },
                bottom_right: CornerRadius { h: h.c, v: v.c },
                bottom_left: CornerRadius { h: h.d, v: v.d },
            },
        ),
        _ => None,
    }
}

/// The name and the arguments of the call that `v` writes: what stands before
/// the first opening parenthesis, and from there to the last closing one.
pub open spec fn call_parts(v: Seq<char>) -> Option<(Seq<char>, Seq<char>)> {
    match (crate::scan::find_text(v, "("@), crate::scan::find_last(v, ')')) {
        (Some(open), Some(close)) => if close < open {
            None
        } else {
            Some((crate::text::trimmed(v.take(open)), v.subrange(open + 1, close)))
        },
        _ => None,
    }
}

/// Splits a call into its name and its arguments.
pub fn split_function(v: &[char]) -> (r: Option<(Vec<char>, Vec<char>)>)
    ensures
        match (r, call_parts(v@)) {
            (Some((name, args)), Some(t)) => name@ == t.0 && args@ == t.1,
            (None, None) => true,
            _ => false,
        },
{
    proof {
        reveal_strlit("(");
    }
    let open: usize = match position_of(v, "(") {
        Some(i) => i,
        None => {
            return None;
        },
    };
    let close: usize = match last_position_of(v, ')') {
        Some(i) => i,
        None => {
            return None;
        },
    };
    proof {
        first_is_there(v@, "("@);
        assert(v@.subrange(open as int, open + 1)[0] == '(');
    }
    if close < open {
        return None;
    }
    let name = part(v, 0, open);
    assert(name@ =~= v@.take(open as int));
    Some((trim(name.as_slice()), part(v, open + 1, close)))
}

/// What is found is there.
proof fn first_is_there(s: Seq<char>, t: Seq<char>)
    requires
        crate::scan::find_text(s, t) is Some,
    ensures
        ({
            let i = crate::scan::find_text(s, t)->Some_0;
            0 <= i && i + t.len() <= s.len() && s.subrange(i, i + t.len()) == t
        }),
    decreases s.len(),
{
    if s.take(t.len() as int) == t {
        assert(s.subrange(0, t.len() as int) =~= s.take(t.len() as int));
    } else {
        first_is_there(s.skip(1), t);
        let i = crate::scan::find_text(s.skip(1), t)->Some_0;
        assert(s.subrange(i + 1, i + 1 + t.len()) =~= s.skip(1).subrange(i, i + t.len()));
    }
}

/// What stands before and behind the word `at` in the arguments of a shape.
pub open spec fn at_parts(args: Seq<char>) -> (Seq<char>, Option<Seq<char>>) {
    let s = seq![' '] + args;
    match crate::scan::find_text(crate::text::lowered(s), " at "@) {
        Some(i) => (s.take(i), Some(s.skip(i + 4))),
        None => (s, None),
    }
}

fn split_at(args: &[char]) -> (r: (Vec<char>, Option<Vec<char>>))
    ensures
        r.0@ == at_parts(args@).0,
        crate::outcome::seen(r.1) == at_parts(args@).1,
{
    let mut s: Vec<char> = Vec::new();
    s.push(' ');
    let mut i: usize = 0;
    assert(s@ =~= seq![' '] + args@.take(0));
    while i < args.len()
        invariant
            i <= args@.len(),
            s@ == seq![' '] + args@.take(i as int),
        decreases args@.len() - i,
    {
        s.push(args[i]);
        i += 1;
        assert(s@ =~= seq![' '] + args@.take(i as int));
    }
    assert(args@.take(args@.len() as int) =~= args@);
    let l = lower(s.as_slice());
    let n: usize = s.len();
    proof {
        reveal_strlit(" at ");
    }
    match position_of(l.as_slice(), " at ") {
        Some(k) => {
            let before = part(s.as_slice(), 0, k);
            let behind = part(s.as_slice(), k + 4, n);
            assert(before@ =~= s@.take(k as int));
            assert(behind@ =~= s@.skip(k + 4));
            (before, Some(behind))
        },
        None => (s, None),
    }
}

/// The coordinate that the token `t` writes. What is neither a keyword nor a
/// number is the middle.
pub open spec fn coord_outcome(t: Seq<char>) -> CoordView {
    let l = crate::text::lowered(t);
    if l == "center"@ {
        CoordView::Center
    } else if l == "left"@ || l == "top"@ {
        CoordView::Start
    } else if l == "right"@ || l == "bottom"@ {
        CoordView::End
    } else {
        match length_outcome(t) {
            Some(n) => if crate::scan::finishes(t, "%"@) {
                CoordView::Percent(n)
            } else {
                CoordView::Px(n)
            },
            None => CoordView::Center,
        }
    }
}

fn parse_coord(t: &[char]) -> (r: Coord)
    ensures
        r@ == coord_outcome(t@),
{
    let l = lower(t);
    if spells(l.as_slice(), "center") {
        return Coord::Center;
    }
    if spells(l.as_slice(), "left") || spells(l.as_slice(), "top") {
        return Coord::Start;
    }
    if spells(l.as_slice(), "right") || spells(l.as_slice(), "bottom") {
        return Coord::End;
    }
    match parse_length_or_percent(t) {
        Some(n) => if ends_with(t, "%") {
            Coord::Percent(n)
        } else {
            Coord::Px(n)
        },
        None => Coord::Center,
    }
}

/// The position that `s` writes: one coordinate, with the middle for the other,
/// or two. What is neither is the middle of the box.
pub open spec fn position_outcome(s: Option<Seq<char>>) -> (CoordView, CoordView) {
    match s {
        None => (CoordView::Center, CoordView::Center),
        Some(s) => {
            let tokens = crate::scan::words(s, Separator::AsciiSpace);
            if tokens.len() == 1 {
                (coord_outcome(tokens[0]), CoordView::Center)
            } else if tokens.len() == 2 {
                (coord_outcome(tokens[0]), coord_outcome(tokens[1]))
            } else {
                (CoordView::Center, CoordView::Center)
            }
        },
    }
}

fn parse_position(s: &Option<Vec<char>>) -> (r: (Coord, Coord))
    ensures
        (r.0@, r.1@) == position_outcome(crate::outcome::seen(*s)),
{
    let s = match s {
        Some(s) => s,
        None => {
            return (Coord::Center, Coord::Center);
        },
    };
    let tokens = split_words(s.as_slice(), Separator::AsciiSpace);
    let ghost all = crate::scan::texts(tokens@);
    let n: usize = tokens.len();
    if n == 1 {
        assert(all[0] == tokens@[0]@);
        (parse_coord(tokens[0].as_slice()), Coord::Center)
    } else if n == 2 {
        assert(all[0] == tokens@[0]@ && all[1] == tokens@[1]@);
        (parse_coord(tokens[0].as_slice()), parse_coord(tokens[1].as_slice()))
    } else {
        (Coord::Center, Coord::Center)
    }
}

/// What the arguments of `circle()` parse to: a radius, which is infinite where
/// it is none, and a position.
pub open spec fn circle_outcome(args: Seq<char>) -> ClipPathView {
    let (radius, position) = at_parts(args);
    ClipPathView::Circle {
        radius: length_outcome(crate::text::trimmed(radius)),
        center: position_outcome(position),
    }
}

/// Parses the arguments of `circle()`.
pub fn parse_circle(args: &[char]) -> (r: ClipPath)
    ensures
        r@ == circle_outcome(args@),
{
    let (radius, position) = split_at(args);
    let (cx, cy) = parse_position(&position);
    ClipPath::Circle {
        radius: parse_length_or_percent(trim(radius.as_slice()).as_slice()),
        cx,
        cy,
    }
}

/// The radii of an ellipse that `s` writes: both infinite where there are none,
/// and the second one zero where there is only one.
pub open spec fn radii_outcome(s: Seq<char>) -> Option<(Option<Seq<char>>, Option<Seq<char>>)> {
    let tokens = crate::scan::words(s, Separator::AsciiSpace);
    if crate::text::trimmed(s).len() == 0 {
        Some((None, None))
    } else if tokens.len() == 0 {
        None
    } else {
        match (
            length_outcome(tokens[0]),
            if tokens.len() == 1 {
                Some("0"@)
            } else {
                length_outcome(tokens[1])
            },
        ) {
            (Some(rx), Some(ry)) => Some((Some(rx), Some(ry))),
            _ => None,
        }
    }
}

/// What the arguments of `ellipse()` parse to.
pub open spec fn ellipse_outcome(args: Seq<char>) -> Option<ClipPathView> {
    let (radii, position) = at_parts(args);
    match radii_outcome(radii) {
        Some((rx, ry)) => Some(
            ClipPathView::Ellipse { rx, ry, center: position_outcome(position) },
        ),
        None => None,
    }
}

fn parse_radii(s: &[char]) -> (r: Option<(Option<Literal>, Option<Literal>)>)
    ensures
        match (r, radii_outcome(s@)) {
            (Some((rx, ry)), Some(t)) => crate::outcome::seen(rx) == t.0 && crate::outcome::seen(ry)
                == t.1,
            (None, None) => true,
            _ => false,
        },
{
    let tokens = split_words(s, Separator::AsciiSpace);
    let ghost all = crate::scan::texts(tokens@);
    if trim(s).len() == 0 {
        return Some((None, None));
    }
    let n: usize = tokens.len();
    if n == 0 {
        return None;
    }
    assert(all[0] == tokens@[0]@);
    let rx = parse_length_or_percent(tokens[0].as_slice());
    let ry = if n == 1 {
        Some(Literal::zero())
    } else {
        assert(all[1] == tokens@[1]@);
        parse_length_or_percent(tokens[1].as_slice())
    };
    if rx.is_some() && ry.is_some() {
        Some((rx, ry))
    } else {
        None
    }
}

/// Parses the arguments of `ellipse()`.
pub fn parse_ellipse(args: &[char]) -> (r: Option<ClipPath>)
    ensures
        crate::outcome::seen(r) == ellipse_outcome(args@),
{
    let (radii, position) = split_at(args);
    match parse_radii(radii.as_slice()) {
        Some((rx, ry)) => {
            let (cx, cy) = parse_position(&position);
            Some(ClipPath::Ellipse { rx, ry, cx, cy })
        },
        None => None,
    }
}

/// What the arguments of `inset()` parse to: one to four margins, and radii
/// behind the word `round`. Radii that cannot be read are none.
pub open spec fn inset_outcome(args: Seq<char>) -> Option<ClipPathView> {
    let (margins, radius) = match crate::scan::find_text(
        crate::text::lowered(args),
        " round "@,
    ) {
        Some(i) => (args.take(i), radius_outcome(args.skip(i + 7))),
        None => (args, None),
    };
    match sides_outcome(margins) {
        Some(sides) => Some(
            ClipPathView::Inset {
                sides,
                radius: match radius {
                    Some(r) => r,
                    None => square_corners(),
                },
            },
        ),
        None => None,
    }
}

/// Parses the arguments of `inset()`.
pub fn parse_inset(args: &[char]) -> (r: Option<ClipPath>)
    ensures
        crate::outcome::seen(r) == inset_outcome(args@),
{
    let l = lower(args);
    let n: usize = args.len();
    proof {
        reveal_strlit(" round ");
    }
    let (margins, radius) = match position_of(l.as_slice(), " round ") {
        Some(i) => {
            let margins = part(args, 0, i);
            let behind = part(args, i + 7, n);
            assert(margins@ =~= args@.take(i as int));
            assert(behind@ =~= args@.skip(i + 7));
            (margins, parse_border_radius(behind.as_slice()))
        },
        None => {
            let margins = part(args, 0, n);
            assert(margins@ =~= args@);
            (margins, None)
        },
    };
    match parse_sides(margins.as_slice()) {
        Some(f) => Some(
            ClipPath::Inset {
                top: f.a,
                right: f.b,
                bottom: f.c,
                left: f.d,
                radius: match radius {
                    Some(r) => r,
                    None => BorderRadius::zero(),
                },
            },
        ),
        None => None,
    }
}

/// The points that a list of numbers gives, two by two. A single number at the
/// end gives none.
pub open spec fn paired(list: Seq<Seq<char>>) -> Seq<(Seq<char>, Seq<char>)> {
    Seq::new(list.len() / 2, |i: int| (list[2 * i], list[2 * i + 1]))
}

/// The rule that the arguments of `polygon()` begin with, and the rest of them.
pub open spec fn rule_parts(args: Seq<char>) -> Option<(FillRule, Seq<char>)> {
    let l = crate::text::lowered(args);
    if crate::scan::begins(l, "nonzero"@) || crate::scan::begins(l, "evenodd"@) {
        match crate::scan::find_text(args, ","@) {
            Some(i) => match FillRule::named(
                crate::text::keyword_form(crate::text::trimmed(args.take(i))),
            ) {
                Some(rule) => Some((rule, args.skip(i + 1))),
                None => None,
            },
            None => None,
        }
    } else {
        Some((FillRule::NonZero, args))
    }
}

/// What the arguments of `polygon()` parse to: at least three points, and a
/// rule with a comma before them.
pub open spec fn polygon_outcome(args: Seq<char>) -> Option<ClipPathView> {
    match rule_parts(args) {
        None => None,
        Some((fill_rule, rest)) => match lengths_outcome(
            crate::scan::trimmed_items(crate::scan::words(rest, Separator::AsciiSpaceOrComma)),
        ) {
            None => None,
            Some(list) => if list.len() / 2 < 3 {
                None
            } else {
                Some(ClipPathView::Polygon { points: paired(list), fill_rule })
            },
        },
    }
}

fn split_rule(args: &[char]) -> (r: Option<(FillRule, Vec<char>)>)
    ensures
        match (r, rule_parts(args@)) {
            (Some((rule, rest)), Some(t)) => rule == t.0 && rest@ == t.1,
            (None, None) => true,
            _ => false,
        },
{
    let l = lower(args);
    let n: usize = args.len();
    if starts_with(l.as_slice(), "nonzero") || starts_with(l.as_slice(), "evenodd") {
        proof {
            reveal_strlit(",");
        }
        match position_of(args, ",") {
            Some(i) => {
                let word = part(args, 0, i);
                let rest = part(args, i + 1, n);
                assert(word@ =~= args@.take(i as int));
                assert(rest@ =~= args@.skip(i + 1));
                let text = string_of(trim(word.as_slice()).as_slice());
                match FillRule::parse(text.as_str()) {
                    Some(rule) => Some((rule, rest)),
                    None => None,
                }
            },
            None => None,
        }
    } else {
        let rest = part(args, 0, n);
        assert(rest@ =~= args@);
        Some((FillRule::NonZero, rest))
    }
}

fn pair_up(list: &Vec<Literal>) -> (r: Vec<Point>)
    ensures
        point_views(r@) == paired(crate::number::literals(list@)),
{
    let ghost all = crate::number::literals(list@);
    let n: usize = list.len();
    let mut points: Vec<Point> = Vec::new();
    let mut i: usize = 0;
    assert(point_views(points@) =~= paired(all).take(0));
    while i < n / 2
        invariant
            i <= n / 2,
            n == list@.len(),
            all == crate::number::literals(list@),
            point_views(points@) == paired(all).take(i as int),
        decreases n / 2 - i,
    {
        let point = Point { x: list[2 * i].duplicate(), y: list[2 * i + 1].duplicate() };
        let ghost before = points@;
        let ghost view = point@;
        points.push(point);
        assert(point_views(points@) =~= point_views(before).push(view));
        i += 1;
        assert(point_views(points@) =~= paired(all).take(i as int));
    }
    assert(paired(all).take((n / 2) as int) =~= paired(all));
    points
}

/// Parses the arguments of `polygon()`.
pub fn parse_polygon(args: &[char]) -> (r: Option<ClipPath>)
    ensures
        crate::outcome::seen(r) == polygon_outcome(args@),
{
    let (fill_rule, rest) = match split_rule(args) {
        Some(t) => t,
        None => {
            return None;
        },
    };
    let words = split_words(rest.as_slice(), Separator::AsciiSpaceOrComma);
    let items = trim_items(&words);
    let list = match parse_lengths(&items) {
        Some(list) => list,
        None => {
            return None;
        },
    };
    if list.len() / 2 < 3 {
        return None;
    }
    Some(ClipPath::Polygon { points: pair_up(&list), fill_rule })
}

/// What the text `value` parses to as the value of `clip-path`.
pub open spec fn clip_path_outcome(value: Seq<char>) -> Option<ClipPathView> {
    let v = crate::text::trimmed(value);
    if crate::text::lowered(v) == "none"@ {
        Some(ClipPathView::Unclipped)
    } else {
        match call_parts(v) {
            None => None,
            Some((name, args)) => {
                let n = crate::text::lowered(name);
                if n == "inset"@ {
                    inset_outcome(args)
                } else if n == "circle"@ {
                    Some(circle_outcome(args))
                } else if n == "ellipse"@ {
                    ellipse_outcome(args)
                } else if n == "polygon"@ {
                    polygon_outcome(args)
                } else {
                    None
                }
            },
        }
    }
}

/// Parses the value of `clip-path`: `none`, or one of the shapes `inset()`,
/// `circle()`, `ellipse()` and `polygon()`. A box behind the shape is dropped.
pub fn parse_clip_path(value: &str) -> (r: Option<ClipPath>)
    ensures
        crate::outcome::seen(r) == clip_path_outcome(value@),
{
    let chars = chars_of(value);
    let v = trim(chars.as_slice());
    let l = lower(v.as_slice());
    if spells(l.as_slice(), "none") {
        return Some(ClipPath::Unclipped);
    }
    let (name, args) = match split_function(v.as_slice()) {
        Some(t) => t,
        None => {
            return None;
        },
    };
    let n = lower(name.as_slice());
    if spells(n.as_slice(), "inset") {
        parse_inset(args.as_slice())
    } else if spells(n.as_slice(), "circle") {
        Some(parse_circle(args.as_slice()))
    } else if spells(n.as_slice(), "ellipse") {
        parse_ellipse(args.as_slice())
    } else if spells(n.as_slice(), "polygon") {
        parse_polygon(args.as_slice())
    } else {
        None
    }
}

/// How the ray from a point meets one edge of a polygon.
#[derive(Clone, Copy, Debug, PartialEq, Eq, Structural)]
pub enum Crossing {
    /// Not at all.
    Missed,
    /// Where the edge runs one way.
    Upward,
    /// Where the edge runs the other way.
    Downward,
}

/// How many of the edges the ray crosses.
pub open spec fn crossed(edges: Seq<Crossing>) -> nat
    decreases edges.len(),
{
    if edges.len() == 0 {
        0
    } else {
        crossed(edges.drop_last()) + if edges.last() == Crossing::Missed {
            0nat
        } else {
            1nat
        }
    }
}

/// How many times the outline winds around the point.
pub open spec fn winding(edges: Seq<Crossing>) -> int
    decreases edges.len(),
{
    if edges.len() == 0 {
        0
    } else {
        winding(edges.drop_last()) + match edges.last() {
            Crossing::Missed => 0int,
            Crossing::Upward => 1int,
            Crossing::Downward => -1int,
        }
    }
}

impl FillRule {
    /// A point lies inside, by how its ray meets the edges.
    pub open spec fn inside(self, edges: Seq<Crossing>) -> bool {
        match self {
            FillRule::NonZero => winding(edges) != 0,
            FillRule::EvenOdd => crossed(edges) % 2 == 1,
        }
    }

    /// Whether a point lies inside, by how its ray meets the edges.
    pub fn is_inside(self, edges: &[Crossing]) -> (r: bool)
        ensures
            r == self.inside(edges@),
    {
        let n: usize = edges.len();
        let mut odd = false;
        let mut turns: i128 = 0;
        let mut i: usize = 0;
        assert(edges@.take(0) =~= Seq::<Crossing>::empty());
        while i < n
            invariant
                i <= n == edges@.len(),
                odd == (crossed(edges@.take(i as int)) % 2 == 1),
                turns == winding(edges@.take(i as int)),
                -(i as int) <= turns <= i,
            decreases n - i,
        {
            assert(edges@.take(i + 1).drop_last() =~= edges@.take(i as int));
            match edges[i] {
                Crossing::Missed => {},
                Crossing::Upward => {
                    odd = !odd;
                    turns = turns + 1;
                },
                Crossing::Downward => {
                    odd = !odd;
                    turns = turns - 1;
                },
            }
            i += 1;
        }
        assert(edges@.take(n as int) =~= edges@);
        match self {
            FillRule::NonZero => turns != 0,
            FillRule::EvenOdd => odd,
        }
    }
}

/// What a point has to do with the shape of a clip path.
pub struct Hit {
    /// Whether it lies in the shape, where that is no polygon.
    pub in_shape: bool,
    /// How its ray meets each edge of the polygon, where the shape is one.
    pub edges: Vec<Crossing>,
}

impl ClipPath {
    /// The path keeps a point. Without a shape it keeps every one; a polygon
    /// has at least three corners.
    pub open spec fn keeps(self, hit: Hit) -> bool {
        match self {
            ClipPath::Unclipped => true,
            ClipPath::Polygon { points, fill_rule } => points@.len() >= 3 && fill_rule.inside(
                hit.edges@,
            ),
            _ => hit.in_shape,
        }
    }

    /// Whether the path keeps a point.
    pub fn contains(&self, hit: &Hit) -> (r: bool)
        ensures
            r == self.keeps(*hit),
    {
        match self {
            ClipPath::Unclipped => true,
            ClipPath::Polygon { points, fill_rule } => points.len() >= 3 && fill_rule.is_inside(
                hit.edges.as_slice(),
            ),
            _ => hit.in_shape,
        }
    }
}

/// A polygon keeps by the even-odd rule only what it keeps by the other one; with
/// fewer than three corners it keeps nothing. Without a shape every point is
/// kept.
pub proof fn polygons_keep_less_by_even_odd(points: Vec<Point>, hit: Hit)
    ensures
        (ClipPath::Polygon { points, fill_rule: FillRule::EvenOdd }).keeps(hit) ==> (
        ClipPath::Polygon { points, fill_rule: FillRule::NonZero }).keeps(hit),
        points@.len() < 3 ==> !(ClipPath::Polygon { points, fill_rule: FillRule::EvenOdd }).keeps(
            hit,
        ) && !(ClipPath::Polygon { points, fill_rule: FillRule::NonZero }).keeps(hit),
        ClipPath::Unclipped.keeps(hit),
{
    even_odd_is_stricter(hit.edges@);
}

/// What lies inside by the even-odd rule lies inside by the other one, and what
/// no edge is crossed from lies outside by both.
pub proof fn even_odd_is_stricter(edges: Seq<Crossing>)
    ensures
        FillRule::EvenOdd.inside(edges) ==> FillRule::NonZero.inside(edges),
        crossed(edges) == 0 ==> !FillRule::NonZero.inside(edges),
{
    winding_has_parity(edges);
}

proof fn winding_has_parity(edges: Seq<Crossing>)
    ensures
        winding(edges) % 2 == crossed(edges) as int % 2,
        crossed(edges) == 0 ==> winding(edges) == 0,
    decreases edges.len(),
{
    if edges.len() > 0 {
        winding_has_parity(edges.drop_last());
    }
}

/// How many edges are met in a given way.
pub open spec fn met(edges: Seq<Crossing>, how: Crossing) -> nat {
    edges.filter(|c: Crossing| c == how).len()
}

/// A point lies inside a polygon by the one rule where as many edges that run up as
/// edges that run down are not met, and by the other where the number of edges that
/// are met is odd.
pub proof fn rules_count_edges(edges: Seq<Crossing>)
    ensures
        FillRule::NonZero.inside(edges) <==> met(edges, Crossing::Upward) != met(
            edges,
            Crossing::Downward,
        ),
        FillRule::EvenOdd.inside(edges) <==> (met(edges, Crossing::Upward) + met(
            edges,
            Crossing::Downward,
        )) % 2 == 1,
{
    edges_are_counted(edges);
}

proof fn edges_are_counted(edges: Seq<Crossing>)
    ensures
        crossed(edges) == met(edges, Crossing::Upward) + met(edges, Crossing::Downward),
        winding(edges) == met(edges, Crossing::Upward) - met(edges, Crossing::Downward),
    decreases edges.len(),
{
    reveal(Seq::filter);
    if edges.len() > 0 {
        edges_are_counted(edges.drop_last());
    }
}

/// A polygon looks only at how the edges are met, and any other shape only at whether
/// the point lies in it.
pub proof fn shapes_look_at_their_own(shape: ClipPath, hit: Hit)
    ensures
        shape is Inset || shape is Circle || shape is Ellipse ==> (shape.keeps(hit)
            <==> hit.in_shape),
        shape matches ClipPath::Polygon { points, fill_rule } ==> (shape.keeps(hit)
            <==> points@.len() >= 3 && if fill_rule == FillRule::NonZero {
            met(hit.edges@, Crossing::Upward) != met(hit.edges@, Crossing::Downward)
        } else {
            (met(hit.edges@, Crossing::Upward) + met(hit.edges@, Crossing::Downward)) % 2 == 1
        }),
{
    rules_count_edges(hit.edges@);
}

/// What is seen of a shape is what its fields hold: the sides from the top clockwise,
/// the corners from the top left clockwise, and across before down.
pub proof fn shapes_show_their_fields(shape: ClipPath)
    ensures
        shape matches ClipPath::Inset { top, right, bottom, left, radius } ==> shape@ == (
        ClipPathView::Inset {
            sides: (top@, right@, bottom@, left@),
            radius: BorderRadiusView {
                h: (
                    radius.top_left.h@,
                    radius.top_right.h@,
                    radius.bottom_right.h@,
                    radius.bottom_left.h@,
                ),
                v: (
                    radius.top_left.v@,
                    radius.top_right.v@,
                    radius.bottom_right.v@,
                    radius.bottom_left.v@,
                ),
            },
        }),
        shape matches ClipPath::Circle { radius, cx, cy } ==> shape@ == (ClipPathView::Circle {
            radius: crate::outcome::seen(radius),
            center: (cx@, cy@),
        }),
        shape matches ClipPath::Ellipse { rx, ry, cx, cy } ==> shape@ == (ClipPathView::Ellipse {
            rx: crate::outcome::seen(rx),
            ry: crate::outcome::seen(ry),
            center: (cx@, cy@),
        }),
{
}

/// Every box is found by its keyword.
pub proof fn keywords_name_their_boxes(b: GeometryBox)
    ensures
        GeometryBox::named(crate::text::keyword_form(b.name())) == Some(b),
{
    reveal_strlit("border-box");
    reveal_strlit("padding-box");
    reveal_strlit("content-box");
    reveal_strlit("margin-box");
    reveal_strlit("fill-box");
    reveal_strlit("stroke-box");
    reveal_strlit("view-box");
    crate::text::keyword_form_of_keyword(b.name());
    assert("border-box"@.len() == 10 && "padding-box"@.len() == 11 && "content-box"@.len() == 11
        && "margin-box"@.len() == 10 && "fill-box"@.len() == 8 && "stroke-box"@.len() == 10
        && "view-box"@.len() == 8);
    assert("border-box"@[0] == 'b' && "margin-box"@[0] == 'm' && "stroke-box"@[0] == 's');
    assert("padding-box"@[0] == 'p' && "content-box"@[0] == 'c');
    assert("fill-box"@[0] == 'f' && "view-box"@[0] == 'v');
}

/// Both rules are found by their keywords.
pub proof fn keywords_name_their_rules(r: FillRule)
    ensures
        FillRule::named(crate::text::keyword_form(r.name())) == Some(r),
{
    reveal_strlit("nonzero");
    reveal_strlit("evenodd");
    crate::text::keyword_form_of_keyword(r.name());
    assert("nonzero"@[0] == 'n' && "evenodd"@[0] == 'e');
}

/// A polygon has at least three points.
pub proof fn polygons_have_three_points(args: Seq<char>)
    ensures
        polygon_outcome(args) matches Some(ClipPathView::Polygon { points, fill_rule })
            ==> points.len() >= 3,
{
}

proof fn first_stays_first(s: Seq<char>, u: Seq<char>, t: Seq<char>)
    requires
        crate::scan::find_text(s, t) is Some,
    ensures
        crate::scan::find_text(s + u, t) == crate::scan::find_text(s, t),
    decreases s.len(),
{
    assert((s + u).take(t.len() as int) =~= s.take(t.len() as int));
    if s.take(t.len() as int) != t {
        assert((s + u).skip(1) =~= s.skip(1) + u);
        first_stays_first(s.skip(1), u, t);
    }
}

proof fn last_stays_last(s: Seq<char>, u: Seq<char>, c: char)
    requires
        s.len() > 0,
        s.last() == c,
        !u.contains(c),
    ensures
        crate::scan::find_last(s + u, c) == Some(s.len() - 1),
    decreases u.len(),
{
    if u.len() == 0 {
        assert(s + u =~= s);
    } else {
        assert((s + u).drop_last() =~= s + u.drop_last());
        assert(u.contains(u.last()));
        assert forall|i: int| 0 <= i < u.drop_last().len() implies u.drop_last()[i] != c by {
            assert(u.contains(u[i]));
        }
        last_stays_last(s, u.drop_last(), c);
    }
}

/// What stands behind a shape, such as the box it refers to, does not change
/// the shape.
pub proof fn boxes_behind_a_shape_are_dropped(shape: Seq<char>, behind: Seq<char>)
    requires
        call_parts(shape) is Some,
        shape.len() > 0,
        shape.last() == ')',
        !behind.contains(')'),
    ensures
        call_parts(shape + behind) == call_parts(shape),
{
    first_stays_first(shape, behind, "("@);
    last_stays_last(shape, behind, ')');
    last_stays_last(shape, Seq::empty(), ')');
    assert(shape + Seq::<char>::empty() =~= shape);
    first_is_there(shape, "("@);
    let open = crate::scan::find_text(shape, "("@)->Some_0;
    reveal_strlit("(");
    assert(shape.subrange(open, open + 1)[0] == '(');
    assert((shape + behind).take(open) =~= shape.take(open));
    assert((shape + behind).subrange(open + 1, shape.len() - 1) =~= shape.subrange(
        open + 1,
        shape.len() - 1,
    ));
}

proof fn paren_ends_a_name(name: Seq<char>, rest: Seq<char>)
    requires
        !name.contains('('),
        rest.len() > 0,
        rest[0] == '(',
    ensures
        crate::scan::find_text(name + rest, "("@) == Some(name.len() as int),
    decreases name.len(),
{
    reveal_strlit("(");
    let v = name + rest;
    if name.len() == 0 {
        assert(v =~= rest);
        assert(v.take(1) =~= "("@);
    } else {
        assert(name.contains(name[0]));
        assert(v.take(1)[0] == name[0]);
        assert(v.skip(1) =~= name.skip(1) + rest);
        assert forall|i: int| 0 <= i < name.skip(1).len() implies name.skip(1)[i] != '(' by {
            assert(name.contains(name[i + 1]));
        }
        paren_ends_a_name(name.skip(1), rest);
    }
}

/// A call is a shape by its name alone, in upper or lower case, and the shape
/// is that of its arguments.
pub proof fn shapes_are_called_by_name(name: Seq<char>, args: Seq<char>)
    requires
        name.len() > 0,
        !name.contains('('),
        !crate::text::is_white_space(name[0]),
        !crate::text::is_white_space(name.last()),
    ensures
        clip_path_outcome(name + seq!['('] + args + seq![')']) == {
            let n = crate::text::lowered(name);
            if n == "inset"@ {
                inset_outcome(args)
            } else if n == "circle"@ {
                Some(circle_outcome(args))
            } else if n == "ellipse"@ {
                ellipse_outcome(args)
            } else if n == "polygon"@ {
                polygon_outcome(args)
            } else {
                None
            }
        },
{
    let rest = seq!['('] + args + seq![')'];
    let v = name + seq!['('] + args + seq![')'];
    assert(v =~= name + rest);
    paren_ends_a_name(name, rest);
    assert(crate::text::trimmed(v) == v);
    assert(crate::text::trimmed(name) == name);
    reveal_strlit("none");
    assert(crate::text::lowered(v)[name.len() as int] == '(');
    assert("none"@[0] == 'n' && "none"@[1] == 'o' && "none"@[2] == 'n' && "none"@[3] == 'e');
    assert(crate::text::lowered(v) != "none"@) by {
        if crate::text::lowered(v) == "none"@ {
            assert("none"@.len() == 4 && v.len() == name.len() + args.len() + 2);
            assert(name.len() == 1 || name.len() == 2);
        }
    }
    assert(v.take(name.len() as int) =~= name);
    assert(v.subrange(name.len() as int + 1, v.len() - 1) =~= args);
}

/// The keywords of a position name the edges they mean, in any case: `left` and
/// `top` are where an axis starts, `right` and `bottom` where it ends, and
/// `center` is its middle. So opposite keywords are opposite edges.
pub proof fn keywords_name_their_edges(t: Seq<char>)
    ensures
        ({
            let l = crate::text::lowered(t);
            &&& l == "left"@ ==> coord_outcome(t) == CoordView::Start
            &&& l == "top"@ ==> coord_outcome(t) == CoordView::Start
            &&& l == "right"@ ==> coord_outcome(t) == CoordView::End
            &&& l == "bottom"@ ==> coord_outcome(t) == CoordView::End
            &&& l == "center"@ ==> coord_outcome(t) == CoordView::Center
            &&& coord_outcome(t) == CoordView::Start ==> l == "left"@ || l == "top"@
            &&& coord_outcome(t) == CoordView::End ==> l == "right"@ || l == "bottom"@
        }),
{
    reveal_strlit("left");
    reveal_strlit("top");
    reveal_strlit("right");
    reveal_strlit("bottom");
    reveal_strlit("center");
    assert("left"@.len() == 4 && "top"@.len() == 3 && "right"@.len() == 5);
    assert("bottom"@[0] == 'b' && "center"@[0] == 'c');
}

/// Each box has the keyword of its own, in any case and with white space around
/// it; what is none of them is no box.
pub proof fn boxes_have_their_keywords(s: Seq<char>)
    ensures
        ({
            let k = crate::text::lowered(crate::text::trimmed(s));
            let r = GeometryBox::named(crate::text::keyword_form(s));
            &&& r == Some(GeometryBox::BorderBox) <==> k == "border-box"@
            &&& r == Some(GeometryBox::PaddingBox) <==> k == "padding-box"@
            &&& r == Some(GeometryBox::ContentBox) <==> k == "content-box"@
            &&& r == Some(GeometryBox::MarginBox) <==> k == "margin-box"@
            &&& r == Some(GeometryBox::FillBox) <==> k == "fill-box"@
            &&& r == Some(GeometryBox::StrokeBox) <==> k == "stroke-box"@
            &&& r == Some(GeometryBox::ViewBox) <==> k == "view-box"@
        }),
{
    reveal_strlit("border-box");
    reveal_strlit("padding-box");
    reveal_strlit("content-box");
    reveal_strlit("margin-box");
    reveal_strlit("fill-box");
    reveal_strlit("stroke-box");
    reveal_strlit("view-box");
    assert("border-box"@.len() == 10);
    assert("padding-box"@.len() == 11);
    assert("content-box"@.len() == 11);
    assert("margin-box"@.len() == 10);
    assert("fill-box"@.len() == 8);
    assert("stroke-box"@.len() == 10);
    assert("view-box"@.len() == 8);
    assert("border-box"@[0] == 'b' && "margin-box"@[0] == 'm');
    assert("border-box"@[0] == 'b' && "stroke-box"@[0] == 's');
    assert("padding-box"@[0] == 'p' && "content-box"@[0] == 'c');
    assert("margin-box"@[0] == 'm' && "stroke-box"@[0] == 's');
    assert("fill-box"@[0] == 'f' && "view-box"@[0] == 'v');
}

/// Both rules have the keywords of their own, in any case and with white space
/// around them; what is neither is no rule.
pub proof fn rules_have_their_keywords(s: Seq<char>)
    ensures
        ({
            let k = crate::text::lowered(crate::text::trimmed(s));
            let r = FillRule::named(crate::text::keyword_form(s));
            &&& r == Some(FillRule::NonZero) <==> k == "nonzero"@
            &&& r == Some(FillRule::EvenOdd) <==> k == "evenodd"@
        }),
{
    reveal_strlit("nonzero");
    reveal_strlit("evenodd");
    assert("nonzero"@.len() == 7);
    assert("evenodd"@.len() == 7);
    assert("nonzero"@[0] == 'n' && "evenodd"@[0] == 'e');
}

} // verus!
