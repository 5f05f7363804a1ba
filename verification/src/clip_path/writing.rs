//! Shapes as they are written.

use vstd::prelude::*;

use crate::clip_path::{BorderRadiusView, ClipPathView, CoordView, FillRule};
use crate::scan::Separator;

verus! {

/// Numbers in digits.
pub open spec fn all_in_digits(list: Seq<Seq<char>>) -> bool {
    forall|i: int| 0 <= i < list.len() ==> crate::number::in_digits(#[trigger] list[i])
}

/// A number of pixels.
pub open spec fn pixels(n: Seq<char>) -> Seq<char> {
    n + "px"@
}

/// Numbers of pixels.
pub open spec fn all_pixels(list: Seq<Seq<char>>) -> Seq<Seq<char>> {
    Seq::new(list.len(), |i: int| pixels(list[i]))
}

/// A word of a position.
pub open spec fn is_word(w: Seq<char>) -> bool {
    w.len() > 0 && crate::scan::unparted(w, Separator::AsciiSpace)
}

proof fn plain_ends(n: Seq<char>, unit: Seq<char>)
    requires
        crate::number::in_digits(n),
        unit == "px"@ || unit == "%"@,
    ensures
        crate::text::trimmed(n + unit) == n + unit,
        crate::text::trimmed(n) == n,
        crate::scan::unparted(n + unit, Separator::AsciiSpaceOrComma),
        crate::scan::unparted(n + unit, Separator::AsciiSpace),
{
    reveal_strlit("px");
    reveal_strlit("%");
    let t = n + unit;
    assert(t[0] == n[0]);
    assert(!crate::text::is_white_space(n[0]) && !crate::text::is_white_space(n[n.len() - 1]));
    assert(t[t.len() - 1] == unit[unit.len() - 1]);
    assert forall|i: int| 0 <= i < t.len() implies !Separator::AsciiSpaceOrComma.parts(
        #[trigger] t[i],
    ) && !Separator::AsciiSpace.parts(t[i]) by {
        if i < n.len() {
            assert(t[i] == n[i]);
        } else {
            assert(t[i] == unit[i - n.len()]);
        }
    }
}

/// A number with the sign of a percentage or with pixels behind it is that number
/// of hundredths or of pixels, as a length and as a coordinate.
pub proof fn lengths_read_back(n: Seq<char>)
    requires
        crate::number::in_digits(n),
    ensures
        crate::clip_path::length_outcome(n + "px"@) == Some(n),
        crate::clip_path::length_outcome(n + "%"@) == Some(n),
        crate::clip_path::coord_outcome(n + "px"@) == CoordView::Px(n),
        crate::clip_path::coord_outcome(n + "%"@) == CoordView::Percent(n),
{
    reveal_strlit("px");
    reveal_strlit("%");
    let (p, q) = (n + "px"@, n + "%"@);
    plain_ends(n, "px"@);
    plain_ends(n, "%"@);
    assert(p.skip(p.len() - 2) =~= "px"@);
    assert(p.take(p.len() - 2) =~= n);
    assert(q.skip(q.len() - 1) =~= "%"@);
    assert(q.take(q.len() - 1) =~= n);
    assert(!crate::scan::finishes(q, "px"@)) by {
        if q.len() >= 2 {
            assert(q.skip(q.len() - 2)[1] == '%');
        }
    }
    assert(!crate::scan::finishes(p, "%"@)) by {
        assert(p.skip(p.len() - 1)[0] == 'x');
    }
    reveal_strlit("center");
    reveal_strlit("left");
    reveal_strlit("top");
    reveal_strlit("right");
    reveal_strlit("bottom");
    let (l, m) = (crate::text::lowered(p), crate::text::lowered(q));
    assert(l[l.len() - 1] == 'x' && m[m.len() - 1] == '%');
    assert("center"@[5] == 'r' && "left"@[3] == 't' && "top"@[2] == 'p' && "right"@[4] == 't'
        && "bottom"@[5] == 'm');
}

proof fn found_there(s: Seq<char>, t: Seq<char>, p: int)
    requires
        0 <= p <= s.len() - t.len(),
        s.subrange(p, p + t.len()) == t,
        forall|k: int| 0 <= k < p ==> #[trigger] s.subrange(k, k + t.len()) != t,
    ensures
        crate::scan::find_text(s, t) == Some(p),
{
    crate::scan::first_places_are_found(s, t);
    if let Some(i) = crate::scan::find_text(s, t) {
        if i < p {
            assert(s.subrange(i, i + t.len()) == t);
        }
        if i > p {
            assert(s.subrange(p, p + t.len()) != t);
        }
    }
}

/// `s` neither holds the letter `a` behind a space nor ends with a space.
spec fn without_at(s: Seq<char>) -> bool {
    forall|i: int|
        0 <= i < s.len() && #[trigger] s[i] == ' ' ==> i + 1 < s.len() && s[i + 1] != 'a' && s[i
            + 1] != 'A'
}

proof fn at_is_found(before: Seq<char>, behind: Seq<char>)
    requires
        without_at(before),
        before.len() == 0 || before[0] != 'a' && before[0] != 'A',
    ensures
        crate::clip_path::at_parts(before + " at "@ + behind) == (
            seq![' '] + before,
            Some(behind),
        ),
{
    reveal_strlit(" at ");
    let args = before + " at "@ + behind;
    let s = seq![' '] + args;
    let l = crate::text::lowered(s);
    let p = before.len() as int + 1;
    if before.len() == 0 {
    }
    assert(s[p] == ' ' && s[p + 1] == 'a' && s[p + 2] == 't' && s[p + 3] == ' ');
    assert(l.subrange(p, p + 4) =~= " at "@);
    assert forall|k: int| 0 <= k < p implies #[trigger] l.subrange(k, k + " at "@.len())
        != " at "@ by {
        let u = l.subrange(k, k + 4);
        assert(u[0] == l[k] && u[1] == l[k + 1]);
        if k == 0 {
            if before.len() > 0 {
                assert(s[1] == before[0]);
            } else {
                assert(p == 1);
                assert(u[2] == l[2]);
                assert(s[1] == ' ');
            }
        } else {
            assert(s[k] == before[k - 1]);
            if before[k - 1] == ' ' {
                assert(s[k + 1] == before[k]);
            } else {
                assert(l[k] != ' ');
            }
        }
    }
    found_there(l, " at "@, p);
    assert(s.take(p) =~= seq![' '] + before);
    assert(s.skip(p + 4) =~= behind);
}

proof fn no_at_is_found(before: Seq<char>)
    requires
        without_at(before),
        before.len() == 0 || before[0] != 'a' && before[0] != 'A',
    ensures
        crate::clip_path::at_parts(before) == (seq![' '] + before, None::<Seq<char>>),
{
    reveal_strlit(" at ");
    let s = seq![' '] + before;
    let l = crate::text::lowered(s);
    crate::scan::first_places_are_found(l, " at "@);
    if let Some(i) = crate::scan::find_text(l, " at "@) {
        let u = l.subrange(i, i + 4);
        assert(u == " at "@);
        assert(u[0] == l[i] && u[1] == l[i + 1] && l[i] == ' ' && l[i + 1] == 'a');
        assert(s[i] == ' ');
        if i == 0 {
            assert(s[1] == before[0]);
        } else {
            assert(before[i - 1] == ' ');
            assert(s[i + 1] == before[i]);
        }
    }
}

/// A position is one coordinate or two: first across, then down. One alone is
/// across, and the other is the middle.
pub proof fn positions_read_back(x: Seq<char>, y: Seq<char>)
    requires
        is_word(x),
        is_word(y),
    ensures
        crate::clip_path::position_outcome(Some(x + " "@ + y)) == (
            crate::clip_path::coord_outcome(x),
            crate::clip_path::coord_outcome(y),
        ),
        crate::clip_path::position_outcome(Some(x)) == (
            crate::clip_path::coord_outcome(x),
            CoordView::Center,
        ),
        crate::clip_path::position_outcome(None) == (CoordView::Center, CoordView::Center),
{
    reveal_strlit(" ");
    crate::scan::words_stay_whole(x, Separator::AsciiSpace);
    crate::scan::words_stay_whole(y, Separator::AsciiSpace);
    crate::scan::separators_part_words(x, ' ', y, Separator::AsciiSpace);
    assert(x.push(' ') + y =~= x + " "@ + y);
    assert(seq![x] + seq![y] =~= seq![x, y]);
}

proof fn one_length_is_trimmed(n: Seq<char>)
    requires
        crate::number::in_digits(n),
    ensures
        crate::text::trimmed(seq![' '] + pixels(n)) == pixels(n),
        without_at(pixels(n)),
        pixels(n)[0] != 'a' && pixels(n)[0] != 'A',
{
    reveal_strlit("px");
    plain_ends(n, "px"@);
    let t = pixels(n);
    assert(t[0] == n[0]);
    assert(t[t.len() - 1] == 'x');
    assert(seq![' '] + t =~= seq![' '] + t + Seq::<char>::empty());
    crate::text::trimming_takes_the_ends(seq![' '], t, Seq::empty());
    assert forall|i: int| 0 <= i < t.len() implies #[trigger] t[i] != ' ' by {
        assert(!Separator::AsciiSpace.parts(t[i]));
    }
}

/// A circle has the radius that is written before the word `at`, and the middle
/// that is written behind it. Without that word it lies in the middle of the box,
/// and without a radius it has none.
pub proof fn circles_read_back(r: Seq<char>, x: Seq<char>, y: Seq<char>)
    requires
        crate::number::in_digits(r),
        is_word(x),
        is_word(y),
    ensures
        crate::clip_path::circle_outcome(pixels(r) + " at "@ + (x + " "@ + y)) == (
        ClipPathView::Circle {
            radius: Some(r),
            center: (
                crate::clip_path::coord_outcome(x),
                crate::clip_path::coord_outcome(y),
            ),
        }),
        crate::clip_path::circle_outcome(pixels(r) + " at "@ + x) == (ClipPathView::Circle {
            radius: Some(r),
            center: (crate::clip_path::coord_outcome(x), CoordView::Center),
        }),
        crate::clip_path::circle_outcome(pixels(r)) == (ClipPathView::Circle {
            radius: Some(r),
            center: (CoordView::Center, CoordView::Center),
        }),
{
    one_length_is_trimmed(r);
    lengths_read_back(r);
    positions_read_back(x, y);
    at_is_found(pixels(r), x + " "@ + y);
    at_is_found(pixels(r), x);
    no_at_is_found(pixels(r));
}

/// What all of the tokens write is what each of them writes.
proof fn lengths_are_listed(list: Seq<Seq<char>>)
    requires
        all_in_digits(list),
    ensures
        crate::clip_path::lengths_outcome(all_pixels(list)) == Some(list),
    decreases list.len(),
{
    let t = all_pixels(list);
    if list.len() > 0 {
        let d = list.drop_last();
        assert(t.drop_last() =~= all_pixels(d));
        assert forall|i: int| 0 <= i < d.len() implies crate::number::in_digits(#[trigger] d[i]) by {
            assert(d[i] == list[i]);
        }
        lengths_are_listed(d);
        assert(crate::number::in_digits(list[list.len() - 1]));
        lengths_read_back(list.last());
        assert(d.push(list.last()) =~= list);
    } else {
        assert(list =~= Seq::<Seq<char>>::empty());
    }
}

proof fn pixels_are_words(list: Seq<Seq<char>>, by: Separator)
    requires
        all_in_digits(list),
        by == Separator::AsciiSpace || by == Separator::AsciiSpaceOrComma,
    ensures
        crate::scan::words(crate::scan::joined(all_pixels(list), ' '), by) == all_pixels(list),
{
    let t = all_pixels(list);
    assert forall|i: int| 0 <= i < t.len() implies (#[trigger] t[i]).len() > 0
        && crate::scan::unparted(t[i], by) by {
        assert(crate::number::in_digits(list[i]));
        plain_ends(list[i], "px"@);
    }
    crate::scan::written_words_read_back(t, ' ', by);
}

/// The margins of an inset rectangle are written from the top clockwise, as one to
/// four lengths; a side without one has that of the side across, and the right
/// one that of the top.
pub proof fn insets_read_back(list: Seq<Seq<char>>)
    requires
        1 <= list.len() <= 4,
        all_in_digits(list),
    ensures
        ({
            let right = if list.len() > 1 {
                list[1]
            } else {
                list[0]
            };
            let bottom = if list.len() > 2 {
                list[2]
            } else {
                list[0]
            };
            let left = if list.len() > 3 {
                list[3]
            } else {
                right
            };
            crate::clip_path::sides_outcome(crate::scan::joined(all_pixels(list), ' ')) == Some(
                (list[0], right, bottom, left),
            )
        }),
{
    pixels_are_words(list, Separator::AsciiSpace);
    lengths_are_listed(list);
    crate::sides::sides_go_clockwise(list);
}

/// A character of written lengths.
spec fn is_written(c: char) -> bool {
    c == ' ' || c == 'p' || c == 'x' || c == '.' || c == '-' || c == '+' || c == 'e' || c == 'E'
        || crate::number::is_digit(c)
}

proof fn pixels_are_written(s: Seq<char>, k: int)
    requires
        crate::number::in_digits(s),
        0 <= k < pixels(s).len(),
    ensures
        is_written(pixels(s)[k]),
        pixels(s).last() == 'x',
{
    reveal_strlit("px");
    if k < s.len() {
        assert(pixels(s)[k] == s[k]);
    } else {
        assert(pixels(s)[k] == "px"@[k - s.len()]);
    }
}

#[verifier::spinoff_prover]
proof fn no_space_pairs(list: Seq<Seq<char>>, i: int)
    requires
        all_in_digits(list),
        list.len() > 0,
        0 <= i < crate::scan::joined(all_pixels(list), ' ').len(),
    ensures
        is_written(crate::scan::joined(all_pixels(list), ' ')[i]),
        crate::scan::joined(all_pixels(list), ' ').last() == 'x',
    decreases list.len(),
{
    let t = all_pixels(list);
    let s = crate::scan::joined(t, ' ');
    let last = list[list.len() - 1];
    assert(crate::number::in_digits(last));
    assert(t.last() == pixels(last));
    reveal_strlit("px");
    pixels_are_written(last, pixels(last).len() - 1);
    if list.len() == 1 {
        assert(s == pixels(last));
        pixels_are_written(last, i);
    } else {
        let d = list.drop_last();
        assert(t.drop_last() =~= all_pixels(d));
        assert forall|k: int| 0 <= k < d.len() implies crate::number::in_digits(#[trigger] d[k]) by {
            assert(d[k] == list[k]);
        }
        let front = crate::scan::joined(all_pixels(d), ' ');
        assert(s =~= front.push(' ') + pixels(last));
        assert(s.last() == pixels(last).last());
        if i < front.len() {
            no_space_pairs(d, i);
            assert(s[i] == front[i]);
        } else if i > front.len() {
            let k = i - front.len() - 1;
            pixels_are_written(last, k);
            assert(s[i] == pixels(last)[k]);
        }
    }
}

/// Lengths alone are the margins of an inset rectangle with square corners.
pub proof fn plain_insets_read_back(list: Seq<Seq<char>>)
    requires
        1 <= list.len() <= 4,
        all_in_digits(list),
    ensures
        crate::clip_path::inset_outcome(crate::scan::joined(all_pixels(list), ' ')) == Some(
            ClipPathView::Inset {
                sides: crate::clip_path::sides_outcome(
                    crate::scan::joined(all_pixels(list), ' '),
                )->Some_0,
                radius: BorderRadiusView {
                    h: ("0"@, "0"@, "0"@, "0"@),
                    v: ("0"@, "0"@, "0"@, "0"@),
                },
            },
        ),
{
    reveal_strlit(" round ");
    let s = crate::scan::joined(all_pixels(list), ' ');
    let l = crate::text::lowered(s);
    insets_read_back(list);
    crate::scan::first_places_are_found(l, " round "@);
    if let Some(i) = crate::scan::find_text(l, " round "@) {
        assert(l.subrange(i, i + 7)[1] == 'r');
        assert(l[i + 1] == 'r');
        no_space_pairs(list, i + 1);
    }
}

/// The corners of an inset rectangle are written behind the word `round`, from the
/// top left clockwise: first how far they are rounded across and, behind a slash,
/// how far down.
pub proof fn rounded_insets_read_back(
    sides: Seq<Seq<char>>,
    across: Seq<Seq<char>>,
    down: Seq<Seq<char>>,
)
    requires
        sides.len() == 4,
        across.len() == 4,
        down.len() == 4,
        all_in_digits(sides),
        all_in_digits(across),
        all_in_digits(down),
    ensures
        ({
            let h = crate::scan::joined(all_pixels(across), ' ');
            let v = crate::scan::joined(all_pixels(down), ' ');
            let args = crate::scan::joined(all_pixels(sides), ' ') + " round "@ + (h + "/"@ + v);
            crate::clip_path::inset_outcome(args) == Some(
                ClipPathView::Inset {
                    sides: (sides[0], sides[1], sides[2], sides[3]),
                    radius: BorderRadiusView {
                        h: (across[0], across[1], across[2], across[3]),
                        v: (down[0], down[1], down[2], down[3]),
                    },
                },
            )
        }),
{
    reveal_strlit(" round ");
    reveal_strlit("/");
    let s = crate::scan::joined(all_pixels(sides), ' ');
    let h = crate::scan::joined(all_pixels(across), ' ');
    let v = crate::scan::joined(all_pixels(down), ' ');
    let radii = h + "/"@ + v;
    let args = s + " round "@ + radii;
    let l = crate::text::lowered(args);
    let p = s.len() as int;
    assert(l.subrange(p, p + 7) =~= " round "@);
    assert forall|k: int| 0 <= k < p implies #[trigger] l.subrange(k, k + " round "@.len())
        != " round "@ by {
        let u = l.subrange(k, k + 7);
        assert(u[0] == l[k] && u[1] == l[k + 1]);
        assert(args[k] == s[k]);
        no_space_pairs(sides, k);
        if k + 1 < p {
            assert(args[k + 1] == s[k + 1]);
            no_space_pairs(sides, k + 1);
        }
    }
    found_there(l, " round "@, p);
    assert(args.take(p) =~= s);
    assert(args.skip(p + 7) =~= radii);
    let q = h.len() as int;
    assert(radii.subrange(q, q + 1) =~= "/"@);
    assert forall|k: int| 0 <= k < q implies #[trigger] radii.subrange(k, k + "/"@.len())
        != "/"@ by {
        assert(radii.subrange(k, k + 1)[0] == h[k]);
        no_space_pairs(across, k);
    }
    found_there(radii, "/"@, q);
    assert(radii.take(q) =~= h);
    assert(radii.skip(q + 1) =~= v);
    insets_read_back(sides);
    insets_read_back(across);
    insets_read_back(down);
}

/// An ellipse has the radii across and down that are written before the word
/// `at`, and the middle that is written behind it.
pub proof fn ellipses_read_back(rx: Seq<char>, ry: Seq<char>, x: Seq<char>, y: Seq<char>)
    requires
        crate::number::in_digits(rx),
        crate::number::in_digits(ry),
        is_word(x),
        is_word(y),
    ensures
        crate::clip_path::ellipse_outcome(
            pixels(rx) + " "@ + pixels(ry) + " at "@ + (x + " "@ + y),
        ) == Some(
            ClipPathView::Ellipse {
                rx: Some(rx),
                ry: Some(ry),
                center: (
                    crate::clip_path::coord_outcome(x),
                    crate::clip_path::coord_outcome(y),
                ),
            },
        ),
{
    reveal_strlit("px");
    reveal_strlit(" ");
    let before = pixels(rx) + " "@ + pixels(ry);
    let list = seq![rx, ry];
    let t = all_pixels(list);
    assert(t.drop_last() =~= seq![pixels(rx)]);
    reveal_with_fuel(crate::scan::joined, 3);
    assert(crate::scan::joined(t, ' ') =~= before);
    assert(all_in_digits(list));
    plain_ends(rx, "px"@);
    plain_ends(ry, "px"@);
    assert forall|i: int| 0 <= i < before.len() && #[trigger] before[i] == ' ' implies i + 1
        < before.len() && before[i + 1] != 'a' && before[i + 1] != 'A' by {
        if i < pixels(rx).len() {
            assert(before[i] == pixels(rx)[i]);
            assert(!Separator::AsciiSpace.parts(pixels(rx)[i]));
        } else if i > pixels(rx).len() {
            assert(before[i] == pixels(ry)[i - pixels(rx).len() - 1]);
            assert(!Separator::AsciiSpace.parts(pixels(ry)[i - pixels(rx).len() - 1]));
        } else {
            assert(before[i + 1] == ry[0]);
        }
    }
    assert(before[0] == rx[0]);
    at_is_found(before, x + " "@ + y);
    let s = seq![' '] + before;
    pixels_are_words(list, Separator::AsciiSpace);
    crate::scan::words_stay_whole(Seq::empty(), Separator::AsciiSpace);
    crate::scan::separators_part_words(Seq::empty(), ' ', before, Separator::AsciiSpace);
    assert(Seq::<char>::empty().push(' ') + before =~= s);
    assert(Seq::<Seq<char>>::empty() + t =~= t);
    assert(crate::text::trimmed(s).len() > 0) by {
        assert(s =~= seq![' '] + before + Seq::<char>::empty());
        assert(before[before.len() - 1] == 'x');
        crate::text::trimming_takes_the_ends(seq![' '], before, Seq::empty());
    }
    lengths_read_back(rx);
    lengths_read_back(ry);
    positions_read_back(x, y);
}

proof fn items_stay_trimmed(list: Seq<Seq<char>>)
    requires
        all_in_digits(list),
    ensures
        crate::scan::trimmed_items(all_pixels(list)) == all_pixels(list),
    decreases list.len(),
{
    let t = all_pixels(list);
    if list.len() > 0 {
        let d = list.drop_last();
        assert(t.drop_last() =~= all_pixels(d));
        assert forall|k: int| 0 <= k < d.len() implies crate::number::in_digits(#[trigger] d[k]) by {
            assert(d[k] == list[k]);
        }
        items_stay_trimmed(d);
        assert(crate::number::in_digits(list[list.len() - 1]));
        plain_ends(list.last(), "px"@);
        assert(t.drop_last().push(t.last()) =~= t);
    } else {
        assert(t =~= Seq::<Seq<char>>::empty());
    }
}

/// The corners of a polygon are written in order, each across and then down;
/// without a rule before them it is the one by which the outline winds around.
pub proof fn polygons_read_back(list: Seq<Seq<char>>, i: int)
    requires
        list.len() >= 6,
        list.len() % 2 == 0,
        all_in_digits(list),
        0 <= i < list.len() / 2,
    ensures
        crate::clip_path::polygon_outcome(crate::scan::joined(all_pixels(list), ' ')) matches Some(
            ClipPathView::Polygon { points, fill_rule },
        ) && fill_rule == FillRule::NonZero && points.len() == list.len() / 2 && points[i] == (
            list[2 * i],
            list[2 * i + 1],
        ),
{
    reveal_strlit("nonzero");
    reveal_strlit("evenodd");
    let s = crate::scan::joined(all_pixels(list), ' ');
    let l = crate::text::lowered(s);
    no_space_pairs(list, 0);
    pixels_are_words(list, Separator::AsciiSpaceOrComma);
    items_stay_trimmed(list);
    lengths_are_listed(list);
    first_is_a_number(list);
    assert(l.len() > 0 && l[0] == crate::text::lower_char(s[0]));
    assert(!crate::scan::begins(l, "nonzero"@)) by {
        if l.len() >= 7 {
            assert(l.take(7)[0] == l[0]);
        }
    }
    assert(!crate::scan::begins(l, "evenodd"@)) by {
        if l.len() >= 7 {
            assert(l.take(7)[0] == l[0] && l.take(7)[1] == l[1] && "evenodd"@[1] == 'v');
            no_space_pairs(list, 1);
        }
    }
}

/// A polygon with a rule before its corners is filled by that rule, and has the
/// same corners as without it.
pub proof fn ruled_polygons_read_back(rule: FillRule, rest: Seq<char>)
    requires
        crate::clip_path::polygon_outcome(rest) matches Some(
            ClipPathView::Polygon { fill_rule, .. },
        ) && fill_rule == FillRule::NonZero,
        rest.len() > 0,
        crate::number::is_digit(rest[0]),
    ensures
        ({
            let word = match rule {
                FillRule::NonZero => "nonzero,"@,
                FillRule::EvenOdd => "evenodd,"@,
            };
            crate::clip_path::polygon_outcome(word + rest) == Some(
                ClipPathView::Polygon {
                    points: crate::clip_path::polygon_outcome(rest)->Some_0->points,
                    fill_rule: rule,
                },
            )
        }),
{
    reveal_strlit("nonzero");
    reveal_strlit("evenodd");
    reveal_strlit("nonzero,");
    reveal_strlit("evenodd,");
    reveal_strlit(",");
    let word = match rule {
        FillRule::NonZero => "nonzero,"@,
        FillRule::EvenOdd => "evenodd,"@,
    };
    let args = word + rest;
    let l = crate::text::lowered(args);
    let name = args.take(7);
    assert(name =~= match rule {
        FillRule::NonZero => "nonzero"@,
        FillRule::EvenOdd => "evenodd"@,
    });
    assert(l.take(7) =~= name);
    assert(args.subrange(7, 8) =~= ","@);
    assert forall|k: int| 0 <= k < 7 implies #[trigger] args.subrange(k, k + ","@.len())
        != ","@ by {
        assert(args.subrange(k, k + 1)[0] == word[k]);
    }
    found_there(args, ","@, 7);
    assert(args.skip(8) =~= rest);
    crate::text::keyword_form_of_keyword(name);
    assert(crate::text::trimmed(name) == name);
    crate::clip_path::rules_have_their_keywords(name);
    let m = crate::text::lowered(rest);
    assert(m[0] == rest[0]);
    assert(!crate::scan::begins(m, "nonzero"@)) by {
        if m.len() >= 7 {
            assert(m.take(7)[0] == m[0]);
        }
    }
    assert(!crate::scan::begins(m, "evenodd"@)) by {
        if m.len() >= 7 {
            assert(m.take(7)[0] == m[0]);
        }
    }
}

proof fn first_is_a_number(list: Seq<Seq<char>>)
    requires
        list.len() > 0,
        all_in_digits(list),
    ensures
        crate::scan::joined(all_pixels(list), ' ').len() >= 3,
        crate::scan::joined(all_pixels(list), ' ')[0] == list[0][0],
    decreases list.len(),
{
    reveal_strlit("px");
    let t = all_pixels(list);
    assert(crate::number::in_digits(list[0]));
    if list.len() > 1 {
        let d = list.drop_last();
        assert(t.drop_last() =~= all_pixels(d));
        assert forall|k: int| 0 <= k < d.len() implies crate::number::in_digits(#[trigger] d[k]) by {
            assert(d[k] == list[k]);
        }
        first_is_a_number(d);
    }
}

} // verus!
