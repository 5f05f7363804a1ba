//! Shadows as they are written.

use vstd::prelude::*;

use crate::box_shadow::{BoxShadowFault, BoxShadowView, GatheredView};
use crate::color::{Color, ColorFault};
use crate::number::Precision;
use crate::scan::Scan;

verus! {

/// White space stands in the text only between parentheses, which are closed
/// again.
pub open spec fn is_token(w: Seq<char>) -> bool {
    &&& w.len() > 0
    &&& crate::box_shadow::depth(w) == 0
    &&& forall|i: int|
        0 <= i < w.len() && crate::text::is_ascii_space(#[trigger] w[i])
            ==> crate::box_shadow::depth(w.take(i)) != 0
}

proof fn depths_add(a: Seq<char>, b: Seq<char>)
    ensures
        crate::box_shadow::depth(a + b) == crate::box_shadow::depth(a) + crate::box_shadow::depth(
            b,
        ),
    decreases b.len(),
{
    if b.len() == 0 {
        assert(a + b =~= a);
    } else {
        assert((a + b).drop_last() =~= a + b.drop_last());
        depths_add(a, b.drop_last());
    }
}

proof fn token_stays_open(w: Seq<char>)
    requires
        forall|i: int|
            0 <= i < w.len() && crate::text::is_ascii_space(#[trigger] w[i])
                ==> crate::box_shadow::depth(w.take(i)) != 0,
    ensures
        crate::box_shadow::token_scan(w) == (Scan { done: Seq::empty(), open: w }),
    decreases w.len(),
{
    if w.len() == 0 {
        assert(w =~= Seq::<char>::empty());
    } else {
        let d = w.drop_last();
        assert forall|i: int|
            0 <= i < d.len() && crate::text::is_ascii_space(
                #[trigger] d[i],
            ) implies crate::box_shadow::depth(d.take(i)) != 0 by {
            assert(d.take(i) =~= w.take(i));
            assert(d[i] == w[i]);
        }
        token_stays_open(d);
        assert(w.take(w.len() - 1) =~= d);
        assert(w[w.len() - 1] == w.last());
        assert(d.push(w.last()) =~= w);
    }
}

proof fn token_is_whole(w: Seq<char>)
    requires
        is_token(w),
    ensures
        crate::box_shadow::tokens(w) == seq![w],
{
    token_stays_open(w);
    assert(Seq::<Seq<char>>::empty().push(w) =~= seq![w]);
}

proof fn scan_goes_on(a: Seq<char>, b: Seq<char>)
    requires
        crate::box_shadow::depth(a) == 0,
    ensures
        crate::box_shadow::token_scan(a.push(' ') + b) == (Scan {
            done: crate::box_shadow::tokens(a) + crate::box_shadow::token_scan(b).done,
            open: crate::box_shadow::token_scan(b).open,
        }),
    decreases b.len(),
{
    let s = a.push(' ') + b;
    let front = crate::box_shadow::tokens(a);
    if b.len() == 0 {
        assert(s =~= a.push(' '));
        assert(s.drop_last() =~= a);
        assert(front + Seq::<Seq<char>>::empty() =~= front);
    } else {
        let d = b.drop_last();
        assert(s.drop_last() =~= a.push(' ') + d);
        scan_goes_on(a, d);
        depths_add(a.push(' '), d);
        assert(a.push(' ').drop_last() =~= a);
        let x = crate::box_shadow::token_scan(d);
        assert((front + x.done).push(x.open) =~= front + x.done.push(x.open));
    }
}

/// A space outside of parentheses parts a shadow: its tokens are those before it,
/// and then those behind it.
pub proof fn spaces_part_tokens(a: Seq<char>, b: Seq<char>)
    requires
        crate::box_shadow::depth(a) == 0,
    ensures
        crate::box_shadow::tokens(a.push(' ') + b) == crate::box_shadow::tokens(a)
            + crate::box_shadow::tokens(b),
{
    scan_goes_on(a, b);
    let front = crate::box_shadow::tokens(a);
    let x = crate::box_shadow::token_scan(b);
    assert((front + x.done).push(x.open) =~= front + x.done.push(x.open));
}

/// Tokens that are written with spaces between them are read back.
pub proof fn written_tokens_read_back(list: Seq<Seq<char>>)
    requires
        forall|i: int| 0 <= i < list.len() ==> is_token(#[trigger] list[i]),
    ensures
        crate::box_shadow::tokens(crate::scan::joined(list, ' ')) == list,
        crate::box_shadow::depth(crate::scan::joined(list, ' ')) == 0,
    decreases list.len(),
{
    if list.len() == 0 {
        assert(list =~= Seq::<Seq<char>>::empty());
    } else if list.len() == 1 {
        assert(is_token(list[0]));
        token_is_whole(list[0]);
        assert(list =~= seq![list[0]]);
    } else {
        let d = list.drop_last();
        assert forall|i: int| 0 <= i < d.len() implies is_token(#[trigger] d[i]) by {
            assert(d[i] == list[i]);
        }
        written_tokens_read_back(d);
        let front = crate::scan::joined(d, ' ');
        assert(is_token(list[list.len() - 1]));
        token_is_whole(list.last());
        spaces_part_tokens(front, list.last());
        depths_add(front.push(' '), list.last());
        assert(front.push(' ').drop_last() =~= front);
        assert(d + seq![list.last()] =~= list);
    }
}

proof fn number_is_length(n: Seq<char>)
    requires
        crate::number::in_digits(n),
        crate::box_shadow::looks_like_length(n),
    ensures
        ({
            let t = n + "px"@;
            &&& is_token(t)
            &&& crate::box_shadow::looks_like_length(t)
            &&& crate::box_shadow::px_number(t) == n
            &&& !crate::box_shadow::is_inset(t)
        }),
{
    reveal_strlit("px");
    reveal_strlit("inset");
    let t = n + "px"@;
    assert(t[0] == n[0]);
    assert(t.skip(t.len() - 2) =~= "px"@);
    assert(t.take(t.len() - 2) =~= n);
    assert(crate::text::lowered(t)[t.len() - 1] == 'x');
    assert("inset"@[4] == 't');
    assert forall|i: int| 0 <= i < t.len() implies !crate::text::is_ascii_space(#[trigger] t[i])
        && t[i] != '(' && t[i] != ')' by {
        if i < n.len() {
            assert(t[i] == n[i]);
        } else {
            assert(t[i] == "px"@[i - n.len()]);
        }
    }
    flat_text(t);
}

proof fn flat_text(t: Seq<char>)
    requires
        forall|i: int| 0 <= i < t.len() ==> #[trigger] t[i] != '(' && t[i] != ')',
    ensures
        crate::box_shadow::depth(t) == 0,
    decreases t.len(),
{
    if t.len() > 0 {
        let d = t.drop_last();
        assert forall|i: int| 0 <= i < d.len() implies #[trigger] d[i] != '(' && d[i] != ')' by {
            assert(d[i] == t[i]);
        }
        flat_text(d);
        assert(t[t.len() - 1] == t.last());
    }
}

/// Lengths in pixels.
pub open spec fn are_lengths(list: Seq<Seq<char>>) -> bool {
    forall|i: int|
        0 <= i < list.len() ==> crate::number::in_digits(#[trigger] list[i])
            && crate::box_shadow::looks_like_length(list[i])
}

proof fn lengths_are_gathered(list: Seq<Seq<char>>)
    requires
        list.len() <= 4,
        are_lengths(list),
    ensures
        crate::box_shadow::gathered(crate::clip_path::writing::all_pixels(list)) == Ok::<
            GatheredView,
            BoxShadowFault,
        >(GatheredView { lengths: list, color: None, inset: false }),
        forall|i: int|
            0 <= i < list.len() ==> is_token(
                #[trigger] crate::clip_path::writing::all_pixels(list)[i],
            ),
    decreases list.len(),
{
    let t = crate::clip_path::writing::all_pixels(list);
    if list.len() > 0 {
        let d = list.drop_last();
        assert forall|i: int| 0 <= i < d.len() implies crate::number::in_digits(#[trigger] d[i])
            && crate::box_shadow::looks_like_length(d[i]) by {
            assert(d[i] == list[i]);
        }
        lengths_are_gathered(d);
        assert(t.drop_last() =~= crate::clip_path::writing::all_pixels(d));
        assert(crate::number::in_digits(list[list.len() - 1]));
        number_is_length(list.last());
        assert(d.push(list.last()) =~= list);
        assert forall|i: int| 0 <= i < list.len() implies is_token(#[trigger] t[i]) by {
            if i < d.len() {
                assert(t[i] == crate::clip_path::writing::all_pixels(d)[i]);
            } else {
                assert(t[i] == t.last());
            }
        }
    } else {
        assert(list =~= Seq::<Seq<char>>::empty());
    }
}

/// A shadow is written as two to four lengths and a colour: how far it is shifted
/// to the right and down, its blur and its spread. Blur and spread that are not
/// written are zero, and so is a blur that is not above zero.
pub proof fn shadows_read_back(list: Seq<Seq<char>>, paint: Seq<char>, color: Color)
    requires
        2 <= list.len() <= 4,
        are_lengths(list),
        is_token(paint),
        !crate::box_shadow::looks_like_length(paint),
        crate::text::lowered(paint) != "inset"@,
        crate::color::parse::plain_outcome(paint) == Ok::<Color, ColorFault>(color),
    ensures
        ({
            let tokens = crate::clip_path::writing::all_pixels(list).push(paint);
            let blurred = list.len() > 2 && (Precision::Single.reading(list[2]) matches Some(x)
                && x.is_above_zero());
            crate::box_shadow::shadow_outcome(crate::scan::joined(tokens, ' ')) == Ok::<
                BoxShadowView,
                BoxShadowFault,
            >(
                BoxShadowView {
                    offset_x: list[0],
                    offset_y: list[1],
                    blur_radius: if blurred {
                        list[2]
                    } else {
                        "0"@
                    },
                    spread: if list.len() > 3 {
                        list[3]
                    } else {
                        "0"@
                    },
                    color,
                    inset: false,
                },
            )
        }),
{
    let lengths = crate::clip_path::writing::all_pixels(list);
    let tokens = lengths.push(paint);
    lengths_are_gathered(list);
    assert(tokens.drop_last() =~= lengths);
    assert forall|i: int| 0 <= i < tokens.len() implies is_token(#[trigger] tokens[i]) by {
        if i < lengths.len() {
            assert(tokens[i] == lengths[i]);
        }
    }
    written_tokens_read_back(tokens);
}

/// Fewer than two lengths are no shadow, and more than four are none either.
pub proof fn shadows_take_two_to_four_lengths(list: Seq<Seq<char>>)
    requires
        list.len() > 0,
        are_lengths(list),
    ensures
        ({
            let r = crate::box_shadow::shadow_outcome(
                crate::scan::joined(crate::clip_path::writing::all_pixels(list), ' '),
            );
            &&& list.len() < 2 ==> r == Err::<BoxShadowView, BoxShadowFault>(
                BoxShadowFault::NotEnoughLengths,
            )
            &&& 2 <= list.len() <= 4 ==> (r matches Ok(s) && s.color == (Color {
                r: 0,
                g: 0,
                b: 0,
                a: 0,
            }) && !s.inset)
            &&& list.len() > 4 ==> r == Err::<BoxShadowView, BoxShadowFault>(
                BoxShadowFault::TooManyLengths,
            )
        }),
{
    let t = crate::clip_path::writing::all_pixels(list);
    assert forall|i: int| 0 <= i < t.len() implies is_token(#[trigger] t[i]) by {
        assert(crate::number::in_digits(list[i]));
        number_is_length(list[i]);
    }
    written_tokens_read_back(t);
    if list.len() <= 4 {
        lengths_are_gathered(list);
    } else {
        too_many_lengths(list);
    }
}

proof fn too_many_lengths(list: Seq<Seq<char>>)
    requires
        list.len() > 4,
        are_lengths(list),
    ensures
        crate::box_shadow::gathered(crate::clip_path::writing::all_pixels(list)) == Err::<
            GatheredView,
            BoxShadowFault,
        >(BoxShadowFault::TooManyLengths),
    decreases list.len(),
{
    let t = crate::clip_path::writing::all_pixels(list);
    let d = list.drop_last();
    assert forall|i: int| 0 <= i < d.len() implies crate::number::in_digits(#[trigger] d[i])
        && crate::box_shadow::looks_like_length(d[i]) by {
        assert(d[i] == list[i]);
    }
    assert(t.drop_last() =~= crate::clip_path::writing::all_pixels(d));
    if list.len() > 5 {
        too_many_lengths(d);
    } else {
        lengths_are_gathered(d);
        assert(crate::number::in_digits(list[list.len() - 1]));
        number_is_length(list.last());
    }
}

/// Two shadows with a comma between them are both, the first one first.
pub proof fn listed_shadows_read_back(
    a: Seq<char>,
    b: Seq<char>,
    x: BoxShadowView,
    y: BoxShadowView,
)
    requires
        a.len() > 0,
        b.len() > 0,
        crate::text::dark_ends(a),
        crate::text::dark_ends(b),
        crate::box_shadow::depth(a) == 0,
        forall|i: int|
            0 <= i < a.len() && a[i] == ',' ==> crate::box_shadow::depth(#[trigger] a.take(i)) != 0,
        forall|i: int|
            0 <= i < b.len() && b[i] == ',' ==> crate::box_shadow::depth(#[trigger] b.take(i)) != 0,
        crate::box_shadow::shadow_outcome(a) == Ok::<BoxShadowView, BoxShadowFault>(x),
        crate::box_shadow::shadow_outcome(b) == Ok::<BoxShadowView, BoxShadowFault>(y),
    ensures
        crate::box_shadow::box_shadow_outcome(a + ","@ + b) == Ok::<
            Seq<BoxShadowView>,
            BoxShadowFault,
        >(seq![x, y]),
{
    reveal_strlit(",");
    reveal_strlit("none");
    let s = a + ","@ + b;
    assert(s =~= a.push(',') + b);
    let none = Seq::<char>::empty();
    crate::text::trimming_takes_the_ends(none, s, none);
    assert(none + s + none =~= s);
    crate::text::trimming_takes_the_ends(none, a, none);
    assert(none + a + none =~= a);
    crate::text::trimming_takes_the_ends(none, b, none);
    assert(none + b + none =~= b);
    comma_is_no_keyword(s, a.len() as int);
    item_stays_open(a);
    crate::box_shadow::lists_keep_their_order(a, b);
    crate::box_shadow::calls_are_not_split(b);
    let items = crate::box_shadow::shadow_items(s);
    assert(items =~= seq![a, b]);
    two_shadows(a, b, x, y);
}

proof fn comma_is_no_keyword(s: Seq<char>, i: int)
    requires
        0 <= i < s.len(),
        s[i] == ',',
    ensures
        crate::text::lowered(s) != "none"@,
{
    reveal_strlit("none");
    let l = crate::text::lowered(s);
    if l == "none"@ {
        assert(l[i] == ',');
        assert(l.len() == 4);
        assert(i == 0 || i == 1 || i == 2 || i == 3);
    }
}

proof fn two_shadows(a: Seq<char>, b: Seq<char>, x: BoxShadowView, y: BoxShadowView)
    requires
        crate::box_shadow::shadow_outcome(a) == Ok::<BoxShadowView, BoxShadowFault>(x),
        crate::box_shadow::shadow_outcome(b) == Ok::<BoxShadowView, BoxShadowFault>(y),
    ensures
        crate::box_shadow::shadows_outcome(seq![a, b]) == Ok::<Seq<BoxShadowView>, BoxShadowFault>(
            seq![x, y],
        ),
{
    let none = Seq::<Seq<char>>::empty();
    assert(seq![a, b].drop_last() =~= seq![a]);
    assert(seq![a].drop_last() =~= none);
    assert(crate::box_shadow::shadows_outcome(none) == Ok::<Seq<BoxShadowView>, BoxShadowFault>(
        Seq::empty(),
    ));
    assert(Seq::<BoxShadowView>::empty().push(x) =~= seq![x]);
    assert(crate::box_shadow::shadows_outcome(seq![a]) == Ok::<Seq<BoxShadowView>, BoxShadowFault>(
        seq![x],
    ));
    assert(seq![x].push(y) =~= seq![x, y]);
}

proof fn item_stays_open(s: Seq<char>)
    requires
        forall|i: int|
            0 <= i < s.len() && s[i] == ',' ==> crate::box_shadow::depth(#[trigger] s.take(i)) != 0,
    ensures
        crate::box_shadow::list_scan(s) == (Scan { done: Seq::empty(), open: s }),
    decreases s.len(),
{
    if s.len() == 0 {
        assert(s =~= Seq::<char>::empty());
    } else {
        let t = s.drop_last();
        assert forall|i: int| 0 <= i < t.len() && t[i] == ',' implies crate::box_shadow::depth(
            #[trigger] t.take(i),
        ) != 0 by {
            assert(t.take(i) =~= s.take(i));
        }
        item_stays_open(t);
        assert(s.take(s.len() - 1) =~= t);
        assert(t.push(s.last()) =~= s);
    }
}

} // verus!
