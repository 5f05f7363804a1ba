//! The values of a border image as they are written.

use vstd::prelude::*;

use crate::border_image::{
    BorderImageFault, BorderImageOutsetView, BorderImageRepeat, BorderImageRepeatPair,
    BorderImageSliceView, BorderImageWidthView, BorderImageWidthsView, OutsetView, SliceInsetView,
};
use crate::number::Precision;
use crate::scan::Separator;

verus! {

/// The number is below zero.
pub open spec fn is_negative(n: Seq<char>) -> bool {
    Precision::Single.reading(n) matches Some(x) && x.is_below_zero()
}

proof fn units_end(n: Seq<char>, unit: Seq<char>)
    requires
        crate::number::in_digits(n),
        unit == "px"@ || unit == "%"@,
    ensures
        crate::scan::finishes(n + unit, "px"@) == (unit == "px"@),
        crate::scan::finishes(n + unit, "%"@) == (unit == "%"@),
        !crate::scan::finishes(n, "px"@),
        !crate::scan::finishes(n, "%"@),
        crate::scan::cut(n + unit, unit.len()) == n,
        crate::text::trimmed(n) == n,
        crate::text::lowered(n + unit) != "auto"@,
        crate::text::lowered(n) != "auto"@,
{
    reveal_strlit("px");
    reveal_strlit("%");
    reveal_strlit("auto");
    let s = n + unit;
    let last = s[s.len() - 1];
    assert(last == unit[unit.len() - 1]);
    assert(s.take(s.len() - unit.len()) =~= n);
    assert(s.skip(s.len() - unit.len()) =~= unit);
    if s.len() >= 2 {
        assert(s.skip(s.len() - 2)[1] == last);
    }
    assert(s.skip(s.len() - 1)[0] == last);
    assert(n.skip(n.len() - 1)[0] == n[n.len() - 1]);
    if n.len() >= 2 {
        assert(n.skip(n.len() - 2)[1] == n[n.len() - 1]);
    }
    assert(crate::text::lowered(s)[0] == crate::text::lower_char(n[0]));
    assert(crate::text::lowered(n)[0] == crate::text::lower_char(n[0]));
    assert("auto"@[0] == 'a');
}

/// A slice is a number of pixels of the image, or with the sign of a percentage
/// behind it that many hundredths. No number may be below zero.
pub proof fn slices_read_back(n: Seq<char>)
    requires
        crate::number::in_digits(n),
    ensures
        !is_negative(n) ==> crate::border_image::slice_value_outcome(n) == Ok::<
            SliceInsetView,
            BorderImageFault,
        >(SliceInsetView::Number(n)),
        !is_negative(n) ==> crate::border_image::slice_value_outcome(n + "%"@) == Ok::<
            SliceInsetView,
            BorderImageFault,
        >(SliceInsetView::Percentage(n)),
        is_negative(n) ==> crate::border_image::slice_value_outcome(n) == Err::<
            SliceInsetView,
            BorderImageFault,
        >(BorderImageFault::NegativeValue(n)),
        is_negative(n) ==> crate::border_image::slice_value_outcome(n + "%"@) == Err::<
            SliceInsetView,
            BorderImageFault,
        >(BorderImageFault::NegativeValue(n + "%"@)),
{
    units_end(n, "%"@);
}

/// A width is a multiple of the border width where it is a number alone, and
/// pixels or hundredths where a unit says so; the keyword `auto` is in any case.
/// No number may be below zero.
pub proof fn widths_read_back(n: Seq<char>, word: Seq<char>)
    requires
        crate::number::in_digits(n),
        crate::text::lowered(word) == "auto"@,
    ensures
        !is_negative(n) ==> crate::border_image::width_value_outcome(n) == Ok::<
            BorderImageWidthView,
            BorderImageFault,
        >(BorderImageWidthView::Number(n)),
        !is_negative(n) ==> crate::border_image::width_value_outcome(n + "%"@) == Ok::<
            BorderImageWidthView,
            BorderImageFault,
        >(BorderImageWidthView::Percentage(n)),
        !is_negative(n) ==> crate::border_image::width_value_outcome(n + "px"@) == Ok::<
            BorderImageWidthView,
            BorderImageFault,
        >(BorderImageWidthView::Length(n)),
        is_negative(n) ==> crate::border_image::width_value_outcome(n) is Err,
        is_negative(n) ==> crate::border_image::width_value_outcome(n + "%"@) is Err,
        is_negative(n) ==> crate::border_image::width_value_outcome(n + "px"@) is Err,
        crate::border_image::width_value_outcome(word) == Ok::<
            BorderImageWidthView,
            BorderImageFault,
        >(BorderImageWidthView::Auto),
{
    units_end(n, "%"@);
    units_end(n, "px"@);
    reveal_strlit("px");
    reveal_strlit("%");
    assert("px"@.len() != "%"@.len());
}

/// An outset is a multiple of the border width where it is a number alone, and
/// pixels where the unit says so. No number may be below zero.
pub proof fn outsets_read_back(n: Seq<char>)
    requires
        crate::number::in_digits(n),
    ensures
        !is_negative(n) ==> crate::border_image::outset_value_outcome(n) == Ok::<
            OutsetView,
            BorderImageFault,
        >(OutsetView::Number(n)),
        !is_negative(n) ==> crate::border_image::outset_value_outcome(n + "px"@) == Ok::<
            OutsetView,
            BorderImageFault,
        >(OutsetView::Length(n)),
        is_negative(n) ==> crate::border_image::outset_value_outcome(n) is Err,
        is_negative(n) ==> crate::border_image::outset_value_outcome(n + "px"@) is Err,
{
    units_end(n, "px"@);
}

/// Texts that white space does not part.
pub open spec fn are_words(tokens: Seq<Seq<char>>) -> bool {
    forall|i: int|
        0 <= i < tokens.len() ==> (#[trigger] tokens[i]).len() > 0 && crate::scan::unparted(
            tokens[i],
            Separator::WhiteSpace,
        )
}

proof fn listed_slices(tokens: Seq<Seq<char>>, values: Seq<SliceInsetView>)
    requires
        tokens.len() == values.len(),
        forall|i: int|
            0 <= i < tokens.len() ==> crate::border_image::slice_value_outcome(#[trigger] tokens[i]) == Ok::<
                SliceInsetView,
                BorderImageFault,
            >(values[i]),
        forall|i: int| 0 <= i < tokens.len() ==> !crate::border_image::is_fill(#[trigger] tokens[i]),
    ensures
        crate::border_image::slice_values(tokens) == Ok::<Seq<SliceInsetView>, BorderImageFault>(values),
    decreases tokens.len(),
{
    if tokens.len() > 0 {
        let (t, v) = (tokens.drop_last(), values.drop_last());
        assert forall|i: int| 0 <= i < t.len() implies crate::border_image::slice_value_outcome(
            #[trigger] t[i],
        ) == Ok::<SliceInsetView, BorderImageFault>(v[i]) && !crate::border_image::is_fill(t[i]) by {
            assert(t[i] == tokens[i]);
        }
        listed_slices(t, v);
        assert(tokens[tokens.len() - 1] == tokens.last());
        assert(v.push(values.last()) =~= values);
    } else {
        assert(values =~= Seq::<SliceInsetView>::empty());
    }
}

proof fn listed_widths(tokens: Seq<Seq<char>>, values: Seq<BorderImageWidthView>)
    requires
        tokens.len() == values.len(),
        forall|i: int|
            0 <= i < tokens.len() ==> crate::border_image::width_value_outcome(#[trigger] tokens[i]) == Ok::<
                BorderImageWidthView,
                BorderImageFault,
            >(values[i]),
    ensures
        crate::border_image::width_values(tokens) == Ok::<Seq<BorderImageWidthView>, BorderImageFault>(values),
    decreases tokens.len(),
{
    if tokens.len() > 0 {
        let (t, v) = (tokens.drop_last(), values.drop_last());
        assert forall|i: int| 0 <= i < t.len() implies crate::border_image::width_value_outcome(
            #[trigger] t[i],
        ) == Ok::<BorderImageWidthView, BorderImageFault>(v[i]) by {
            assert(t[i] == tokens[i]);
        }
        listed_widths(t, v);
        assert(tokens[tokens.len() - 1] == tokens.last());
        assert(v.push(values.last()) =~= values);
    } else {
        assert(values =~= Seq::<BorderImageWidthView>::empty());
    }
}

proof fn listed_outsets(tokens: Seq<Seq<char>>, values: Seq<OutsetView>)
    requires
        tokens.len() == values.len(),
        forall|i: int|
            0 <= i < tokens.len() ==> crate::border_image::outset_value_outcome(#[trigger] tokens[i]) == Ok::<
                OutsetView,
                BorderImageFault,
            >(values[i]),
    ensures
        crate::border_image::outset_values(tokens) == Ok::<Seq<OutsetView>, BorderImageFault>(values),
    decreases tokens.len(),
{
    if tokens.len() > 0 {
        let (t, v) = (tokens.drop_last(), values.drop_last());
        assert forall|i: int| 0 <= i < t.len() implies crate::border_image::outset_value_outcome(
            #[trigger] t[i],
        ) == Ok::<OutsetView, BorderImageFault>(v[i]) by {
            assert(t[i] == tokens[i]);
        }
        listed_outsets(t, v);
        assert(tokens[tokens.len() - 1] == tokens.last());
        assert(v.push(values.last()) =~= values);
    } else {
        assert(values =~= Seq::<OutsetView>::empty());
    }
}

/// One to four slices are written from the top clockwise; a side without one has that
/// of the side across, and the right one that of the top.
/// Without the keyword `fill` the middle is dropped.
pub proof fn slices_go_clockwise(tokens: Seq<Seq<char>>, values: Seq<SliceInsetView>)
    requires
        1 <= tokens.len() <= 4,
        tokens.len() == values.len(),
        are_words(tokens),
        forall|i: int|
            0 <= i < tokens.len() ==> crate::border_image::slice_value_outcome(#[trigger] tokens[i]) == Ok::<
                SliceInsetView,
                BorderImageFault,
            >(values[i]),
        forall|i: int| 0 <= i < tokens.len() ==> !crate::border_image::is_fill(#[trigger] tokens[i]),
    ensures
        ({
            let right = if values.len() > 1 {
                values[1]
            } else {
                values[0]
            };
            let bottom = if values.len() > 2 {
                values[2]
            } else {
                values[0]
            };
            let left = if values.len() > 3 {
                values[3]
            } else {
                right
            };
            crate::border_image::slice_outcome(crate::scan::joined(tokens, ' ')) == Ok::<
                BorderImageSliceView,
                BorderImageFault,
            >(BorderImageSliceView { top: values[0], right, bottom, left, fill: false })
        }),
{
    crate::scan::written_words_read_back(tokens, ' ', Separator::WhiteSpace);
    listed_slices(tokens, values);
    crate::sides::sides_go_clockwise(values);
}

/// One to four widths are written from the top clockwise; a side without one has that
/// of the side across, and the right one that of the top.
pub proof fn widths_go_clockwise(tokens: Seq<Seq<char>>, values: Seq<BorderImageWidthView>)
    requires
        1 <= tokens.len() <= 4,
        tokens.len() == values.len(),
        are_words(tokens),
        forall|i: int|
            0 <= i < tokens.len() ==> crate::border_image::width_value_outcome(#[trigger] tokens[i]) == Ok::<
                BorderImageWidthView,
                BorderImageFault,
            >(values[i]),
    ensures
        ({
            let right = if values.len() > 1 {
                values[1]
            } else {
                values[0]
            };
            let bottom = if values.len() > 2 {
                values[2]
            } else {
                values[0]
            };
            let left = if values.len() > 3 {
                values[3]
            } else {
                right
            };
            crate::border_image::width_outcome(crate::scan::joined(tokens, ' ')) == Ok::<
                BorderImageWidthsView,
                BorderImageFault,
            >(BorderImageWidthsView { top: values[0], right, bottom, left })
        }),
{
    crate::scan::written_words_read_back(tokens, ' ', Separator::WhiteSpace);
    listed_widths(tokens, values);
    crate::sides::sides_go_clockwise(values);
}

/// One to four outsets are written from the top clockwise; a side without one has that
/// of the side across, and the right one that of the top.
pub proof fn outsets_go_clockwise(tokens: Seq<Seq<char>>, values: Seq<OutsetView>)
    requires
        1 <= tokens.len() <= 4,
        tokens.len() == values.len(),
        are_words(tokens),
        forall|i: int|
            0 <= i < tokens.len() ==> crate::border_image::outset_value_outcome(#[trigger] tokens[i]) == Ok::<
                OutsetView,
                BorderImageFault,
            >(values[i]),
    ensures
        ({
            let right = if values.len() > 1 {
                values[1]
            } else {
                values[0]
            };
            let bottom = if values.len() > 2 {
                values[2]
            } else {
                values[0]
            };
            let left = if values.len() > 3 {
                values[3]
            } else {
                right
            };
            crate::border_image::outset_outcome(crate::scan::joined(tokens, ' ')) == Ok::<
                BorderImageOutsetView,
                BorderImageFault,
            >(BorderImageOutsetView { top: values[0], right, bottom, left })
        }),
{
    crate::scan::written_words_read_back(tokens, ' ', Separator::WhiteSpace);
    listed_outsets(tokens, values);
    crate::sides::sides_go_clockwise(values);
}

/// The keyword `fill` behind the slices keeps the middle of the image, and changes
/// nothing else.
pub proof fn fill_keeps_the_middle(s: Seq<char>, word: Seq<char>)
    requires
        crate::text::lowered(word) == "fill"@,
        crate::border_image::slice_outcome(s) is Ok,
    ensures
        crate::border_image::slice_outcome(s + " "@ + word) == Ok::<
            BorderImageSliceView,
            BorderImageFault,
        >(
            BorderImageSliceView {
                fill: true,
                ..crate::border_image::slice_outcome(s)->Ok_0
            },
        ),
{
    reveal_strlit(" ");
    reveal_strlit("fill");
    let by = Separator::WhiteSpace;
    let text = s + " "@ + word;
    let l = crate::text::lowered(word);
    assert("fill"@.len() == 4 && l.len() == word.len());
    assert forall|i: int| 0 <= i < word.len() implies !by.parts(#[trigger] word[i]) by {
        assert(l[i] == crate::text::lower_char(word[i]));
        assert("fill"@[0] == 'f' && "fill"@[1] == 'i' && "fill"@[2] == 'l' && "fill"@[3] == 'l');
        assert(i == 0 || i == 1 || i == 2 || i == 3);
    }
    crate::scan::words_stay_whole(word, by);
    crate::scan::separators_part_words(s, ' ', word, by);
    assert(s.push(' ') + word =~= text);
    let before = crate::scan::words(s, by);
    let after = crate::scan::words(text, by);
    assert(after =~= before.push(word));
    assert(after.drop_last() =~= before);
    assert(crate::border_image::is_fill(after[before.len() as int]));
}

/// Of two keywords of `border-image-repeat` the first is for the horizontal edges
/// and the second for the vertical ones; one alone is for both.
pub proof fn tilings_read_back(
    a: Seq<char>,
    b: Seq<char>,
    x: BorderImageRepeat,
    y: BorderImageRepeat,
)
    requires
        are_words(seq![a, b]),
        crate::border_image::repeat_outcome(a) == Ok::<BorderImageRepeat, BorderImageFault>(x),
        crate::border_image::repeat_outcome(b) == Ok::<BorderImageRepeat, BorderImageFault>(y),
    ensures
        crate::border_image::repeat_pair_outcome(a + " "@ + b) == Ok::<
            BorderImageRepeatPair,
            BorderImageFault,
        >(BorderImageRepeatPair { horizontal: x, vertical: y }),
        crate::border_image::repeat_pair_outcome(a) == Ok::<
            BorderImageRepeatPair,
            BorderImageFault,
        >(BorderImageRepeatPair { horizontal: x, vertical: x }),
{
    reveal_strlit(" ");
    let by = Separator::WhiteSpace;
    assert(seq![a, b][0] == a && seq![a, b][1] == b);
    crate::scan::words_stay_whole(a, by);
    crate::scan::words_stay_whole(b, by);
    crate::scan::separators_part_words(a, ' ', b, by);
    assert(a.push(' ') + b =~= a + " "@ + b);
    assert(seq![a] + seq![b] =~= seq![a, b]);
}

/// A number is taken as it is written where it is one and not below zero. A refused one
/// says why: nothing was written, or no number, or one below zero, which is shown whole.
pub proof fn refused_numbers_say_why(s: Seq<char>, whole: Seq<char>)
    ensures
        ({
            let r = crate::border_image::magnitude_outcome(s, whole);
            let n = crate::number::Precision::Single.reading(s);
            &&& r is Ok <==> n is Some && !n->Some_0.is_below_zero()
            &&& r is Ok ==> r->Ok_0 == s
            &&& n is Some && n->Some_0.is_below_zero() ==> r->Err_0
                == crate::border_image::BorderImageFault::NegativeValue(whole)
            &&& n is None && s.len() == 0 ==> r->Err_0
                == crate::border_image::BorderImageFault::InvalidNumber(
                crate::border_image::NumberFault::Empty,
            )
            &&& n is None && s.len() > 0 ==> r->Err_0
                == crate::border_image::BorderImageFault::InvalidNumber(
                crate::border_image::NumberFault::Invalid,
            )
        }),
{
}

} // verus!
