//! The grammar of the `border-image` properties.

use vstd::prelude::*;

use crate::number::{read_literal, Literal, Precision};
use crate::scan::{ends_with, split_words, Separator};
use crate::sides::{expand_sides, first_numbers};
use crate::text::{chars_of, keyword, lower, part, spells, string_of, trim};

pub mod writing;

verus! {

/// Why a text is no number.
#[derive(Clone, Copy, Debug, PartialEq, Eq, Structural)]
pub enum NumberFault {
    Empty,
    Invalid,
}

/// Why a text is no value of a `border-image` property.
#[derive(Clone, Debug, PartialEq, Eq)]
pub enum BorderImageParseError {
    /// There are not one to four values, or one or two for `border-image-repeat`.
    TooManyValues,
    NegativeValue(String),
    UnknownKeyword(String),
    InvalidNumber(NumberFault),
}

/// [`BorderImageParseError`] with its text as characters.
#[verifier::ext_equal]
pub enum BorderImageFault {
    TooManyValues,
    NegativeValue(Seq<char>),
    UnknownKeyword(Seq<char>),
    InvalidNumber(NumberFault),
}

impl View for BorderImageParseError {
    type V = BorderImageFault;

    open spec fn view(&self) -> BorderImageFault {
        match self {
            BorderImageParseError::TooManyValues => BorderImageFault::TooManyValues,
            BorderImageParseError::NegativeValue(s) => BorderImageFault::NegativeValue(s@),
            BorderImageParseError::UnknownKeyword(s) => BorderImageFault::UnknownKeyword(s@),
            BorderImageParseError::InvalidNumber(e) => BorderImageFault::InvalidNumber(*e),
        }
    }
}

/// Expands one to four values to top, right, bottom and left.
pub fn expand_trbl<T: Copy>(values: &[T]) -> (r: Result<[T; 4], BorderImageParseError>)
    ensures
        match (r, crate::sides::expanded(values@)) {
            (Ok(a), Some((top, right, bottom, left))) => a@ == seq![top, right, bottom, left],
            (Err(e), None) => e@ == BorderImageFault::TooManyValues,
            _ => false,
        },
{
    match expand_sides(values) {
        Some((top, right, bottom, left)) => Ok([top, right, bottom, left]),
        None => Err(BorderImageParseError::TooManyValues),
    }
}

/// The number `s` of the value `whole`, which must not be negative.
pub open spec fn magnitude_outcome(s: Seq<char>, whole: Seq<char>) -> Result<
    Seq<char>,
    BorderImageFault,
> {
    match Precision::Single.reading(s) {
        None => Err(
            BorderImageFault::InvalidNumber(
                if s.len() == 0 {
                    NumberFault::Empty
                } else {
                    NumberFault::Invalid
                },
            ),
        ),
        Some(x) => if x.is_below_zero() {
            Err(BorderImageFault::NegativeValue(whole))
        } else {
            Ok(s)
        },
    }
}

fn parse_magnitude(s: &[char], whole: &[char]) -> (r: Result<Literal, BorderImageParseError>)
    ensures
        crate::outcome::viewed(r) == magnitude_outcome(s@, whole@),
{
    match read_literal(s, Precision::Single) {
        None => Err(
            BorderImageParseError::InvalidNumber(
                if s.len() == 0 {
                    NumberFault::Empty
                } else {
                    NumberFault::Invalid
                },
            ),
        ),
        Some((l, x)) => if x.is_below_zero() {
            Err(BorderImageParseError::NegativeValue(string_of(whole)))
        } else {
            Ok(l)
        },
    }
}

/// The number before the suffix `suffix` of `s`, trimmed.
pub open spec fn before(s: Seq<char>, suffix: Seq<char>) -> Option<Seq<char>> {
    if crate::scan::finishes(s, suffix) {
        Some(crate::text::trimmed(crate::scan::cut(s, suffix.len())))
    } else {
        None
    }
}

fn strip(s: &[char], suffix: &str) -> (r: Option<Vec<char>>)
    ensures
        crate::outcome::seen(r) == before(s@, suffix@),
{
    if ends_with(s, suffix) {
        let w = chars_of(suffix);
        let rest = part(s, 0, s.len() - w.len());
        assert(rest@ =~= crate::scan::cut(s@, suffix@.len()));
        Some(trim(rest.as_slice()))
    } else {
        None
    }
}

// ---------------------------------------------------------------------------
// border-image-slice
// ---------------------------------------------------------------------------
/// One value of `border-image-slice`.
#[derive(Clone, Debug, PartialEq, Eq)]
pub enum SliceInset {
    /// Pixels of the image.
    Number(Literal),
    /// Hundredths of the image's width or height.
    Percentage(Literal),
}

/// [`SliceInset`] with its number as it was written.
#[verifier::ext_equal]
pub enum SliceInsetView {
    Number(Seq<char>),
    Percentage(Seq<char>),
}

impl View for SliceInset {
    type V = SliceInsetView;

    open spec fn view(&self) -> SliceInsetView {
        match self {
            SliceInset::Number(l) => SliceInsetView::Number(l@),
            SliceInset::Percentage(l) => SliceInsetView::Percentage(l@),
        }
    }
}

impl SliceInset {
    fn duplicate(&self) -> (r: SliceInset)
        ensures
            r@ == self@,
    {
        match self {
            SliceInset::Number(l) => SliceInset::Number(l.duplicate()),
            SliceInset::Percentage(l) => SliceInset::Percentage(l.duplicate()),
        }
    }
}

/// The value of `border-image-slice`.
#[derive(Clone, Debug, PartialEq, Eq)]
pub struct BorderImageSlice {
    pub top: SliceInset,
    pub right: SliceInset,
    pub bottom: SliceInset,
    pub left: SliceInset,
    /// The middle of the image is kept.
    pub fill: bool,
}

/// [`BorderImageSlice`] with its numbers as they were written.
#[verifier::ext_equal]
pub struct BorderImageSliceView {
    pub top: SliceInsetView,
    pub right: SliceInsetView,
    pub bottom: SliceInsetView,
    pub left: SliceInsetView,
    pub fill: bool,
}

impl View for BorderImageSlice {
    type V = BorderImageSliceView;

    open spec fn view(&self) -> BorderImageSliceView {
        BorderImageSliceView {
            top: self.top@,
            right: self.right@,
            bottom: self.bottom@,
            left: self.left@,
            fill: self.fill,
        }
    }
}

fn whole_percentage() -> (r: SliceInset)
    ensures
        r@ == SliceInsetView::Percentage("100"@),
{
    SliceInset::Percentage(Literal { text: "100".to_owned() })
}

impl Default for BorderImageSlice {
    /// The whole image on every side, without its middle.
    fn default() -> (r: BorderImageSlice)
        ensures
            r@ == (BorderImageSliceView {
                top: SliceInsetView::Percentage("100"@),
                right: SliceInsetView::Percentage("100"@),
                bottom: SliceInsetView::Percentage("100"@),
                left: SliceInsetView::Percentage("100"@),
                fill: false,
            }),
    {
        BorderImageSlice {
            top: whole_percentage(),
            right: whole_percentage(),
            bottom: whole_percentage(),
            left: whole_percentage(),
            fill: false,
        }
    }
}

/// What the token `s` parses to as one value of `border-image-slice`.
pub open spec fn slice_value_outcome(s: Seq<char>) -> Result<SliceInsetView, BorderImageFault> {
    match before(s, "%"@) {
        Some(p) => match magnitude_outcome(p, s) {
            Ok(l) => Ok(SliceInsetView::Percentage(l)),
            Err(e) => Err(e),
        },
        None => match magnitude_outcome(s, s) {
            Ok(l) => Ok(SliceInsetView::Number(l)),
            Err(e) => Err(e),
        },
    }
}

fn parse_slice_value(s: &[char]) -> (r: Result<SliceInset, BorderImageParseError>)
    ensures
        crate::outcome::viewed(r) == slice_value_outcome(s@),
{
    match strip(s, "%") {
        Some(p) => match parse_magnitude(p.as_slice(), s) {
            Ok(l) => Ok(SliceInset::Percentage(l)),
            Err(e) => Err(e),
        },
        None => match parse_magnitude(s, s) {
            Ok(l) => Ok(SliceInset::Number(l)),
            Err(e) => Err(e),
        },
    }
}

/// The token is the keyword `fill`.
pub open spec fn is_fill(token: Seq<char>) -> bool {
    crate::text::lowered(token) == "fill"@
}

/// The values among the tokens of `border-image-slice`, in their order.
pub open spec fn slice_values(tokens: Seq<Seq<char>>) -> Result<
    Seq<SliceInsetView>,
    BorderImageFault,
>
    decreases tokens.len(),
{
    if tokens.len() == 0 {
        Ok(Seq::empty())
    } else {
        match slice_values(tokens.drop_last()) {
            Ok(list) => if is_fill(tokens.last()) {
                Ok(list)
            } else {
                match slice_value_outcome(tokens.last()) {
                    Ok(v) => Ok(list.push(v)),
                    Err(e) => Err(e),
                }
            },
            Err(e) => Err(e),
        }
    }
}

/// What the text `s` parses to as the value of `border-image-slice`: one to
/// four values, with the keyword `fill` anywhere among them.
pub open spec fn slice_outcome(s: Seq<char>) -> Result<BorderImageSliceView, BorderImageFault> {
    let tokens = crate::scan::words(s, Separator::WhiteSpace);
    match slice_values(tokens) {
        Err(e) => Err(e),
        Ok(values) => match crate::sides::expanded(values) {
            None => Err(BorderImageFault::TooManyValues),
            Some((top, right, bottom, left)) => Ok(
                BorderImageSliceView {
                    top,
                    right,
                    bottom,
                    left,
                    fill: exists|i: int| 0 <= i < tokens.len() && is_fill(#[trigger] tokens[i]),
                },
            ),
        },
    }
}

/// The views of a list of slice values.
pub open spec fn slice_views(v: Seq<SliceInset>) -> Seq<SliceInsetView> {
    v.map_values(|x: SliceInset| x@)
}

proof fn slice_values_stop(tokens: Seq<Seq<char>>, n: int)
    requires
        0 <= n <= tokens.len(),
        slice_values(tokens.take(n)) is Err,
    ensures
        slice_values(tokens) == slice_values(tokens.take(n)),
    decreases tokens.len() - n,
{
    if n == tokens.len() {
        assert(tokens.take(n) =~= tokens);
    } else {
        assert(tokens.take(n + 1).drop_last() =~= tokens.take(n));
        slice_values_stop(tokens, n + 1);
    }
}

/// The tokens without the keyword `fill`.
pub open spec fn without_fill(tokens: Seq<Seq<char>>) -> Seq<Seq<char>>
    decreases tokens.len(),
{
    if tokens.len() == 0 {
        tokens
    } else if is_fill(tokens.last()) {
        without_fill(tokens.drop_last())
    } else {
        without_fill(tokens.drop_last()).push(tokens.last())
    }
}

proof fn fill_gives_no_value(tokens: Seq<Seq<char>>)
    ensures
        slice_values(tokens) == slice_values(without_fill(tokens)),
    decreases tokens.len(),
{
    if tokens.len() > 0 {
        let rest = without_fill(tokens.drop_last());
        fill_gives_no_value(tokens.drop_last());
        if !is_fill(tokens.last()) {
            assert(rest.push(tokens.last()).drop_last() =~= rest);
        }
    }
}

/// The keyword `fill` may stand anywhere: where two values of
/// `border-image-slice` agree but for its places, they say the same.
pub proof fn fill_may_stand_anywhere(s: Seq<char>, t: Seq<char>)
    requires
        without_fill(crate::scan::words(s, Separator::WhiteSpace)) == without_fill(
            crate::scan::words(t, Separator::WhiteSpace),
        ),
        (exists|i: int|
            0 <= i < crate::scan::words(s, Separator::WhiteSpace).len() && is_fill(
                #[trigger] crate::scan::words(s, Separator::WhiteSpace)[i],
            )) == (exists|i: int|
            0 <= i < crate::scan::words(t, Separator::WhiteSpace).len() && is_fill(
                #[trigger] crate::scan::words(t, Separator::WhiteSpace)[i],
            )),
    ensures
        slice_outcome(s) == slice_outcome(t),
{
    fill_gives_no_value(crate::scan::words(s, Separator::WhiteSpace));
    fill_gives_no_value(crate::scan::words(t, Separator::WhiteSpace));
}

impl BorderImageSlice {
    /// Parses the value of `border-image-slice`.
    pub fn parse(s: &str) -> (r: Result<BorderImageSlice, BorderImageParseError>)
        ensures
            crate::outcome::viewed(r) == slice_outcome(s@),
    {
        let v = chars_of(s);
        let tokens = split_words(v.as_slice(), Separator::WhiteSpace);
        let ghost all = crate::scan::texts(tokens@);
        let mut values: Vec<SliceInset> = Vec::new();
        let mut fill = false;
        let mut i: usize = 0;
        assert(all.take(0) =~= Seq::<Seq<char>>::empty());
        assert(slice_views(values@) =~= Seq::<SliceInsetView>::empty());
        while i < tokens.len()
            invariant
                i <= tokens@.len(),
                all == crate::scan::texts(tokens@),
                all == crate::scan::words(s@, Separator::WhiteSpace),
                slice_values(all.take(i as int)) == Ok::<Seq<SliceInsetView>, BorderImageFault>(
                    slice_views(values@),
                ),
                fill == exists|k: int| 0 <= k < i && is_fill(#[trigger] all[k]),
            decreases tokens@.len() - i,
        {
            assert(all.take(i + 1).drop_last() =~= all.take(i as int));
            let l = lower(tokens[i].as_slice());
            assert(all[i as int] == tokens@[i as int]@);
            if spells(l.as_slice(), "fill") {
                assert(is_fill(all[i as int]));
                fill = true;
            } else {
                match parse_slice_value(tokens[i].as_slice()) {
                    Ok(x) => {
                        let ghost earlier = values@;
                        let ghost view = x@;
                        values.push(x);
                        assert(slice_views(values@) =~= slice_views(earlier).push(view));
                    },
                    Err(e) => {
                        proof {
                            slice_values_stop(all, i + 1);
                        }
                        return Err(e);
                    },
                }
            }
            i += 1;
        }
        assert(all.take(all.len() as int) =~= all);
        let n: usize = values.len();
        let places = first_numbers(n);
        match expand_trbl(places.as_slice()) {
            Err(e) => Err(e),
            Ok(side) => Ok(
                BorderImageSlice {
                    top: values[side[0]].duplicate(),
                    right: values[side[1]].duplicate(),
                    bottom: values[side[2]].duplicate(),
                    left: values[side[3]].duplicate(),
                    fill,
                },
            ),
        }
    }
}

// ---------------------------------------------------------------------------
// border-image-width
// ---------------------------------------------------------------------------
/// One value of `border-image-width`.
#[derive(Clone, Debug, PartialEq, Eq)]
pub enum BorderImageWidthValue {
    /// Pixels.
    Length(Literal),
    /// Hundredths of the border box's width or height.
    Percentage(Literal),
    /// Multiples of the border width.
    Number(Literal),
    /// The size of the slice.
    Auto,
}

/// [`BorderImageWidthValue`] with its number as it was written.
#[verifier::ext_equal]
pub enum BorderImageWidthView {
    Length(Seq<char>),
    Percentage(Seq<char>),
    Number(Seq<char>),
    Auto,
}

impl View for BorderImageWidthValue {
    type V = BorderImageWidthView;

    open spec fn view(&self) -> BorderImageWidthView {
        match self {
            BorderImageWidthValue::Length(l) => BorderImageWidthView::Length(l@),
            BorderImageWidthValue::Percentage(l) => BorderImageWidthView::Percentage(l@),
            BorderImageWidthValue::Number(l) => BorderImageWidthView::Number(l@),
            BorderImageWidthValue::Auto => BorderImageWidthView::Auto,
        }
    }
}

impl BorderImageWidthValue {
    fn duplicate(&self) -> (r: BorderImageWidthValue)
        ensures
            r@ == self@,
    {
        match self {
            BorderImageWidthValue::Length(l) => BorderImageWidthValue::Length(l.duplicate()),
            BorderImageWidthValue::Percentage(l) => BorderImageWidthValue::Percentage(l.duplicate()),
            BorderImageWidthValue::Number(l) => BorderImageWidthValue::Number(l.duplicate()),
            BorderImageWidthValue::Auto => BorderImageWidthValue::Auto,
        }
    }
}

impl Default for BorderImageWidthValue {
    fn default() -> (r: BorderImageWidthValue)
        ensures
            r@ == BorderImageWidthView::Number("1"@),
    {
        BorderImageWidthValue::Number(Literal { text: "1".to_owned() })
    }
}

/// The value of `border-image-width`.
#[derive(Clone, Debug, PartialEq, Eq)]
pub struct BorderImageWidths {
    pub top: BorderImageWidthValue,
    pub right: BorderImageWidthValue,
    pub bottom: BorderImageWidthValue,
    pub left: BorderImageWidthValue,
}

/// [`BorderImageWidths`] with its numbers as they were written.
#[verifier::ext_equal]
pub struct BorderImageWidthsView {
    pub top: BorderImageWidthView,
    pub right: BorderImageWidthView,
    pub bottom: BorderImageWidthView,
    pub left: BorderImageWidthView,
}

impl View for BorderImageWidths {
    type V = BorderImageWidthsView;

    open spec fn view(&self) -> BorderImageWidthsView {
        BorderImageWidthsView {
            top: self.top@,
            right: self.right@,
            bottom: self.bottom@,
            left: self.left@,
        }
    }
}

impl Default for BorderImageWidths {
    fn default() -> (r: BorderImageWidths)
        ensures
            r@ == (BorderImageWidthsView {
                top: BorderImageWidthView::Number("1"@),
                right: BorderImageWidthView::Number("1"@),
                bottom: BorderImageWidthView::Number("1"@),
                left: BorderImageWidthView::Number("1"@),
            }),
    {
        BorderImageWidths {
            top: BorderImageWidthValue::default(),
            right: BorderImageWidthValue::default(),
            bottom: BorderImageWidthValue::default(),
            left: BorderImageWidthValue::default(),
        }
    }
}

/// What the token `s` parses to as one value of `border-image-width`.
pub open spec fn width_value_outcome(s: Seq<char>) -> Result<
    BorderImageWidthView,
    BorderImageFault,
> {
    if crate::text::lowered(s) == "auto"@ {
        Ok(BorderImageWidthView::Auto)
    } else {
        match before(s, "%"@) {
            Some(p) => match magnitude_outcome(p, s) {
                Ok(l) => Ok(BorderImageWidthView::Percentage(l)),
                Err(e) => Err(e),
            },
            None => match before(s, "px"@) {
                Some(p) => match magnitude_outcome(p, s) {
                    Ok(l) => Ok(BorderImageWidthView::Length(l)),
                    Err(e) => Err(e),
                },
                None => match magnitude_outcome(s, s) {
                    Ok(l) => Ok(BorderImageWidthView::Number(l)),
                    Err(e) => Err(e),
                },
            },
        }
    }
}

fn parse_width_value(s: &[char]) -> (r: Result<BorderImageWidthValue, BorderImageParseError>)
    ensures
        crate::outcome::viewed(r) == width_value_outcome(s@),
{
    let l = lower(s);
    if spells(l.as_slice(), "auto") {
        return Ok(BorderImageWidthValue::Auto);
    }
    if let Some(p) = strip(s, "%") {
        return match parse_magnitude(p.as_slice(), s) {
            Ok(l) => Ok(BorderImageWidthValue::Percentage(l)),
            Err(e) => Err(e),
        };
    }
    if let Some(p) = strip(s, "px") {
        return match parse_magnitude(p.as_slice(), s) {
            Ok(l) => Ok(BorderImageWidthValue::Length(l)),
            Err(e) => Err(e),
        };
    }
    match parse_magnitude(s, s) {
        Ok(l) => Ok(BorderImageWidthValue::Number(l)),
        Err(e) => Err(e),
    }
}

/// The values of the tokens of `border-image-width`, in their order.
pub open spec fn width_values(tokens: Seq<Seq<char>>) -> Result<
    Seq<BorderImageWidthView>,
    BorderImageFault,
>
    decreases tokens.len(),
{
    if tokens.len() == 0 {
        Ok(Seq::empty())
    } else {
        match width_values(tokens.drop_last()) {
            Ok(list) => match width_value_outcome(tokens.last()) {
                Ok(v) => Ok(list.push(v)),
                Err(e) => Err(e),
            },
            Err(e) => Err(e),
        }
    }
}

/// What the text `s` parses to as the value of `border-image-width`: one to four
/// values.
pub open spec fn width_outcome(s: Seq<char>) -> Result<BorderImageWidthsView, BorderImageFault> {
    match width_values(crate::scan::words(s, Separator::WhiteSpace)) {
        Err(e) => Err(e),
        Ok(values) => match crate::sides::expanded(values) {
            None => Err(BorderImageFault::TooManyValues),
            Some((top, right, bottom, left)) => Ok(
                BorderImageWidthsView { top, right, bottom, left },
            ),
        },
    }
}

/// The views of a list of values.
pub open spec fn width_views(v: Seq<BorderImageWidthValue>) -> Seq<BorderImageWidthView> {
    v.map_values(|x: BorderImageWidthValue| x@)
}

proof fn width_values_stop(tokens: Seq<Seq<char>>, n: int)
    requires
        0 <= n <= tokens.len(),
        width_values(tokens.take(n)) is Err,
    ensures
        width_values(tokens) == width_values(tokens.take(n)),
    decreases tokens.len() - n,
{
    if n == tokens.len() {
        assert(tokens.take(n) =~= tokens);
    } else {
        assert(tokens.take(n + 1).drop_last() =~= tokens.take(n));
        width_values_stop(tokens, n + 1);
    }
}

impl BorderImageWidths {
    /// Parses the value of `border-image-width`.
    pub fn parse(s: &str) -> (r: Result<BorderImageWidths, BorderImageParseError>)
        ensures
            crate::outcome::viewed(r) == width_outcome(s@),
    {
        let v = chars_of(s);
        let tokens = split_words(v.as_slice(), Separator::WhiteSpace);
        let ghost all = crate::scan::texts(tokens@);
        let mut values: Vec<BorderImageWidthValue> = Vec::new();
        let mut i: usize = 0;
        assert(all.take(0) =~= Seq::<Seq<char>>::empty());
        assert(width_views(values@) =~= Seq::<BorderImageWidthView>::empty());
        while i < tokens.len()
            invariant
                i <= tokens@.len(),
                all == crate::scan::texts(tokens@),
                all == crate::scan::words(s@, Separator::WhiteSpace),
                width_values(all.take(i as int)) == Ok::<
                    Seq<BorderImageWidthView>,
                    BorderImageFault,
                >(width_views(values@)),
            decreases tokens@.len() - i,
        {
            assert(all.take(i + 1).drop_last() =~= all.take(i as int));
            match parse_width_value(tokens[i].as_slice()) {
                Ok(x) => {
                    let ghost earlier = values@;
                    let ghost view = x@;
                    values.push(x);
                    assert(width_views(values@) =~= width_views(earlier).push(view));
                },
                Err(e) => {
                    proof {
                        width_values_stop(all, i + 1);
                    }
                    return Err(e);
                },
            }
            i += 1;
        }
        assert(all.take(all.len() as int) =~= all);
        let places = first_numbers(values.len());
        match expand_trbl(places.as_slice()) {
            Err(e) => Err(e),
            Ok(side) => Ok(
                BorderImageWidths {
                    top: values[side[0]].duplicate(),
                    right: values[side[1]].duplicate(),
                    bottom: values[side[2]].duplicate(),
                    left: values[side[3]].duplicate(),
                },
            ),
        }
    }
}

// ---------------------------------------------------------------------------
// border-image-outset
// ---------------------------------------------------------------------------
/// One value of `border-image-outset`.
#[derive(Clone, Debug, PartialEq, Eq)]
pub enum OutsetValue {
    /// Pixels.
    Length(Literal),
    /// Multiples of the border width.
    Number(Literal),
}

/// [`OutsetValue`] with its number as it was written.
#[verifier::ext_equal]
pub enum OutsetView {
    Length(Seq<char>),
    Number(Seq<char>),
}

impl View for OutsetValue {
    type V = OutsetView;

    open spec fn view(&self) -> OutsetView {
        match self {
            OutsetValue::Length(l) => OutsetView::Length(l@),
            OutsetValue::Number(l) => OutsetView::Number(l@),
        }
    }
}

impl OutsetValue {
    fn duplicate(&self) -> (r: OutsetValue)
        ensures
            r@ == self@,
    {
        match self {
            OutsetValue::Length(l) => OutsetValue::Length(l.duplicate()),
            OutsetValue::Number(l) => OutsetValue::Number(l.duplicate()),
        }
    }
}

impl Default for OutsetValue {
    fn default() -> (r: OutsetValue)
        ensures
            r@ == OutsetView::Length("0"@),
    {
        OutsetValue::Length(Literal { text: "0".to_owned() })
    }
}

/// The value of `border-image-outset`.
#[derive(Clone, Debug, PartialEq, Eq)]
pub struct BorderImageOutset {
    pub top: OutsetValue,
    pub right: OutsetValue,
    pub bottom: OutsetValue,
    pub left: OutsetValue,
}

/// [`BorderImageOutset`] with its numbers as they were written.
#[verifier::ext_equal]
pub struct BorderImageOutsetView {
    pub top: OutsetView,
    pub right: OutsetView,
    pub bottom: OutsetView,
    pub left: OutsetView,
}

impl View for BorderImageOutset {
    type V = BorderImageOutsetView;

    open spec fn view(&self) -> BorderImageOutsetView {
        BorderImageOutsetView {
            top: self.top@,
            right: self.right@,
            bottom: self.bottom@,
            left: self.left@,
        }
    }
}

impl Default for BorderImageOutset {
    fn default() -> (r: BorderImageOutset)
        ensures
            r@ == (BorderImageOutsetView {
                top: OutsetView::Length("0"@),
                right: OutsetView::Length("0"@),
                bottom: OutsetView::Length("0"@),
                left: OutsetView::Length("0"@),
            }),
    {
        BorderImageOutset {
            top: OutsetValue::default(),
            right: OutsetValue::default(),
            bottom: OutsetValue::default(),
            left: OutsetValue::default(),
        }
    }
}

/// What the token `s` parses to as one value of `border-image-outset`.
pub open spec fn outset_value_outcome(s: Seq<char>) -> Result<OutsetView, BorderImageFault> {
    match before(s, "px"@) {
        Some(p) => match magnitude_outcome(p, s) {
            Ok(l) => Ok(OutsetView::Length(l)),
            Err(e) => Err(e),
        },
        None => match magnitude_outcome(s, s) {
            Ok(l) => Ok(OutsetView::Number(l)),
            Err(e) => Err(e),
        },
    }
}

fn parse_outset_value(s: &[char]) -> (r: Result<OutsetValue, BorderImageParseError>)
    ensures
        crate::outcome::viewed(r) == outset_value_outcome(s@),
{
    match strip(s, "px") {
        Some(p) => match parse_magnitude(p.as_slice(), s) {
            Ok(l) => Ok(OutsetValue::Length(l)),
            Err(e) => Err(e),
        },
        None => match parse_magnitude(s, s) {
            Ok(l) => Ok(OutsetValue::Number(l)),
            Err(e) => Err(e),
        },
    }
}

/// The values of the tokens of `border-image-outset`, in their order.
pub open spec fn outset_values(tokens: Seq<Seq<char>>) -> Result<
    Seq<OutsetView>,
    BorderImageFault,
>
    decreases tokens.len(),
{
    if tokens.len() == 0 {
        Ok(Seq::empty())
    } else {
        match outset_values(tokens.drop_last()) {
            Ok(list) => match outset_value_outcome(tokens.last()) {
                Ok(v) => Ok(list.push(v)),
                Err(e) => Err(e),
            },
            Err(e) => Err(e),
        }
    }
}

/// What the text `s` parses to as the value of `border-image-outset`: one to four
/// values.
pub open spec fn outset_outcome(s: Seq<char>) -> Result<BorderImageOutsetView, BorderImageFault> {
    match outset_values(crate::scan::words(s, Separator::WhiteSpace)) {
        Err(e) => Err(e),
        Ok(values) => match crate::sides::expanded(values) {
            None => Err(BorderImageFault::TooManyValues),
            Some((top, right, bottom, left)) => Ok(
                BorderImageOutsetView { top, right, bottom, left },
            ),
        },
    }
}

/// The views of a list of values.
pub open spec fn outset_views(v: Seq<OutsetValue>) -> Seq<OutsetView> {
    v.map_values(|x: OutsetValue| x@)
}

proof fn outset_values_stop(tokens: Seq<Seq<char>>, n: int)
    requires
        0 <= n <= tokens.len(),
        outset_values(tokens.take(n)) is Err,
    ensures
        outset_values(tokens) == outset_values(tokens.take(n)),
    decreases tokens.len() - n,
{
    if n == tokens.len() {
        assert(tokens.take(n) =~= tokens);
    } else {
        assert(tokens.take(n + 1).drop_last() =~= tokens.take(n));
        outset_values_stop(tokens, n + 1);
    }
}

impl BorderImageOutset {
    /// Parses the value of `border-image-outset`.
    pub fn parse(s: &str) -> (r: Result<BorderImageOutset, BorderImageParseError>)
        ensures
            crate::outcome::viewed(r) == outset_outcome(s@),
    {
        let v = chars_of(s);
        let tokens = split_words(v.as_slice(), Separator::WhiteSpace);
        let ghost all = crate::scan::texts(tokens@);
        let mut values: Vec<OutsetValue> = Vec::new();
        let mut i: usize = 0;
        assert(all.take(0) =~= Seq::<Seq<char>>::empty());
        assert(outset_views(values@) =~= Seq::<OutsetView>::empty());
        while i < tokens.len()
            invariant
                i <= tokens@.len(),
                all == crate::scan::texts(tokens@),
                all == crate::scan::words(s@, Separator::WhiteSpace),
                outset_values(all.take(i as int)) == Ok::<
                    Seq<OutsetView>,
                    BorderImageFault,
                >(outset_views(values@)),
            decreases tokens@.len() - i,
        {
            assert(all.take(i + 1).drop_last() =~= all.take(i as int));
            match parse_outset_value(tokens[i].as_slice()) {
                Ok(x) => {
                    let ghost earlier = values@;
                    let ghost view = x@;
                    values.push(x);
                    assert(outset_views(values@) =~= outset_views(earlier).push(view));
                },
                Err(e) => {
                    proof {
                        outset_values_stop(all, i + 1);
                    }
                    return Err(e);
                },
            }
            i += 1;
        }
        assert(all.take(all.len() as int) =~= all);
        let places = first_numbers(values.len());
        match expand_trbl(places.as_slice()) {
            Err(e) => Err(e),
            Ok(side) => Ok(
                BorderImageOutset {
                    top: values[side[0]].duplicate(),
                    right: values[side[1]].duplicate(),
                    bottom: values[side[2]].duplicate(),
                    left: values[side[3]].duplicate(),
                },
            ),
        }
    }
}

// ---------------------------------------------------------------------------
// border-image-repeat
// ---------------------------------------------------------------------------
/// How an edge is tiled.
#[derive(Clone, Copy, Debug, PartialEq, Eq, Hash, Structural)]
pub enum BorderImageRepeat {
    /// One tile, scaled to the edge.
    Stretch,
    /// Tiles of their own size; the ends are clipped.
    Repeat,
    /// A whole number of tiles, scaled to fit.
    Round,
    /// Whole tiles of their own size, with even gaps.
    Space,
}

impl Default for BorderImageRepeat {
    fn default() -> (r: BorderImageRepeat)
        ensures
            r == BorderImageRepeat::Stretch,
    {
        BorderImageRepeat::Stretch
    }
}

impl BorderImageRepeat {
    /// The keyword of the tiling.
    pub open spec fn name(self) -> Seq<char> {
        match self {
            BorderImageRepeat::Stretch => "stretch"@,
            BorderImageRepeat::Repeat => "repeat"@,
            BorderImageRepeat::Round => "round"@,
            BorderImageRepeat::Space => "space"@,
        }
    }

    /// The tiling with the keyword `k`.
    pub open spec fn named(k: Seq<char>) -> Option<BorderImageRepeat> {
        if k == "stretch"@ {
            Some(BorderImageRepeat::Stretch)
        } else if k == "repeat"@ {
            Some(BorderImageRepeat::Repeat)
        } else if k == "round"@ {
            Some(BorderImageRepeat::Round)
        } else if k == "space"@ {
            Some(BorderImageRepeat::Space)
        } else {
            None
        }
    }

    /// Parses one keyword, in any case and with white space around it.
    pub fn parse(tok: &str) -> (r: Option<BorderImageRepeat>)
        ensures
            r == BorderImageRepeat::named(crate::text::keyword_form(tok@)),
    {
        let k = keyword(tok);
        if spells(k.as_slice(), "stretch") {
            Some(BorderImageRepeat::Stretch)
        } else if spells(k.as_slice(), "repeat") {
            Some(BorderImageRepeat::Repeat)
        } else if spells(k.as_slice(), "round") {
            Some(BorderImageRepeat::Round)
        } else if spells(k.as_slice(), "space") {
            Some(BorderImageRepeat::Space)
        } else {
            None
        }
    }
}

/// Every tiling is found by its keyword.
pub proof fn keywords_name_their_tilings(r: BorderImageRepeat)
    ensures
        BorderImageRepeat::named(crate::text::keyword_form(r.name())) == Some(r),
{
    reveal_strlit("stretch");
    reveal_strlit("repeat");
    reveal_strlit("round");
    reveal_strlit("space");
    crate::text::keyword_form_of_keyword(r.name());
    assert("stretch"@.len() == 7 && "repeat"@.len() == 6 && "round"@.len() == 5 && "space"@.len()
        == 5);
    assert("round"@[0] != "space"@[0]);
}

/// How the horizontal and the vertical edges are tiled.
#[derive(Clone, Copy, Debug, PartialEq, Eq, Structural)]
pub struct BorderImageRepeatPair {
    pub horizontal: BorderImageRepeat,
    pub vertical: BorderImageRepeat,
}

impl Default for BorderImageRepeatPair {
    fn default() -> (r: BorderImageRepeatPair)
        ensures
            r == (BorderImageRepeatPair {
                horizontal: BorderImageRepeat::Stretch,
                vertical: BorderImageRepeat::Stretch,
            }),
    {
        BorderImageRepeatPair {
            horizontal: BorderImageRepeat::Stretch,
            vertical: BorderImageRepeat::Stretch,
        }
    }
}

/// What the token `s` parses to as one keyword of `border-image-repeat`.
pub open spec fn repeat_outcome(s: Seq<char>) -> Result<BorderImageRepeat, BorderImageFault> {
    match BorderImageRepeat::named(crate::text::keyword_form(s)) {
        Some(r) => Ok(r),
        None => Err(BorderImageFault::UnknownKeyword(s)),
    }
}

/// What the text `s` parses to as the value of `border-image-repeat`: one
/// keyword for both axes, or one for each.
pub open spec fn repeat_pair_outcome(s: Seq<char>) -> Result<
    BorderImageRepeatPair,
    BorderImageFault,
> {
    let tokens = crate::scan::words(s, Separator::WhiteSpace);
    if tokens.len() == 1 || tokens.len() == 2 {
        match repeat_outcome(tokens[0]) {
            Err(e) => Err(e),
            Ok(horizontal) => match repeat_outcome(tokens[tokens.len() - 1]) {
                Err(e) => Err(e),
                Ok(vertical) => Ok(BorderImageRepeatPair { horizontal, vertical }),
            },
        }
    } else {
        Err(BorderImageFault::TooManyValues)
    }
}

fn parse_repeat(s: &[char]) -> (r: Result<BorderImageRepeat, BorderImageParseError>)
    ensures
        crate::outcome::judged(r) == repeat_outcome(s@),
{
    let text = string_of(s);
    match BorderImageRepeat::parse(text.as_str()) {
        Some(r) => Ok(r),
        None => Err(BorderImageParseError::UnknownKeyword(text)),
    }
}

impl BorderImageRepeatPair {
    /// Parses the value of `border-image-repeat`.
    pub fn parse(s: &str) -> (r: Result<BorderImageRepeatPair, BorderImageParseError>)
        ensures
            crate::outcome::judged(r) == repeat_pair_outcome(s@),
    {
        let v = chars_of(s);
        let tokens = split_words(v.as_slice(), Separator::WhiteSpace);
        let n: usize = tokens.len();
        if n != 1 && n != 2 {
            return Err(BorderImageParseError::TooManyValues);
        }
        assert(crate::scan::texts(tokens@)[0] == tokens@[0]@);
        assert(crate::scan::texts(tokens@)[n - 1] == tokens@[n - 1]@);
        match parse_repeat(tokens[0].as_slice()) {
            Err(e) => Err(e),
            Ok(horizontal) => match parse_repeat(tokens[n - 1].as_slice()) {
                Err(e) => Err(e),
                Ok(vertical) => Ok(BorderImageRepeatPair { horizontal, vertical }),
            },
        }
    }
}

/// One keyword tiles both axes alike.
pub proof fn one_keyword_serves_both_axes(s: Seq<char>)
    requires
        crate::scan::words(s, Separator::WhiteSpace).len() == 1,
    ensures
        repeat_pair_outcome(s) matches Ok(p) ==> p.horizontal == p.vertical,
{
}

/// No number that is accepted is negative.
pub proof fn accepted_numbers_are_not_negative(s: Seq<char>, whole: Seq<char>)
    ensures
        magnitude_outcome(s, whole) matches Ok(l) ==> (Precision::Single.reading(l) matches Some(x)
            && !x.is_below_zero()),
{
}

/// Each tiling has the keyword of its own, in any case and with white space
/// around it; what is none of them is no tiling.
pub proof fn tilings_have_their_keywords(s: Seq<char>)
    ensures
        ({
            let k = crate::text::lowered(crate::text::trimmed(s));
            let r = BorderImageRepeat::named(crate::text::keyword_form(s));
            &&& r == Some(BorderImageRepeat::Stretch) <==> k == "stretch"@
            &&& r == Some(BorderImageRepeat::Repeat) <==> k == "repeat"@
            &&& r == Some(BorderImageRepeat::Round) <==> k == "round"@
            &&& r == Some(BorderImageRepeat::Space) <==> k == "space"@
        }),
{
    reveal_strlit("stretch");
    reveal_strlit("repeat");
    reveal_strlit("round");
    reveal_strlit("space");
    assert("stretch"@.len() == 7);
    assert("repeat"@.len() == 6);
    assert("round"@.len() == 5);
    assert("space"@.len() == 5);
    assert("round"@[0] == 'r' && "space"@[0] == 's');
}

} // verus!
