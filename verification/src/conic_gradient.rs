//! Conic gradients with too few stops to run between.

use vstd::prelude::*;

use crate::color::Color;

verus! {

/// The colour of a gradient that has the same colour everywhere: transparent
/// without any stop, and that of the stop where there is only one.
pub open spec fn solid(stops: Seq<Color>) -> Option<Color> {
    if stops.len() == 0 {
        Some(Color { r: 0, g: 0, b: 0, a: 0 })
    } else if stops.len() == 1 {
        Some(stops[0])
    } else {
        None
    }
}

/// The colour of a gradient with these stops at every angle, where there is one
/// such colour.
pub fn solid_color(stops: &[Color]) -> (r: Option<Color>)
    ensures
        r == solid(stops@),
{
    if stops.len() == 0 {
        Some(Color { r: 0, g: 0, b: 0, a: 0 })
    } else if stops.len() == 1 {
        Some(stops[0])
    } else {
        None
    }
}

/// A gradient has one colour everywhere exactly where it has at most one stop:
/// the colour of that stop, and without any stop none that can be seen.
pub proof fn solid_gradients_have_one_stop(stops: Seq<Color>)
    ensures
        solid(stops) is Some <==> stops.len() <= 1,
        solid(stops) matches Some(c) ==> forall|i: int|
            0 <= i < stops.len() ==> #[trigger] stops[i] == c,
        solid(stops) matches Some(c) ==> stops.len() == 0 ==> c == (Color { r: 0, g: 0, b: 0, a: 0 }),
{
}

} // verus!
