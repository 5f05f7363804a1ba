//! What calculations mean, as exact arithmetic.
//!
//! Whatever numbers the written ones stand for, however long the lengths are in
//! pixels and whatever percentages are of: the formula that a calculation comes
//! to has the value of the calculation.

use vstd::prelude::*;

use crate::calc::evaluate::{CalcType, FormulaView, ResultView};
use crate::calc::{CalcView, LengthView};

verus! {

/// What the parts of calculations stand for.
pub struct Measures {
    /// The number that a text writes.
    pub number: spec_fn(Seq<char>) -> real,
    /// A length in pixels.
    pub pixels: spec_fn(LengthView) -> real,
    /// What percentages are of, in pixels.
    pub basis: real,
}

/// The smaller of two values.
pub open spec fn smaller(a: real, b: real) -> real {
    if b < a {
        b
    } else {
        a
    }
}

/// The larger of two values.
pub open spec fn larger(a: real, b: real) -> real {
    if b > a {
        b
    } else {
        a
    }
}

/// The smallest of some values.
pub open spec fn smallest(values: Seq<real>) -> real
    decreases values.len(),
{
    if values.len() <= 1 {
        values[0]
    } else {
        smaller(smallest(values.drop_last()), values.last())
    }
}

/// The largest of some values.
pub open spec fn largest(values: Seq<real>) -> real
    decreases values.len(),
{
    if values.len() <= 1 {
        values[0]
    } else {
        larger(largest(values.drop_last()), values.last())
    }
}

/// `val` between the bounds; where they cross, the lower bound.
pub open spec fn bounded(low: real, val: real, high: real) -> real {
    if low > high {
        low
    } else {
        smaller(larger(val, low), high)
    }
}

/// A percentage of the basis.
pub open spec fn of_basis(percent: real, w: Measures) -> real {
    percent / (100 as real) * w.basis
}

/// The value of a formula.
pub open spec fn formula_value(f: FormulaView, w: Measures) -> real
    decreases f,
{
    match f {
        FormulaView::Zero => 0 as real,
        FormulaView::Written(l) => (w.number)(l),
        FormulaView::Pixels(l) => (w.pixels)(l),
        FormulaView::Sum(a, b) => formula_value(*a, w) + formula_value(*b, w),
        FormulaView::Negated(a) => (0 as real) - formula_value(*a, w),
        FormulaView::Product(a, b) => formula_value(*a, w) * formula_value(*b, w),
        FormulaView::Inverse(a) => (1 as real) / formula_value(*a, w),
        FormulaView::Resolved(px, percent) => formula_value(*px, w) + of_basis(
            formula_value(*percent, w),
            w,
        ),
        FormulaView::Least(list) => smallest(formula_values(list, w)),
        FormulaView::Greatest(list) => largest(formula_values(list, w)),
        FormulaView::Clamped(a, b, c) => bounded(
            formula_value(*a, w),
            formula_value(*b, w),
            formula_value(*c, w),
        ),
    }
}

/// The values of some formulas.
pub open spec fn formula_values(list: Seq<FormulaView>, w: Measures) -> Seq<real>
    decreases list,
{
    if list.len() == 0 {
        Seq::empty()
    } else {
        formula_values(list.drop_last(), w).push(formula_value(list[list.len() - 1], w))
    }
}

/// The value of a calculation: that of a length is in pixels.
pub open spec fn calc_value(n: CalcView, w: Measures) -> real
    decreases n,
{
    match n {
        CalcView::Number(l) => (w.number)(l),
        CalcView::Length(l) => (w.pixels)(l),
        CalcView::Percent(l) => of_basis((w.number)(l), w),
        CalcView::Add(a, b) => calc_value(*a, w) + calc_value(*b, w),
        CalcView::Sub(a, b) => calc_value(*a, w) - calc_value(*b, w),
        CalcView::Mul(a, b) => calc_value(*a, w) * calc_value(*b, w),
        CalcView::Div(a, b) => calc_value(*a, w) / calc_value(*b, w),
        CalcView::Min(args) => smallest(calc_values(args, w)),
        CalcView::Max(args) => largest(calc_values(args, w)),
        CalcView::Clamp(a, b, c) => bounded(
            calc_value(*a, w),
            calc_value(*b, w),
            calc_value(*c, w),
        ),
    }
}

/// The values of some calculations.
pub open spec fn calc_values(args: Seq<CalcView>, w: Measures) -> Seq<real>
    decreases args,
{
    if args.len() == 0 {
        Seq::empty()
    } else {
        calc_values(args.drop_last(), w).push(calc_value(args[args.len() - 1], w))
    }
}

/// No divisor in the calculation is zero.
pub open spec fn divides(n: CalcView, w: Measures) -> bool
    decreases n,
{
    match n {
        CalcView::Number(_) => true,
        CalcView::Length(_) => true,
        CalcView::Percent(_) => true,
        CalcView::Add(a, b) => divides(*a, w) && divides(*b, w),
        CalcView::Sub(a, b) => divides(*a, w) && divides(*b, w),
        CalcView::Mul(a, b) => divides(*a, w) && divides(*b, w),
        CalcView::Div(a, b) => divides(*a, w) && divides(*b, w) && calc_value(*b, w) != (0 as real),
        CalcView::Min(args) => all_divide(args, w),
        CalcView::Max(args) => all_divide(args, w),
        CalcView::Clamp(a, b, c) => divides(*a, w) && divides(*b, w) && divides(*c, w),
    }
}

/// No divisor in the calculations is zero.
pub open spec fn all_divide(args: Seq<CalcView>, w: Measures) -> bool
    decreases args,
{
    if args.len() == 0 {
        true
    } else {
        all_divide(args.drop_last(), w) && divides(args[args.len() - 1], w)
    }
}

/// The value of a result: that of a length is its pixels and its percentage of
/// the basis.
pub open spec fn result_value(r: ResultView, w: Measures) -> real {
    match r {
        ResultView::Number(f) => formula_value(f, w),
        ResultView::Length { px, percent } => formula_value(px, w) + of_basis(
            formula_value(percent, w),
            w,
        ),
    }
}

proof fn parts_scale(px: real, percent: real, factor: real, basis: real)
    ensures
        px * factor + percent * factor / (100 as real) * basis == (px + percent / (100 as real)
            * basis) * factor,
{
    let h = percent / (100 as real);
    assert(percent * factor / (100 as real) == h * factor) by (nonlinear_arith)
        requires
            h == percent / (100 as real),
    ;
    assert(px * factor + h * factor * basis == (px + h * basis) * factor) by (nonlinear_arith);
}

proof fn parts_add(px: real, percent: real, more_px: real, more_percent: real, basis: real)
    ensures
        (px + more_px) + (percent + more_percent) / (100 as real) * basis == (px + percent / (
        100 as real) * basis) + (more_px + more_percent / (100 as real) * basis),
{
    let h = percent / (100 as real);
    let k = more_percent / (100 as real);
    assert((percent + more_percent) / (100 as real) == h + k) by (nonlinear_arith)
        requires
            h == percent / (100 as real),
            k == more_percent / (100 as real),
    ;
    assert((h + k) * basis == h * basis + k * basis) by (nonlinear_arith);
}

proof fn parts_subtract(px: real, percent: real, less_px: real, less_percent: real, basis: real)
    ensures
        (px + ((0 as real) - less_px)) + (percent + ((0 as real) - less_percent)) / (100 as real)
            * basis == (px + percent / (100 as real) * basis) - (less_px + less_percent / (
        100 as real) * basis),
{
    let zero = 0 as real;
    parts_add(px, percent, zero - less_px, zero - less_percent, basis);
    let k = less_percent / (100 as real);
    assert((zero - less_percent) / (100 as real) == zero - k) by (nonlinear_arith)
        requires
            k == less_percent / (100 as real),
            zero == 0 as real,
    ;
    assert((zero - k) * basis == zero - k * basis) by (nonlinear_arith)
        requires
            zero == 0 as real,
    ;
}

proof fn nothing_of_the_basis(basis: real)
    ensures
        (0 as real) / (100 as real) * basis == 0 as real,
{
    assert((0 as real) / (100 as real) == 0 as real) by (nonlinear_arith);
    assert((0 as real) * basis == 0 as real) by (nonlinear_arith);
}

/// A result times a factor has the value times the factor.
proof fn scaling_multiplies(r: ResultView, factor: FormulaView, w: Measures)
    ensures
        result_value(r.scaled(factor), w) == result_value(r, w) * formula_value(factor, w),
{
    if let ResultView::Length { px, percent } = r {
        parts_scale(
            formula_value(px, w),
            formula_value(percent, w),
            formula_value(factor, w),
            w.basis,
        );
    }
}

/// A value that is a result of its own.
proof fn typed_values(t: CalcType, f: FormulaView, w: Measures)
    ensures
        result_value(crate::calc::evaluate::of_type(t, f), w) == formula_value(f, w),
{
    nothing_of_the_basis(w.basis);
}

/// The value of what a calculation comes to is the value of the calculation.
///
/// So a sum adds, a difference subtracts, a product multiplies and a quotient
/// divides, the pixels and the percentages alike; `min()` and `max()` pick the
/// smallest and the largest argument, and `clamp()` stays between its bounds.
/// No divisor is zero.
pub proof fn calculations_have_their_value(n: CalcView, w: Measures)
    requires
        divides(n, w),
    ensures
        crate::calc::evaluate::result_outcome(n) matches Ok(r) ==> result_value(r, w)
            == calc_value(n, w),
    decreases n,
{
    match n {
        CalcView::Number(_) => {},
        CalcView::Length(_) => {
            nothing_of_the_basis(w.basis);
        },
        CalcView::Percent(_) => {},
        CalcView::Add(a, b) => {
            calculations_have_their_value(*a, w);
            calculations_have_their_value(*b, w);
            if let (Ok(x), Ok(y)) = (
                crate::calc::evaluate::result_outcome(*a),
                crate::calc::evaluate::result_outcome(*b),
            ) {
                sums_add(x, y, w);
            }
        },
        CalcView::Sub(a, b) => {
            calculations_have_their_value(*a, w);
            calculations_have_their_value(*b, w);
            if let (Ok(x), Ok(y)) = (
                crate::calc::evaluate::result_outcome(*a),
                crate::calc::evaluate::result_outcome(*b),
            ) {
                differences_subtract(x, y, w);
            }
        },
        CalcView::Mul(a, b) => {
            calculations_have_their_value(*a, w);
            calculations_have_their_value(*b, w);
            if let (Ok(x), Ok(y)) = (
                crate::calc::evaluate::result_outcome(*a),
                crate::calc::evaluate::result_outcome(*b),
            ) {
                products_multiply(x, y, w);
            }
        },
        CalcView::Div(a, b) => {
            calculations_have_their_value(*a, w);
            calculations_have_their_value(*b, w);
            if let (Ok(x), Ok(y)) = (
                crate::calc::evaluate::result_outcome(*a),
                crate::calc::evaluate::result_outcome(*b),
            ) {
                quotients_divide(x, y, w);
            }
        },
        CalcView::Min(args) => {
            arguments_have_their_value(args, w);
            if let Ok((t, values)) = crate::calc::evaluate::values_outcome(args) {
                typed_values(t, FormulaView::Least(values), w);
            }
        },
        CalcView::Max(args) => {
            arguments_have_their_value(args, w);
            if let Ok((t, values)) = crate::calc::evaluate::values_outcome(args) {
                typed_values(t, FormulaView::Greatest(values), w);
            }
        },
        CalcView::Clamp(a, b, c) => {
            calculations_have_their_value(*a, w);
            calculations_have_their_value(*b, w);
            calculations_have_their_value(*c, w);
            if let (Ok(x), Ok(y), Ok(z)) = (
                crate::calc::evaluate::result_outcome(*a),
                crate::calc::evaluate::result_outcome(*b),
                crate::calc::evaluate::result_outcome(*c),
            ) {
                clamps_are_bounded(x, y, z, w);
            }
        },
    }
}

proof fn arguments_have_their_value(args: Seq<CalcView>, w: Measures)
    requires
        all_divide(args, w),
    ensures
        crate::calc::evaluate::values_outcome(args) matches Ok((t, values)) ==> formula_values(
            values,
            w,
        ) == calc_values(args, w),
    decreases args,
{
    if args.len() == 1 {
        calculations_have_their_value(args[0], w);
        reveal_with_fuel(calc_values, 2);
        reveal_with_fuel(formula_values, 2);
        assert(args.drop_last() =~= Seq::<CalcView>::empty());
        if let Ok(x) = crate::calc::evaluate::result_outcome(args[0]) {
            plain_values(x, w);
            assert(seq![x.plain()].drop_last() =~= Seq::<FormulaView>::empty());
        }
    } else if args.len() > 1 {
        arguments_have_their_value(args.drop_last(), w);
        calculations_have_their_value(args[args.len() - 1], w);
        if let Ok((t, values)) = crate::calc::evaluate::values_outcome(args.drop_last()) {
            if let Ok(x) = crate::calc::evaluate::result_outcome(args[args.len() - 1]) {
                plain_values(x, w);
                assert(values.push(x.plain()).drop_last() =~= values);
            }
        }
    }
}

/// The sum of two results has the sum of their values.
proof fn sums_add(x: ResultView, y: ResultView, w: Measures)
    ensures
        crate::calc::evaluate::added(x, y) matches Ok(r) ==> result_value(r, w) == result_value(
            x,
            w,
        ) + result_value(y, w),
{
    if let (
        ResultView::Length { px, percent },
        ResultView::Length { px: more_px, percent: more_percent },
    ) = (x, y) {
        parts_add(
            formula_value(px, w),
            formula_value(percent, w),
            formula_value(more_px, w),
            formula_value(more_percent, w),
            w.basis,
        );
    }
}

/// The sum of a result and a negated one has the difference of their values.
proof fn differences_subtract(x: ResultView, y: ResultView, w: Measures)
    ensures
        crate::calc::evaluate::added(x, y.negated()) matches Ok(r) ==> result_value(r, w)
            == result_value(x, w) - result_value(y, w),
{
    reveal_with_fuel(formula_value, 3);
    if let (
        ResultView::Length { px, percent },
        ResultView::Length { px: less_px, percent: less_percent },
    ) = (x, y) {
        parts_subtract(
            formula_value(px, w),
            formula_value(percent, w),
            formula_value(less_px, w),
            formula_value(less_percent, w),
            w.basis,
        );
    }
}

/// The product of two results has the product of their values.
proof fn products_multiply(x: ResultView, y: ResultView, w: Measures)
    ensures
        crate::calc::evaluate::multiplied(x, y) matches Ok(r) ==> result_value(r, w)
            == result_value(x, w) * result_value(y, w),
{
    let (a, b) = (result_value(x, w), result_value(y, w));
    assert(a * b == b * a) by (nonlinear_arith);
    if let ResultView::Number(factor) = y {
        scaling_multiplies(x, factor, w);
    } else if let ResultView::Number(factor) = x {
        scaling_multiplies(y, factor, w);
    }
}

/// The quotient of two results has the quotient of their values.
proof fn quotients_divide(x: ResultView, y: ResultView, w: Measures)
    requires
        result_value(y, w) != (0 as real),
    ensures
        crate::calc::evaluate::divided(x, y) matches Ok(r) ==> result_value(r, w) == result_value(
            x,
            w,
        ) / result_value(y, w),
{
    let (a, b) = (result_value(x, w), result_value(y, w));
    let inverse = (1 as real) / b;
    assert(a * inverse == a / b) by (nonlinear_arith)
        requires
            inverse == (1 as real) / b,
            b != (0 as real),
    ;
    if let ResultView::Number(divisor) = y {
        scaling_multiplies(x, FormulaView::Inverse(Box::new(divisor)), w);
    }
}

/// The number as it is, or the length in pixels, has the value of the result.
proof fn plain_values(r: ResultView, w: Measures)
    ensures
        formula_value(r.plain(), w) == result_value(r, w),
{
}

/// A clamped result has the value between those of its bounds.
proof fn clamps_are_bounded(x: ResultView, y: ResultView, z: ResultView, w: Measures)
    ensures
        crate::calc::evaluate::clamped(x, y, z) matches Ok(r) ==> result_value(r, w) == bounded(
            result_value(x, w),
            result_value(y, w),
            result_value(z, w),
        ),
{
    plain_values(x, w);
    plain_values(y, w);
    plain_values(z, w);
    let f = FormulaView::Clamped(
        Box::new(x.plain()),
        Box::new(y.plain()),
        Box::new(z.plain()),
    );
    typed_values(x.kind(), f, w);
}

/// The pixels of a calculation that is a length, and the number of one that is a
/// number, are its value. No divisor is zero.
pub proof fn resolved_values(n: CalcView, w: Measures)
    requires
        divides(n, w),
    ensures
        crate::calc::evaluate::length_outcome(n) matches Ok(f) ==> formula_value(f, w)
            == calc_value(n, w),
        crate::calc::evaluate::number_outcome(n) matches Ok(f) ==> formula_value(f, w)
            == calc_value(n, w),
{
    calculations_have_their_value(n, w);
    if let Ok(r) = crate::calc::evaluate::result_outcome(n) {
        plain_values(r, w);
    }
}

/// The smallest of some values is one of them, and none is below it; the largest
/// is one of them, and none is above it.
pub proof fn extremes_are_extreme(values: Seq<real>)
    requires
        values.len() > 0,
    ensures
        values.contains(smallest(values)),
        values.contains(largest(values)),
        forall|i: int|
            0 <= i < values.len() ==> smallest(values) <= #[trigger] values[i] <= largest(values),
    decreases values.len(),
{
    if values.len() > 1 {
        let rest = values.drop_last();
        extremes_are_extreme(rest);
        assert(forall|i: int| 0 <= i < rest.len() ==> rest[i] == #[trigger] values[i]);
        let a = choose|i: int| 0 <= i < rest.len() && rest[i] == smallest(rest);
        let b = choose|i: int| 0 <= i < rest.len() && rest[i] == largest(rest);
        assert(values[a] == smallest(rest) && values[b] == largest(rest));
        assert(values[values.len() - 1] == values.last());
    } else {
        assert(values[0] == smallest(values) && values[0] == largest(values));
    }
}

} // verus!
