//! What calculations come to.
//!
//! A calculation comes to a number or to a length, and a length to pixels and
//! a percentage. Each is given as the floating point operations that compute
//! it, in their order.
//!
//! The operands of a sum and the arguments of a function have the same type, a
//! product has a number among its factors, and a divisor is a number.

use vstd::prelude::*;

use crate::calc::{CalcError, CalcFault, CalcNode, CalcView, Length, LengthView};
use crate::number::Literal;

verus! {

/// The type of a calculation.
#[derive(Clone, Copy, Debug, PartialEq, Eq, Structural)]
pub enum CalcType {
    Number,
    Length,
}

impl CalcType {
    /// The name of the type.
    pub open spec fn spelling(self) -> Seq<char> {
        match self {
            CalcType::Number => "number"@,
            CalcType::Length => "length"@,
        }
    }

    /// The name of the type.
    pub fn name(self) -> (r: &'static str)
        ensures
            r@ == self.spelling(),
    {
        match self {
            CalcType::Number => "number",
            CalcType::Length => "length",
        }
    }
}

/// The type of a calculation that should be `wanted` and is `t`.
pub open spec fn required(t: CalcType, wanted: CalcType) -> Result<CalcType, CalcFault> {
    if t == wanted {
        Ok(t)
    } else {
        Err(CalcFault::TypeMismatch { wanted: wanted.spelling(), got: t.spelling() })
    }
}

/// Computes [`required`].
fn require(t: CalcType, wanted: CalcType) -> (r: Result<CalcType, CalcError>)
    ensures
        crate::outcome::judged(r) == required(t, wanted),
{
    if t == wanted {
        Ok(t)
    } else {
        Err(CalcError::TypeMismatch { wanted: wanted.name(), got: t.name() })
    }
}

/// A value, as the operations that compute it.
#[derive(Debug, PartialEq, Eq)]
pub enum Formula {
    Zero,
    /// The number that is written.
    Written(Literal),
    /// A length in pixels.
    Pixels(Length),
    Sum(Box<Formula>, Box<Formula>),
    Negated(Box<Formula>),
    Product(Box<Formula>, Box<Formula>),
    /// One over the value.
    Inverse(Box<Formula>),
    /// Pixels, and hundredths of the basis of percentages.
    Resolved(Box<Formula>, Box<Formula>),
    /// The first value that no other is below.
    Least(Vec<Formula>),
    /// The first value that no other is above.
    Greatest(Vec<Formula>),
    /// The lower bound, the value between the bounds, and the upper bound; the
    /// lower bound wins.
    Clamped(Box<Formula>, Box<Formula>, Box<Formula>),
}

/// A [`Formula`], with its numbers as they were written.
#[verifier::ext_equal]
pub enum FormulaView {
    Zero,
    Written(Seq<char>),
    Pixels(LengthView),
    Sum(Box<FormulaView>, Box<FormulaView>),
    Negated(Box<FormulaView>),
    Product(Box<FormulaView>, Box<FormulaView>),
    Inverse(Box<FormulaView>),
    Resolved(Box<FormulaView>, Box<FormulaView>),
    Least(Seq<FormulaView>),
    Greatest(Seq<FormulaView>),
    Clamped(Box<FormulaView>, Box<FormulaView>, Box<FormulaView>),
}

impl Formula {
    /// The formula as contracts see it.
    pub open spec fn tree(self) -> FormulaView
        decreases self,
    {
        match self {
            Formula::Zero => FormulaView::Zero,
            Formula::Written(l) => FormulaView::Written(l@),
            Formula::Pixels(l) => FormulaView::Pixels(l@),
            Formula::Sum(a, b) => FormulaView::Sum(Box::new(a.tree()), Box::new(b.tree())),
            Formula::Negated(a) => FormulaView::Negated(Box::new(a.tree())),
            Formula::Product(a, b) => FormulaView::Product(Box::new(a.tree()), Box::new(b.tree())),
            Formula::Inverse(a) => FormulaView::Inverse(Box::new(a.tree())),
            Formula::Resolved(a, b) => FormulaView::Resolved(
                Box::new(a.tree()),
                Box::new(b.tree()),
            ),
            Formula::Least(v) => FormulaView::Least(
                Seq::new(
                    v@.len(),
                    |i: int|
                        if 0 <= i < v@.len() {
                            v@[i].tree()
                        } else {
                            arbitrary()
                        },
                ),
            ),
            Formula::Greatest(v) => FormulaView::Greatest(
                Seq::new(
                    v@.len(),
                    |i: int|
                        if 0 <= i < v@.len() {
                            v@[i].tree()
                        } else {
                            arbitrary()
                        },
                ),
            ),
            Formula::Clamped(a, b, c) => FormulaView::Clamped(
                Box::new(a.tree()),
                Box::new(b.tree()),
                Box::new(c.tree()),
            ),
        }
    }
}

impl View for Formula {
    type V = FormulaView;

    open spec fn view(&self) -> FormulaView {
        self.tree()
    }
}

/// The views of a list of formulas.
pub open spec fn formulas(v: Seq<Formula>) -> Seq<FormulaView> {
    v.map_values(|f: Formula| f@)
}

/// What a calculation comes to.
#[derive(Debug, PartialEq, Eq)]
pub enum CalcResult {
    Number(Formula),
    /// Pixels and a percentage.
    Length { px: Formula, percent: Formula },
}

/// A [`CalcResult`], with its numbers as they were written.
#[verifier::ext_equal]
pub enum ResultView {
    Number(FormulaView),
    Length { px: FormulaView, percent: FormulaView },
}

impl View for CalcResult {
    type V = ResultView;

    open spec fn view(&self) -> ResultView {
        match self {
            CalcResult::Number(f) => ResultView::Number(f@),
            CalcResult::Length { px, percent } => ResultView::Length {
                px: px@,
                percent: percent@,
            },
        }
    }
}

impl ResultView {
    /// The type of the result.
    pub open spec fn kind(self) -> CalcType {
        match self {
            ResultView::Number(_) => CalcType::Number,
            ResultView::Length { .. } => CalcType::Length,
        }
    }

    /// The number as it is, or the length in pixels.
    pub open spec fn plain(self) -> FormulaView {
        match self {
            ResultView::Number(f) => f,
            ResultView::Length { px, percent } => FormulaView::Resolved(
                Box::new(px),
                Box::new(percent),
            ),
        }
    }

    /// The result with the other sign.
    pub open spec fn negated(self) -> ResultView {
        match self {
            ResultView::Number(f) => ResultView::Number(FormulaView::Negated(Box::new(f))),
            ResultView::Length { px, percent } => ResultView::Length {
                px: FormulaView::Negated(Box::new(px)),
                percent: FormulaView::Negated(Box::new(percent)),
            },
        }
    }

    /// The result times `factor`.
    pub open spec fn scaled(self, factor: FormulaView) -> ResultView {
        match self {
            ResultView::Number(f) => ResultView::Number(
                FormulaView::Product(Box::new(f), Box::new(factor)),
            ),
            ResultView::Length { px, percent } => ResultView::Length {
                px: FormulaView::Product(Box::new(px), Box::new(factor)),
                percent: FormulaView::Product(Box::new(percent), Box::new(factor)),
            },
        }
    }
}

/// A value of type `t`; that of a length is in pixels.
pub open spec fn of_type(t: CalcType, value: FormulaView) -> ResultView {
    match t {
        CalcType::Number => ResultView::Number(value),
        CalcType::Length => ResultView::Length { px: value, percent: FormulaView::Zero },
    }
}

/// The sum of two results.
pub open spec fn added(a: ResultView, b: ResultView) -> Result<ResultView, CalcFault> {
    match (a, b) {
        (ResultView::Number(x), ResultView::Number(y)) => Ok(
            ResultView::Number(FormulaView::Sum(Box::new(x), Box::new(y))),
        ),
        (
            ResultView::Length { px, percent },
            ResultView::Length { px: more_px, percent: more_percent },
        ) => Ok(
            ResultView::Length {
                px: FormulaView::Sum(Box::new(px), Box::new(more_px)),
                percent: FormulaView::Sum(Box::new(percent), Box::new(more_percent)),
            },
        ),
        _ => Err(
            CalcFault::TypeMismatch {
                wanted: "homogeneous operands"@,
                got: "number + length mix"@,
            },
        ),
    }
}

/// The product of two results.
pub open spec fn multiplied(a: ResultView, b: ResultView) -> Result<ResultView, CalcFault> {
    match (a, b) {
        (_, ResultView::Number(factor)) => Ok(a.scaled(factor)),
        (ResultView::Number(factor), _) => Ok(b.scaled(factor)),
        _ => Err(
            CalcFault::TypeMismatch {
                wanted: "a number operand (length * length is invalid)"@,
                got: "length * length"@,
            },
        ),
    }
}

/// The quotient of two results.
pub open spec fn divided(a: ResultView, b: ResultView) -> Result<ResultView, CalcFault> {
    match b {
        ResultView::Number(divisor) => Ok(a.scaled(FormulaView::Inverse(Box::new(divisor)))),
        ResultView::Length { .. } => Err(
            CalcFault::TypeMismatch { wanted: "number"@, got: "length"@ },
        ),
    }
}

/// What the calculation `n` comes to; operands are looked at from the left.
pub open spec fn result_outcome(n: CalcView) -> Result<ResultView, CalcFault>
    decreases n,
{
    match n {
        CalcView::Number(l) => Ok(ResultView::Number(FormulaView::Written(l))),
        CalcView::Length(l) => Ok(
            ResultView::Length { px: FormulaView::Pixels(l), percent: FormulaView::Zero },
        ),
        CalcView::Percent(l) => Ok(
            ResultView::Length { px: FormulaView::Zero, percent: FormulaView::Written(l) },
        ),
        CalcView::Add(a, b) => match (result_outcome(*a), result_outcome(*b)) {
            (Err(e), _) => Err(e),
            (_, Err(e)) => Err(e),
            (Ok(x), Ok(y)) => added(x, y),
        },
        CalcView::Sub(a, b) => match (result_outcome(*a), result_outcome(*b)) {
            (Err(e), _) => Err(e),
            (_, Err(e)) => Err(e),
            (Ok(x), Ok(y)) => added(x, y.negated()),
        },
        CalcView::Mul(a, b) => match (result_outcome(*a), result_outcome(*b)) {
            (Err(e), _) => Err(e),
            (_, Err(e)) => Err(e),
            (Ok(x), Ok(y)) => multiplied(x, y),
        },
        CalcView::Div(a, b) => match (result_outcome(*a), result_outcome(*b)) {
            (Err(e), _) => Err(e),
            (_, Err(e)) => Err(e),
            (Ok(x), Ok(y)) => divided(x, y),
        },
        CalcView::Min(args) => match values_outcome(args) {
            Err(e) => Err(e),
            Ok((t, values)) => Ok(of_type(t, FormulaView::Least(values))),
        },
        CalcView::Max(args) => match values_outcome(args) {
            Err(e) => Err(e),
            Ok((t, values)) => Ok(of_type(t, FormulaView::Greatest(values))),
        },
        CalcView::Clamp(a, b, c) => match result_outcome(*a) {
            Err(e) => Err(e),
            Ok(x) => match result_outcome(*b) {
                Err(e) => Err(e),
                Ok(y) => match result_outcome(*c) {
                    Err(e) => Err(e),
                    Ok(z) => clamped(x, y, z),
                },
            },
        },
    }
}

/// The middle result between the two others; all have the type of the first.
pub open spec fn clamped(a: ResultView, b: ResultView, c: ResultView) -> Result<
    ResultView,
    CalcFault,
> {
    match required(b.kind(), a.kind()) {
        Err(e) => Err(e),
        Ok(_) => match required(c.kind(), a.kind()) {
            Err(e) => Err(e),
            Ok(t) => Ok(
                of_type(
                    t,
                    FormulaView::Clamped(
                        Box::new(a.plain()),
                        Box::new(b.plain()),
                        Box::new(c.plain()),
                    ),
                ),
            ),
        },
    }
}

/// The values of the arguments of a function and the type that all of them have:
/// that of the first one.
pub open spec fn values_outcome(args: Seq<CalcView>) -> Result<
    (CalcType, Seq<FormulaView>),
    CalcFault,
>
    decreases args,
{
    if args.len() == 0 {
        Err(CalcFault::EmptyMathFunction)
    } else if args.len() == 1 {
        match result_outcome(args[0]) {
            Err(e) => Err(e),
            Ok(x) => Ok((x.kind(), seq![x.plain()])),
        }
    } else {
        match values_outcome(args.drop_last()) {
            Err(e) => Err(e),
            Ok((t, values)) => match result_outcome(args[args.len() - 1]) {
                Err(e) => Err(e),
                Ok(x) => match required(x.kind(), t) {
                    Err(e) => Err(e),
                    Ok(_) => Ok((t, values.push(x.plain()))),
                },
            },
        }
    }
}

proof fn values_stop(args: Seq<CalcView>, n: int)
    requires
        1 <= n <= args.len(),
        values_outcome(args.take(n)) is Err,
    ensures
        values_outcome(args) == values_outcome(args.take(n)),
    decreases args.len() - n,
{
    if n == args.len() {
        assert(args.take(n) =~= args);
    } else {
        assert(args.take(n + 1).drop_last() =~= args.take(n));
        values_stop(args, n + 1);
    }
}

impl Formula {
    /// The same formula again.
    fn duplicate(&self) -> (r: Formula)
        ensures
            r@ == self@,
        decreases self, 0int,
    {
        match self {
            Formula::Zero => Formula::Zero,
            Formula::Written(l) => Formula::Written(l.duplicate()),
            Formula::Pixels(l) => Formula::Pixels(l.duplicate()),
            Formula::Sum(a, b) => Formula::Sum(Box::new(a.duplicate()), Box::new(b.duplicate())),
            Formula::Negated(a) => Formula::Negated(Box::new(a.duplicate())),
            Formula::Product(a, b) => Formula::Product(
                Box::new(a.duplicate()),
                Box::new(b.duplicate()),
            ),
            Formula::Inverse(a) => Formula::Inverse(Box::new(a.duplicate())),
            Formula::Resolved(a, b) => Formula::Resolved(
                Box::new(a.duplicate()),
                Box::new(b.duplicate()),
            ),
            Formula::Least(v) => {
                let w = duplicate_all(v);
                let r = Formula::Least(w);
                assert(r@->Least_0 =~= formulas(w@));
                assert(self@->Least_0 =~= formulas(v@));
                r
            },
            Formula::Greatest(v) => {
                let w = duplicate_all(v);
                let r = Formula::Greatest(w);
                assert(r@->Greatest_0 =~= formulas(w@));
                assert(self@->Greatest_0 =~= formulas(v@));
                r
            },
            Formula::Clamped(a, b, c) => Formula::Clamped(
                Box::new(a.duplicate()),
                Box::new(b.duplicate()),
                Box::new(c.duplicate()),
            ),
        }
    }
}

/// The same formulas again.
fn duplicate_all(v: &Vec<Formula>) -> (r: Vec<Formula>)
    ensures
        formulas(r@) == formulas(v@),
    decreases v,
{
    let mut r: Vec<Formula> = Vec::new();
    let mut i: usize = 0;
    while i < v.len()
        invariant
            i <= v@.len(),
            formulas(r@) =~= formulas(v@).take(i as int),
        decreases v.len() - i,
    {
        let ghost before = formulas(r@);
        r.push(v[i].duplicate());
        assert(formulas(r@) =~= before.push(v@[i as int]@));
        assert(formulas(v@).take(i + 1) =~= formulas(v@).take(i as int).push(v@[i as int]@));
        i += 1;
    }
    assert(formulas(v@).take(v@.len() as int) =~= formulas(v@));
    r
}

impl CalcResult {
    /// Whether the result is a number.
    pub fn is_number(&self) -> (r: bool)
        ensures
            r == (self@.kind() == CalcType::Number),
    {
        matches!(self, CalcResult::Number(_))
    }

    /// Whether the result is a length.
    pub fn is_length(&self) -> (r: bool)
        ensures
            r == (self@.kind() == CalcType::Length),
    {
        matches!(self, CalcResult::Length { .. })
    }

    /// The type of the result.
    fn kind(&self) -> (r: CalcType)
        ensures
            r == self@.kind(),
    {
        match self {
            CalcResult::Number(_) => CalcType::Number,
            CalcResult::Length { .. } => CalcType::Length,
        }
    }

    /// The number.
    pub fn number(self) -> (r: Result<Formula, CalcError>)
        ensures
            match self@ {
                ResultView::Number(f) => r matches Ok(x) && x@ == f,
                ResultView::Length { .. } => r matches Err(e) && e@ == (CalcFault::TypeMismatch {
                    wanted: "number"@,
                    got: "length"@,
                }),
            },
    {
        match self {
            CalcResult::Number(f) => Ok(f),
            CalcResult::Length { .. } => Err(
                CalcError::TypeMismatch { wanted: "number", got: "length" },
            ),
        }
    }

    /// The length in pixels.
    pub fn to_px(self) -> (r: Result<Formula, CalcError>)
        ensures
            match self@ {
                ResultView::Length { .. } => r matches Ok(x) && x@ == self@.plain(),
                ResultView::Number(_) => r matches Err(e) && e@ == (CalcFault::TypeMismatch {
                    wanted: "length"@,
                    got: "number"@,
                }),
            },
    {
        match self {
            CalcResult::Length { px, percent } => Ok(
                Formula::Resolved(Box::new(px), Box::new(percent)),
            ),
            CalcResult::Number(_) => Err(
                CalcError::TypeMismatch { wanted: "length", got: "number" },
            ),
        }
    }

    /// The number as it is, or the length in pixels.
    fn plain(self) -> (r: Formula)
        ensures
            r@ == self@.plain(),
    {
        match self {
            CalcResult::Number(f) => f,
            CalcResult::Length { px, percent } => Formula::Resolved(
                Box::new(px),
                Box::new(percent),
            ),
        }
    }

    /// The result with the other sign.
    fn negated(self) -> (r: CalcResult)
        ensures
            r@ == self@.negated(),
    {
        match self {
            CalcResult::Number(f) => CalcResult::Number(Formula::Negated(Box::new(f))),
            CalcResult::Length { px, percent } => CalcResult::Length {
                px: Formula::Negated(Box::new(px)),
                percent: Formula::Negated(Box::new(percent)),
            },
        }
    }

    /// The result times `factor`.
    fn multiply_result_by(self, factor: Formula) -> (r: CalcResult)
        ensures
            r@ == self@.scaled(factor@),
    {
        match self {
            CalcResult::Number(f) => CalcResult::Number(
                Formula::Product(Box::new(f), Box::new(factor)),
            ),
            CalcResult::Length { px, percent } => {
                let again = factor.duplicate();
                CalcResult::Length {
                    px: Formula::Product(Box::new(px), Box::new(again)),
                    percent: Formula::Product(Box::new(percent), Box::new(factor)),
                }
            },
        }
    }
}

/// A value of type `t`.
fn make(t: CalcType, value: Formula) -> (r: CalcResult)
    ensures
        r@ == of_type(t, value@),
{
    match t {
        CalcType::Number => CalcResult::Number(value),
        CalcType::Length => CalcResult::Length { px: value, percent: Formula::Zero },
    }
}

/// The sum of two results.
fn add_results(a: CalcResult, b: CalcResult) -> (r: Result<CalcResult, CalcError>)
    ensures
        crate::outcome::viewed(r) == added(a@, b@),
{
    match (a, b) {
        (CalcResult::Number(x), CalcResult::Number(y)) => Ok(
            CalcResult::Number(Formula::Sum(Box::new(x), Box::new(y))),
        ),
        (
            CalcResult::Length { px, percent },
            CalcResult::Length { px: more_px, percent: more_percent },
        ) => Ok(
            CalcResult::Length {
                px: Formula::Sum(Box::new(px), Box::new(more_px)),
                percent: Formula::Sum(Box::new(percent), Box::new(more_percent)),
            },
        ),
        _ => Err(
            CalcError::TypeMismatch { wanted: "homogeneous operands", got: "number + length mix" },
        ),
    }
}

/// The product of two results.
fn multiply_results(a: CalcResult, b: CalcResult) -> (r: Result<CalcResult, CalcError>)
    ensures
        crate::outcome::viewed(r) == multiplied(a@, b@),
{
    match (a, b) {
        (a, CalcResult::Number(factor)) => Ok(a.multiply_result_by(factor)),
        (CalcResult::Number(factor), b) => Ok(b.multiply_result_by(factor)),
        _ => Err(
            CalcError::TypeMismatch {
                wanted: "a number operand (length * length is invalid)",
                got: "length * length",
            },
        ),
    }
}

/// The quotient of two results.
fn divide_results(a: CalcResult, b: CalcResult) -> (r: Result<CalcResult, CalcError>)
    ensures
        crate::outcome::viewed(r) == divided(a@, b@),
{
    match b.number() {
        Ok(divisor) => Ok(a.multiply_result_by(Formula::Inverse(Box::new(divisor)))),
        Err(e) => Err(e),
    }
}

/// The middle result between the two others.
fn clamp_results(min: CalcResult, val: CalcResult, max: CalcResult) -> (r: Result<
    CalcResult,
    CalcError,
>)
    ensures
        crate::outcome::viewed(r) == clamped(min@, val@, max@),
{
    let t = min.kind();
    if let Err(e) = require(val.kind(), t) {
        return Err(e);
    }
    if let Err(e) = require(max.kind(), t) {
        return Err(e);
    }
    Ok(
        make(
            t,
            Formula::Clamped(
                Box::new(min.plain()),
                Box::new(val.plain()),
                Box::new(max.plain()),
            ),
        ),
    )
}

/// The views of a list of calculations.
spec fn nodes(v: Seq<CalcNode>) -> Seq<CalcView> {
    v.map_values(|n: CalcNode| n@)
}

/// The type and the values of a list of arguments, as contracts see them.
spec fn values_view(r: Result<(CalcType, Vec<Formula>), CalcError>) -> Result<
    (CalcType, Seq<FormulaView>),
    CalcFault,
> {
    match r {
        Ok((t, values)) => Ok((t, formulas(values@))),
        Err(e) => Err(e@),
    }
}

impl CalcNode {
    /// What the calculation comes to.
    pub fn evaluate(&self) -> (r: Result<CalcResult, CalcError>)
        ensures
            crate::outcome::viewed(r) == result_outcome(self@),
        decreases self, 0int,
    {
        match self {
            CalcNode::Number(l) => Ok(CalcResult::Number(Formula::Written(l.duplicate()))),
            CalcNode::Length(l) => Ok(
                CalcResult::Length { px: Formula::Pixels(l.duplicate()), percent: Formula::Zero },
            ),
            CalcNode::Percent(l) => Ok(
                CalcResult::Length { px: Formula::Zero, percent: Formula::Written(l.duplicate()) },
            ),
            CalcNode::Add(a, b) => match a.evaluate() {
                Err(e) => Err(e),
                Ok(x) => match b.evaluate() {
                    Err(e) => Err(e),
                    Ok(y) => add_results(x, y),
                },
            },
            CalcNode::Sub(a, b) => match a.evaluate() {
                Err(e) => Err(e),
                Ok(x) => match b.evaluate() {
                    Err(e) => Err(e),
                    Ok(y) => add_results(x, y.negated()),
                },
            },
            CalcNode::Mul(a, b) => match a.evaluate() {
                Err(e) => Err(e),
                Ok(x) => match b.evaluate() {
                    Err(e) => Err(e),
                    Ok(y) => multiply_results(x, y),
                },
            },
            CalcNode::Div(a, b) => match a.evaluate() {
                Err(e) => Err(e),
                Ok(x) => match b.evaluate() {
                    Err(e) => Err(e),
                    Ok(y) => divide_results(x, y),
                },
            },
            CalcNode::Min(args) => {
                assert(self@->Min_0 =~= nodes(args@));
                match eval_all(args) {
                    Err(e) => Err(e),
                    Ok((t, values)) => {
                        let least = Formula::Least(values);
                        assert(least@->Least_0 =~= formulas(values@));
                        Ok(make(t, least))
                    },
                }
            },
            CalcNode::Max(args) => {
                assert(self@->Max_0 =~= nodes(args@));
                match eval_all(args) {
                    Err(e) => Err(e),
                    Ok((t, values)) => {
                        let greatest = Formula::Greatest(values);
                        assert(greatest@->Greatest_0 =~= formulas(values@));
                        Ok(make(t, greatest))
                    },
                }
            },
            CalcNode::Clamp(a, b, c) => match a.evaluate() {
                Err(e) => Err(e),
                Ok(x) => match b.evaluate() {
                    Err(e) => Err(e),
                    Ok(y) => match c.evaluate() {
                        Err(e) => Err(e),
                        Ok(z) => clamp_results(x, y, z),
                    },
                },
            },
        }
    }

    /// The pixels that a calculation of a length comes to.
    pub fn resolve_length(&self) -> (r: Result<Formula, CalcError>)
        ensures
            crate::outcome::viewed(r) == length_outcome(self@),
    {
        match self.evaluate() {
            Ok(x) => x.to_px(),
            Err(e) => Err(e),
        }
    }

    /// The number that a calculation of a number comes to.
    pub fn resolve_number(&self) -> (r: Result<Formula, CalcError>)
        ensures
            crate::outcome::viewed(r) == number_outcome(self@),
    {
        match self.evaluate() {
            Ok(x) => x.number(),
            Err(e) => Err(e),
        }
    }
}

/// The pixels that the calculation `n` of a length comes to.
pub open spec fn length_outcome(n: CalcView) -> Result<FormulaView, CalcFault> {
    match result_outcome(n) {
        Err(e) => Err(e),
        Ok(ResultView::Number(_)) => Err(
            CalcFault::TypeMismatch { wanted: "length"@, got: "number"@ },
        ),
        Ok(x) => Ok(x.plain()),
    }
}

/// The number that the calculation `n` of a number comes to.
pub open spec fn number_outcome(n: CalcView) -> Result<FormulaView, CalcFault> {
    match result_outcome(n) {
        Err(e) => Err(e),
        Ok(ResultView::Number(f)) => Ok(f),
        Ok(_) => Err(CalcFault::TypeMismatch { wanted: "number"@, got: "length"@ }),
    }
}

/// The values of the arguments of a function.
fn eval_all(args: &Vec<CalcNode>) -> (r: Result<(CalcType, Vec<Formula>), CalcError>)
    ensures
        values_view(r) == values_outcome(nodes(args@)),
    decreases args,
{
    let ghost all = nodes(args@);
    let n: usize = args.len();
    if n == 0 {
        return Err(CalcError::EmptyMathFunction);
    }
    assert(all.take(1)[0] == args@[0]@);
    let first = match args[0].evaluate() {
        Ok(x) => x,
        Err(e) => {
            proof {
                values_stop(all, 1);
            }
            return Err(e);
        },
    };
    let t = first.kind();
    let mut values: Vec<Formula> = Vec::new();
    values.push(first.plain());
    assert(formulas(values@) =~= seq![first@.plain()]);
    let mut i: usize = 1;
    while i < n
        invariant
            1 <= i <= n == args@.len(),
            all == nodes(args@),
            values_outcome(all.take(i as int)) == Ok::<(CalcType, Seq<FormulaView>), CalcFault>(
                (t, formulas(values@)),
            ),
        decreases n - i,
    {
        let ghost here = all.take(i + 1);
        assert(here.drop_last() =~= all.take(i as int));
        assert(here[i as int] == args@[i as int]@);
        let x = match args[i].evaluate() {
            Ok(x) => x,
            Err(e) => {
                proof {
                    values_stop(all, i + 1);
                }
                return Err(e);
            },
        };
        if let Err(e) = require(x.kind(), t) {
            proof {
                values_stop(all, i + 1);
            }
            return Err(e);
        }
        let ghost before = formulas(values@);
        values.push(x.plain());
        assert(formulas(values@) =~= before.push(x@.plain()));
        i += 1;
    }
    assert(all.take(n as int) =~= all);
    Ok((t, values))
}

} // verus!
