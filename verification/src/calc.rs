//! CSS math functions: `calc()`, `min()`, `max()` and `clamp()`.

use vstd::prelude::*;

use crate::calc::token::{Tok, TokView};
use crate::number::Literal;

pub mod evaluate;
pub mod laws;
pub mod meaning;
pub mod parser;
pub mod token;
pub mod writing;

verus! {

/// The units of a length.
#[derive(Clone, Copy, Debug, PartialEq, Eq, Hash, Structural)]
pub enum LengthUnit {
    Px,
    In,
    Cm,
    Mm,
    Q,
    Pt,
    Pc,
    Em,
    Rem,
    Ex,
    Ch,
    Vw,
    Vh,
    Vmin,
    Vmax,
}

impl LengthUnit {
    /// The name of the unit.
    pub open spec fn spelling(self) -> Seq<char> {
        match self {
            LengthUnit::Px => "px"@,
            LengthUnit::In => "in"@,
            LengthUnit::Cm => "cm"@,
            LengthUnit::Mm => "mm"@,
            LengthUnit::Q => "Q"@,
            LengthUnit::Pt => "pt"@,
            LengthUnit::Pc => "pc"@,
            LengthUnit::Em => "em"@,
            LengthUnit::Rem => "rem"@,
            LengthUnit::Ex => "ex"@,
            LengthUnit::Ch => "ch"@,
            LengthUnit::Vw => "vw"@,
            LengthUnit::Vh => "vh"@,
            LengthUnit::Vmin => "vmin"@,
            LengthUnit::Vmax => "vmax"@,
        }
    }

    /// The name of the unit.
    pub fn name(self) -> (r: &'static str)
        ensures
            r@ == self.spelling(),
    {
        match self {
            LengthUnit::Px => "px",
            LengthUnit::In => "in",
            LengthUnit::Cm => "cm",
            LengthUnit::Mm => "mm",
            LengthUnit::Q => "Q",
            LengthUnit::Pt => "pt",
            LengthUnit::Pc => "pc",
            LengthUnit::Em => "em",
            LengthUnit::Rem => "rem",
            LengthUnit::Ex => "ex",
            LengthUnit::Ch => "ch",
            LengthUnit::Vw => "vw",
            LengthUnit::Vh => "vh",
            LengthUnit::Vmin => "vmin",
            LengthUnit::Vmax => "vmax",
        }
    }
}

/// A length: a number and its unit.
#[derive(Clone, Debug, PartialEq, Eq)]
pub struct Length {
    pub value: Literal,
    pub unit: LengthUnit,
}

/// A length, with its number as it was written.
#[verifier::ext_equal]
pub struct LengthView {
    pub value: Seq<char>,
    pub unit: LengthUnit,
}

impl View for Length {
    type V = LengthView;

    open spec fn view(&self) -> LengthView {
        LengthView { value: self.value@, unit: self.unit }
    }
}

impl Length {
    /// The same length again.
    pub fn duplicate(&self) -> (r: Length)
        ensures
            r@ == self@,
    {
        Length { value: self.value.duplicate(), unit: self.unit }
    }
}

/// A math function.
#[derive(Clone, Copy, Debug, PartialEq, Eq, Structural)]
pub enum MathFunction {
    Calc,
    Min,
    Max,
    Clamp,
}

impl MathFunction {
    /// The name of the function.
    pub open spec fn spelling(self) -> Seq<char> {
        match self {
            MathFunction::Calc => "calc"@,
            MathFunction::Min => "min"@,
            MathFunction::Max => "max"@,
            MathFunction::Clamp => "clamp"@,
        }
    }

    /// The name of the function.
    pub fn name(self) -> (r: &'static str)
        ensures
            r@ == self.spelling(),
    {
        match self {
            MathFunction::Calc => "calc",
            MathFunction::Min => "min",
            MathFunction::Max => "max",
            MathFunction::Clamp => "clamp",
        }
    }
}

/// A calculation.
#[derive(Debug, PartialEq, Eq)]
pub enum CalcNode {
    Number(Literal),
    Length(Length),
    Percent(Literal),
    Add(Box<CalcNode>, Box<CalcNode>),
    Sub(Box<CalcNode>, Box<CalcNode>),
    Mul(Box<CalcNode>, Box<CalcNode>),
    Div(Box<CalcNode>, Box<CalcNode>),
    Min(Vec<CalcNode>),
    Max(Vec<CalcNode>),
    Clamp(Box<CalcNode>, Box<CalcNode>, Box<CalcNode>),
}

/// A calculation, with its numbers as they were written.
#[verifier::ext_equal]
pub enum CalcView {
    Number(Seq<char>),
    Length(LengthView),
    Percent(Seq<char>),
    Add(Box<CalcView>, Box<CalcView>),
    Sub(Box<CalcView>, Box<CalcView>),
    Mul(Box<CalcView>, Box<CalcView>),
    Div(Box<CalcView>, Box<CalcView>),
    Min(Seq<CalcView>),
    Max(Seq<CalcView>),
    Clamp(Box<CalcView>, Box<CalcView>, Box<CalcView>),
}

impl CalcNode {
    /// The calculation as contracts see it.
    pub open spec fn tree(self) -> CalcView
        decreases self,
    {
        match self {
            CalcNode::Number(l) => CalcView::Number(l@),
            CalcNode::Length(l) => CalcView::Length(l@),
            CalcNode::Percent(l) => CalcView::Percent(l@),
            CalcNode::Add(a, b) => CalcView::Add(Box::new(a.tree()), Box::new(b.tree())),
            CalcNode::Sub(a, b) => CalcView::Sub(Box::new(a.tree()), Box::new(b.tree())),
            CalcNode::Mul(a, b) => CalcView::Mul(Box::new(a.tree()), Box::new(b.tree())),
            CalcNode::Div(a, b) => CalcView::Div(Box::new(a.tree()), Box::new(b.tree())),
            CalcNode::Min(v) => CalcView::Min(
                Seq::new(
                    v@.len(),
                    |i: int|
                        if 0 <= i < v@.len() {
                            v@[i].tree()
                        } else {
                            arbitrary()
                        },
                ),
            ),
            CalcNode::Max(v) => CalcView::Max(
                Seq::new(
                    v@.len(),
                    |i: int|
                        if 0 <= i < v@.len() {
                            v@[i].tree()
                        } else {
                            arbitrary()
                        },
                ),
            ),
            CalcNode::Clamp(a, b, c) => CalcView::Clamp(
                Box::new(a.tree()),
                Box::new(b.tree()),
                Box::new(c.tree()),
            ),
        }
    }
}

impl View for CalcNode {
    type V = CalcView;

    open spec fn view(&self) -> CalcView {
        self.tree()
    }
}

/// Why a text is no calculation, or a calculation has no value.
#[derive(Clone, Debug, PartialEq, Eq)]
pub enum CalcError {
    Empty,
    UnexpectedEof,
    UnexpectedToken(String),
    /// A token with a number stands where the calculation should have ended.
    TrailingValue(Tok),
    UnclosedParen,
    TypeMismatch { wanted: &'static str, got: &'static str },
    EmptyMathFunction,
    ClampArgCount(usize),
}

/// [`CalcError`] with its text as characters.
#[verifier::ext_equal]
pub enum CalcFault {
    Empty,
    UnexpectedEof,
    UnexpectedToken(Seq<char>),
    TrailingValue(TokView),
    UnclosedParen,
    TypeMismatch { wanted: Seq<char>, got: Seq<char> },
    EmptyMathFunction,
    ClampArgCount(nat),
}

impl View for CalcError {
    type V = CalcFault;

    open spec fn view(&self) -> CalcFault {
        match self {
            CalcError::Empty => CalcFault::Empty,
            CalcError::UnexpectedEof => CalcFault::UnexpectedEof,
            CalcError::UnexpectedToken(s) => CalcFault::UnexpectedToken(s@),
            CalcError::TrailingValue(t) => CalcFault::TrailingValue(t@),
            CalcError::UnclosedParen => CalcFault::UnclosedParen,
            CalcError::TypeMismatch { wanted, got } => CalcFault::TypeMismatch {
                wanted: wanted@,
                got: got@,
            },
            CalcError::EmptyMathFunction => CalcFault::EmptyMathFunction,
            CalcError::ClampArgCount(n) => CalcFault::ClampArgCount(*n as nat),
        }
    }
}

} // verus!
