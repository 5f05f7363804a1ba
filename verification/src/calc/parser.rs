//! The grammar of calculations.
//!
//! A sum is made of products, a product of values, and both associate to the
//! left. A value is a number, a length, a percentage, a sum in parentheses or
//! the call of a math function.

use vstd::prelude::*;

use crate::calc::token::{tokenize, Tok, TokView};
use crate::calc::{CalcError, CalcFault, CalcNode, CalcView, MathFunction};

verus! {

/// A calculation and the place behind its last token, or why there is none.
pub type Parsed = Result<(CalcView, int), CalcFault>;

/// The name of a token that carries no number.
pub open spec fn token_name(t: TokView) -> Seq<char> {
    match t {
        TokView::Plus => "Plus"@,
        TokView::Minus => "Minus"@,
        TokView::Star => "Star"@,
        TokView::Slash => "Slash"@,
        TokView::LParen => "LParen"@,
        TokView::RParen => "RParen"@,
        TokView::Func(f) => "Func(\""@ + f.spelling() + "\")"@,
        _ => "Comma"@,
    }
}

/// Why a calculation does not end before the token `t`. The text names a token
/// by itself; one with a number comes as it is.
pub open spec fn trailing(t: TokView) -> CalcFault {
    match t {
        TokView::Number(_) => CalcFault::TrailingValue(t),
        TokView::Length(_) => CalcFault::TrailingValue(t),
        TokView::Percent(_) => CalcFault::TrailingValue(t),
        _ => CalcFault::UnexpectedToken("Some("@ + token_name(t) + ")"@),
    }
}

/// The token at `i` is `t`.
pub open spec fn stands(toks: Seq<TokView>, i: int, t: TokView) -> bool {
    0 <= i < toks.len() && toks[i] == t
}

/// The sum that begins at `i`.
pub open spec fn sum_at(toks: Seq<TokView>, i: int) -> Parsed
    decreases toks.len() - i, 5int,
{
    match product_at(toks, i) {
        Ok((left, j)) => if i < j <= toks.len() {
            sum_from(left, toks, j)
        } else {
            Err(CalcFault::UnexpectedEof)
        },
        Err(e) => Err(e),
    }
}

/// The sum that goes on at `i` behind `left`.
pub open spec fn sum_from(left: CalcView, toks: Seq<TokView>, i: int) -> Parsed
    decreases toks.len() - i, 5int,
{
    if stands(toks, i, TokView::Plus) || stands(toks, i, TokView::Minus) {
        match product_at(toks, i + 1) {
            Ok((right, j)) => if i < j <= toks.len() {
                sum_from(
                    if toks[i] == TokView::Plus {
                        CalcView::Add(Box::new(left), Box::new(right))
                    } else {
                        CalcView::Sub(Box::new(left), Box::new(right))
                    },
                    toks,
                    j,
                )
            } else {
                Err(CalcFault::UnexpectedEof)
            },
            Err(e) => Err(e),
        }
    } else {
        Ok((left, i))
    }
}

/// The product that begins at `i`.
pub open spec fn product_at(toks: Seq<TokView>, i: int) -> Parsed
    decreases toks.len() - i, 4int,
{
    match value_at(toks, i) {
        Ok((left, j)) => if i < j <= toks.len() {
            product_from(left, toks, j)
        } else {
            Err(CalcFault::UnexpectedEof)
        },
        Err(e) => Err(e),
    }
}

/// The product that goes on at `i` behind `left`.
pub open spec fn product_from(left: CalcView, toks: Seq<TokView>, i: int) -> Parsed
    decreases toks.len() - i, 4int,
{
    if stands(toks, i, TokView::Star) || stands(toks, i, TokView::Slash) {
        match value_at(toks, i + 1) {
            Ok((right, j)) => if i < j <= toks.len() {
                product_from(
                    if toks[i] == TokView::Star {
                        CalcView::Mul(Box::new(left), Box::new(right))
                    } else {
                        CalcView::Div(Box::new(left), Box::new(right))
                    },
                    toks,
                    j,
                )
            } else {
                Err(CalcFault::UnexpectedEof)
            },
            Err(e) => Err(e),
        }
    } else {
        Ok((left, i))
    }
}

/// The calculation of a result, with the closing parenthesis behind it.
pub open spec fn enclosed(r: Parsed, toks: Seq<TokView>) -> Parsed {
    match r {
        Ok((n, j)) => if stands(toks, j, TokView::RParen) {
            Ok((n, j + 1))
        } else {
            Err(CalcFault::UnclosedParen)
        },
        Err(e) => Err(e),
    }
}

/// The value that begins at `i`.
pub open spec fn value_at(toks: Seq<TokView>, i: int) -> Parsed
    decreases toks.len() - i, 3int,
{
    if !(0 <= i < toks.len()) {
        Err(CalcFault::UnexpectedEof)
    } else {
        match toks[i] {
            TokView::Number(s) => Ok((CalcView::Number(s), i + 1)),
            TokView::Length(l) => Ok((CalcView::Length(l), i + 1)),
            TokView::Percent(s) => Ok((CalcView::Percent(s), i + 1)),
            TokView::LParen => enclosed(sum_at(toks, i + 1), toks),
            TokView::Func(f) => call_at(f, toks, i + 1),
            t => Err(CalcFault::UnexpectedToken(token_name(t))),
        }
    }
}

/// The call of `f` whose opening parenthesis stands at `i`.
pub open spec fn call_at(f: MathFunction, toks: Seq<TokView>, i: int) -> Parsed
    decreases toks.len() - i, 3int,
{
    if !stands(toks, i, TokView::LParen) {
        Err(CalcFault::UnexpectedToken(f.spelling() + " without ("@))
    } else if f == MathFunction::Calc {
        enclosed(sum_at(toks, i + 1), toks)
    } else {
        match arguments_at(Seq::empty(), toks, i + 1) {
            Err(e) => Err(e),
            Ok((args, j)) => if !stands(toks, j, TokView::RParen) {
                Err(CalcFault::UnclosedParen)
            } else {
                match applied(f, args) {
                    Ok(n) => Ok((n, j + 1)),
                    Err(e) => Err(e),
                }
            },
        }
    }
}

/// The calculation that `f` makes of its arguments.
pub open spec fn applied(f: MathFunction, args: Seq<CalcView>) -> Result<CalcView, CalcFault> {
    match f {
        MathFunction::Min => Ok(CalcView::Min(args)),
        MathFunction::Max => Ok(CalcView::Max(args)),
        _ => if args.len() == 3 {
            Ok(CalcView::Clamp(Box::new(args[0]), Box::new(args[1]), Box::new(args[2])))
        } else {
            Err(CalcFault::ClampArgCount(args.len()))
        },
    }
}

/// The sums between commas from `i` on, behind those of `done`.
pub open spec fn arguments_at(done: Seq<CalcView>, toks: Seq<TokView>, i: int) -> Result<
    (Seq<CalcView>, int),
    CalcFault,
>
    decreases toks.len() - i, 6int,
{
    match sum_at(toks, i) {
        Err(e) => Err(e),
        Ok((n, j)) => if !(i < j <= toks.len()) {
            Err(CalcFault::UnexpectedEof)
        } else if stands(toks, j, TokView::Comma) {
            arguments_at(done.push(n), toks, j + 1)
        } else {
            Ok((done.push(n), j))
        },
    }
}

/// What a list of tokens parses to.
pub open spec fn tree_outcome(toks: Seq<TokView>) -> Result<CalcView, CalcFault> {
    if toks.len() == 0 {
        Err(CalcFault::Empty)
    } else {
        match sum_at(toks, 0) {
            Err(e) => Err(e),
            Ok((n, j)) => if 0 <= j < toks.len() {
                Err(trailing(toks[j]))
            } else {
                Ok(n)
            },
        }
    }
}

/// What the text `input` parses to as a calculation.
pub open spec fn calc_outcome(input: Seq<char>) -> Result<CalcView, CalcFault> {
    match crate::calc::token::tokens_outcome(input) {
        Err(e) => Err(e),
        Ok(toks) => tree_outcome(toks),
    }
}

/// A parser's result as contracts see it.
spec fn parsed_seen(r: Result<(CalcNode, usize), CalcError>) -> Parsed {
    match r {
        Ok((n, j)) => Ok((n@, j as int)),
        Err(e) => Err(e@),
    }
}

/// A successful parser has moved forward, within the tokens.
spec fn advanced(r: Result<(CalcNode, usize), CalcError>, i: usize, n: nat) -> bool {
    r matches Ok((_, j)) ==> i < j <= n
}

/// The tokens of a list by their views.
spec fn views(toks: Seq<Tok>) -> Seq<TokView> {
    crate::calc::token::tok_views(toks)
}

/// The name of a token that carries no number.
fn name_token(t: &Tok) -> (r: String)
    requires
        !(t is Number || t is Length || t is Percent),
    ensures
        r@ == token_name(t@),
{
    match t {
        Tok::Plus => "Plus".to_owned(),
        Tok::Minus => "Minus".to_owned(),
        Tok::Star => "Star".to_owned(),
        Tok::Slash => "Slash".to_owned(),
        Tok::LParen => "LParen".to_owned(),
        Tok::RParen => "RParen".to_owned(),
        Tok::Func(f) => {
            let mut s = "Func(\"".to_owned();
            s.append(f.name());
            s.append("\")");
            s
        },
        _ => "Comma".to_owned(),
    }
}

/// The error for a calculation that does not end before the token `t`.
fn trailing_error(t: &Tok) -> (r: CalcError)
    ensures
        r@ == trailing(t@),
{
    match t {
        Tok::Number(l) => CalcError::TrailingValue(Tok::Number(l.duplicate())),
        Tok::Length(l) => CalcError::TrailingValue(Tok::Length(l.duplicate())),
        Tok::Percent(l) => CalcError::TrailingValue(Tok::Percent(l.duplicate())),
        _ => {
            let mut s = "Some(".to_owned();
            s.append(name_token(t).as_str());
            s.append(")");
            CalcError::UnexpectedToken(s)
        },
    }
}

/// Whether the token at `i` is `t`, which carries no number.
fn is_at(toks: &[Tok], i: usize, t: Tok) -> (r: bool)
    requires
        t is Plus || t is Minus || t is Star || t is Slash || t is LParen || t is RParen
            || t is Comma,
    ensures
        r == stands(views(toks@), i as int, t@),
        r ==> i < toks@.len() && i < usize::MAX,
{
    if i >= toks.len() {
        return false;
    }
    match (&toks[i], &t) {
        (Tok::Plus, Tok::Plus) => true,
        (Tok::Minus, Tok::Minus) => true,
        (Tok::Star, Tok::Star) => true,
        (Tok::Slash, Tok::Slash) => true,
        (Tok::LParen, Tok::LParen) => true,
        (Tok::RParen, Tok::RParen) => true,
        (Tok::Comma, Tok::Comma) => true,
        _ => false,
    }
}

fn close(r: Result<(CalcNode, usize), CalcError>, toks: &[Tok]) -> (c: Result<
    (CalcNode, usize),
    CalcError,
>)
    ensures
        parsed_seen(c) == enclosed(parsed_seen(r), views(toks@)),
        forall|i: usize| advanced(r, i, toks@.len()) ==> #[trigger] advanced(c, i, toks@.len()),
{
    match r {
        Ok((n, j)) => if is_at(toks, j, Tok::RParen) {
            Ok((n, j + 1))
        } else {
            Err(CalcError::UnclosedParen)
        },
        Err(e) => Err(e),
    }
}

/// Parses the sum that begins at `i`.
fn parse_sum(toks: &[Tok], i: usize) -> (r: Result<(CalcNode, usize), CalcError>)
    requires
        i <= toks@.len(),
    ensures
        parsed_seen(r) == sum_at(views(toks@), i as int),
        advanced(r, i, toks@.len()),
    decreases toks@.len() - i, 5int,
{
    let ghost all = views(toks@);
    let (mut left, mut j) = match parse_product(toks, i) {
        Ok(t) => t,
        Err(e) => {
            return Err(e);
        },
    };
    while is_at(toks, j, Tok::Plus) || is_at(toks, j, Tok::Minus)
        invariant
            all == views(toks@),
            i < j <= toks@.len(),
            sum_at(all, i as int) == sum_from(left@, all, j as int),
        decreases toks@.len() - j,
    {
        let plus = is_at(toks, j, Tok::Plus);
        let (right, k) = match parse_product(toks, j + 1) {
            Ok(t) => t,
            Err(e) => {
                return Err(e);
            },
        };
        left = if plus {
            CalcNode::Add(Box::new(left), Box::new(right))
        } else {
            CalcNode::Sub(Box::new(left), Box::new(right))
        };
        j = k;
    }
    Ok((left, j))
}

/// Parses the product that begins at `i`.
fn parse_product(toks: &[Tok], i: usize) -> (r: Result<(CalcNode, usize), CalcError>)
    requires
        i <= toks@.len(),
    ensures
        parsed_seen(r) == product_at(views(toks@), i as int),
        advanced(r, i, toks@.len()),
    decreases toks@.len() - i, 4int,
{
    let ghost all = views(toks@);
    let (mut left, mut j) = match parse_value(toks, i) {
        Ok(t) => t,
        Err(e) => {
            return Err(e);
        },
    };
    while is_at(toks, j, Tok::Star) || is_at(toks, j, Tok::Slash)
        invariant
            all == views(toks@),
            i < j <= toks@.len(),
            product_at(all, i as int) == product_from(left@, all, j as int),
        decreases toks@.len() - j,
    {
        let star = is_at(toks, j, Tok::Star);
        let (right, k) = match parse_value(toks, j + 1) {
            Ok(t) => t,
            Err(e) => {
                return Err(e);
            },
        };
        left = if star {
            CalcNode::Mul(Box::new(left), Box::new(right))
        } else {
            CalcNode::Div(Box::new(left), Box::new(right))
        };
        j = k;
    }
    Ok((left, j))
}

/// Parses the value that begins at `i`.
fn parse_value(toks: &[Tok], i: usize) -> (r: Result<(CalcNode, usize), CalcError>)
    requires
        i <= toks@.len(),
    ensures
        parsed_seen(r) == value_at(views(toks@), i as int),
        advanced(r, i, toks@.len()),
    decreases toks@.len() - i, 3int,
{
    let ghost all = views(toks@);
    if i >= toks.len() {
        return Err(CalcError::UnexpectedEof);
    }
    assert(all[i as int] == toks@[i as int]@);
    match &toks[i] {
        Tok::Number(l) => Ok((CalcNode::Number(l.duplicate()), i + 1)),
        Tok::Length(l) => Ok((CalcNode::Length(l.duplicate()), i + 1)),
        Tok::Percent(l) => Ok((CalcNode::Percent(l.duplicate()), i + 1)),
        Tok::LParen => {
            let inner = parse_sum(toks, i + 1);
            assert(advanced(inner, i, toks@.len()));
            close(inner, toks)
        },
        Tok::Func(f) => parse_function(*f, toks, i + 1),
        t => Err(CalcError::UnexpectedToken(name_token(t))),
    }
}

/// The calculations of a list by their views.
spec fn nodes(v: Seq<CalcNode>) -> Seq<CalcView> {
    v.map_values(|n: CalcNode| n@)
}

/// Parses the call of `f` whose opening parenthesis stands at `i`.
fn parse_function(f: MathFunction, toks: &[Tok], i: usize) -> (r: Result<
    (CalcNode, usize),
    CalcError,
>)
    requires
        i <= toks@.len(),
    ensures
        parsed_seen(r) == call_at(f, views(toks@), i as int),
        advanced(r, i, toks@.len()),
    decreases toks@.len() - i, 3int,
{
    let ghost all = views(toks@);
    if !is_at(toks, i, Tok::LParen) {
        let mut text = f.name().to_owned();
        text.append(" without (");
        return Err(CalcError::UnexpectedToken(text));
    }
    if matches!(f, MathFunction::Calc) {
        let inner = parse_sum(toks, i + 1);
        assert(advanced(inner, i, toks@.len()));
        return close(inner, toks);
    }
    let mut args: Vec<CalcNode> = Vec::new();
    let mut j: usize = i + 1;
    assert(nodes(args@) =~= Seq::<CalcView>::empty());
    loop
        invariant_except_break
            arguments_at(Seq::empty(), all, i + 1) == arguments_at(nodes(args@), all, j as int),
        invariant
            all == views(toks@),
            i < j <= toks@.len(),
            stands(all, i as int, TokView::LParen),
            f != MathFunction::Calc,
        ensures
            i < j <= toks@.len(),
            arguments_at(Seq::empty(), all, i + 1) == Ok::<(Seq<CalcView>, int), CalcFault>(
                (nodes(args@), j as int),
            ),
        decreases toks@.len() - j,
    {
        let (n, k) = match parse_sum(toks, j) {
            Ok(t) => t,
            Err(e) => {
                return Err(e);
            },
        };
        let ghost before = args@;
        let ghost view = n@;
        args.push(n);
        assert(nodes(args@) =~= nodes(before).push(view));
        j = k;
        if !is_at(toks, j, Tok::Comma) {
            break ;
        }
        j = j + 1;
    }
    if !is_at(toks, j, Tok::RParen) {
        return Err(CalcError::UnclosedParen);
    }
    match apply(f, args) {
        Ok(n) => Ok((n, j + 1)),
        Err(e) => Err(e),
    }
}

fn apply(f: MathFunction, args: Vec<CalcNode>) -> (r: Result<CalcNode, CalcError>)
    ensures
        crate::outcome::viewed(r) == applied(f, nodes(args@)),
{
    let ghost all = nodes(args@);
    match f {
        MathFunction::Min => {
            let n = CalcNode::Min(args);
            assert(n@->Min_0 =~= all);
            Ok(n)
        },
        MathFunction::Max => {
            let n = CalcNode::Max(args);
            assert(n@->Max_0 =~= all);
            Ok(n)
        },
        _ => {
            let mut args = args;
            if args.len() != 3 {
                return Err(CalcError::ClampArgCount(args.len()));
            }
            assert(all[0] == args@[0]@ && all[1] == args@[1]@ && all[2] == args@[2]@);
            let high = args.remove(2);
            let value = args.remove(1);
            let low = args.remove(0);
            Ok(CalcNode::Clamp(Box::new(low), Box::new(value), Box::new(high)))
        },
    }
}

/// Parses a calculation: the call of a math function, or a sum by itself.
pub fn parse_calc(input: &str) -> (r: Result<CalcNode, CalcError>)
    ensures
        crate::outcome::viewed(r) == calc_outcome(input@),
{
    let toks = match tokenize(input) {
        Ok(toks) => toks,
        Err(e) => {
            return Err(e);
        },
    };
    if toks.len() == 0 {
        return Err(CalcError::Empty);
    }
    match parse_sum(toks.as_slice(), 0) {
        Err(e) => Err(e),
        Ok((n, j)) => if j < toks.len() {
            assert(views(toks@)[j as int] == toks@[j as int]@);
            Err(trailing_error(&toks[j]))
        } else {
            Ok(n)
        },
    }
}

} // verus!
