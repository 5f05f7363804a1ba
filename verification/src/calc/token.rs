//! The tokens of a calculation.

use vstd::prelude::*;

use crate::calc::{CalcError, CalcFault, Length, LengthUnit, LengthView, MathFunction};
use crate::number::{count_number, read_literal, Literal, Precision};
use crate::text::{ascii_space, chars_of, part, spells, string_of};

verus! {

/// A token.
#[derive(Clone, Debug, PartialEq, Eq)]
pub enum Tok {
    Number(Literal),
    Length(Length),
    Percent(Literal),
    Plus,
    Minus,
    Star,
    Slash,
    LParen,
    RParen,
    Comma,
    Func(MathFunction),
}

/// A token, with its number as it was written.
#[verifier::ext_equal]
pub enum TokView {
    Number(Seq<char>),
    Length(LengthView),
    Percent(Seq<char>),
    Plus,
    Minus,
    Star,
    Slash,
    LParen,
    RParen,
    Comma,
    Func(MathFunction),
}

impl View for Tok {
    type V = TokView;

    open spec fn view(&self) -> TokView {
        match self {
            Tok::Number(l) => TokView::Number(l@),
            Tok::Length(l) => TokView::Length(l@),
            Tok::Percent(l) => TokView::Percent(l@),
            Tok::Plus => TokView::Plus,
            Tok::Minus => TokView::Minus,
            Tok::Star => TokView::Star,
            Tok::Slash => TokView::Slash,
            Tok::LParen => TokView::LParen,
            Tok::RParen => TokView::RParen,
            Tok::Comma => TokView::Comma,
            Tok::Func(f) => TokView::Func(*f),
        }
    }
}

/// The views of a list of tokens.
pub open spec fn tok_views(v: Seq<Tok>) -> Seq<TokView> {
    v.map_values(|t: Tok| t@)
}

/// The unit with the name `s`.
pub open spec fn unit_named(s: Seq<char>) -> Option<LengthUnit> {
    if s == "px"@ {
        Some(LengthUnit::Px)
    } else if s == "in"@ {
        Some(LengthUnit::In)
    } else if s == "cm"@ {
        Some(LengthUnit::Cm)
    } else if s == "mm"@ {
        Some(LengthUnit::Mm)
    } else if s == "Q"@ {
        Some(LengthUnit::Q)
    } else if s == "pt"@ {
        Some(LengthUnit::Pt)
    } else if s == "pc"@ {
        Some(LengthUnit::Pc)
    } else if s == "em"@ {
        Some(LengthUnit::Em)
    } else if s == "rem"@ {
        Some(LengthUnit::Rem)
    } else if s == "ex"@ {
        Some(LengthUnit::Ex)
    } else if s == "ch"@ {
        Some(LengthUnit::Ch)
    } else if s == "vw"@ {
        Some(LengthUnit::Vw)
    } else if s == "vh"@ {
        Some(LengthUnit::Vh)
    } else if s == "vmin"@ {
        Some(LengthUnit::Vmin)
    } else if s == "vmax"@ {
        Some(LengthUnit::Vmax)
    } else {
        None
    }
}

fn find_unit(s: &[char]) -> (r: Option<LengthUnit>)
    ensures
        r == unit_named(s@),
{
    if spells(s, "px") {
        Some(LengthUnit::Px)
    } else if spells(s, "in") {
        Some(LengthUnit::In)
    } else if spells(s, "cm") {
        Some(LengthUnit::Cm)
    } else if spells(s, "mm") {
        Some(LengthUnit::Mm)
    } else if spells(s, "Q") {
        Some(LengthUnit::Q)
    } else if spells(s, "pt") {
        Some(LengthUnit::Pt)
    } else if spells(s, "pc") {
        Some(LengthUnit::Pc)
    } else if spells(s, "em") {
        Some(LengthUnit::Em)
    } else if spells(s, "rem") {
        Some(LengthUnit::Rem)
    } else if spells(s, "ex") {
        Some(LengthUnit::Ex)
    } else if spells(s, "ch") {
        Some(LengthUnit::Ch)
    } else if spells(s, "vw") {
        Some(LengthUnit::Vw)
    } else if spells(s, "vh") {
        Some(LengthUnit::Vh)
    } else if spells(s, "vmin") {
        Some(LengthUnit::Vmin)
    } else if spells(s, "vmax") {
        Some(LengthUnit::Vmax)
    } else {
        None
    }
}

/// The length that the word `s` writes: a number with a unit behind it, or
/// zero without one, which is zero pixels.
pub open spec fn length_of(s: Seq<char>) -> Option<LengthView> {
    let n = crate::number::number_length(s);
    let value = s.take(n as int);
    let unit = s.skip(n as int);
    match Precision::Double.reading(value) {
        None => None,
        Some(x) => if unit.len() == 0 {
            if x.is_zero() {
                Some(LengthView { value, unit: LengthUnit::Px })
            } else {
                None
            }
        } else {
            match unit_named(unit) {
                Some(u) => Some(LengthView { value, unit: u }),
                None => None,
            }
        },
    }
}

fn read_length(s: &[char]) -> (r: Option<Length>)
    ensures
        crate::outcome::seen(r) == length_of(s@),
{
    let n: usize = count_number(s);
    let value = part(s, 0, n);
    let unit = part(s, n, s.len());
    assert(value@ =~= s@.take(n as int));
    assert(unit@ =~= s@.skip(n as int));
    match read_literal(value.as_slice(), Precision::Double) {
        None => None,
        Some((l, x)) => if unit.len() == 0 {
            if x.is_zero() {
                Some(Length { value: l, unit: LengthUnit::Px })
            } else {
                None
            }
        } else {
            match find_unit(unit.as_slice()) {
                Some(u) => Some(Length { value: l, unit: u }),
                None => None,
            }
        },
    }
}

/// The token that the word `s` is: the name of a function, a percentage, a
/// length or a number.
pub open spec fn word_outcome(s: Seq<char>) -> Result<TokView, CalcFault> {
    if s == "calc"@ {
        Ok(TokView::Func(MathFunction::Calc))
    } else if s == "min"@ {
        Ok(TokView::Func(MathFunction::Min))
    } else if s == "max"@ {
        Ok(TokView::Func(MathFunction::Max))
    } else if s == "clamp"@ {
        Ok(TokView::Func(MathFunction::Clamp))
    } else if s.len() > 0 && s.last() == '%' {
        if Precision::Double.reading(s.drop_last()) is Some {
            Ok(TokView::Percent(s.drop_last()))
        } else {
            Err(CalcFault::UnexpectedToken(s))
        }
    } else {
        match length_of(s) {
            Some(l) => Ok(TokView::Length(l)),
            None => if Precision::Double.reading(s) is Some {
                Ok(TokView::Number(s))
            } else {
                Err(CalcFault::UnexpectedToken(s))
            },
        }
    }
}

/// Tells what the word `s` is.
pub fn classify_word(s: &[char]) -> (r: Result<Tok, CalcError>)
    ensures
        crate::outcome::viewed(r) == word_outcome(s@),
{
    if spells(s, "calc") {
        return Ok(Tok::Func(MathFunction::Calc));
    }
    if spells(s, "min") {
        return Ok(Tok::Func(MathFunction::Min));
    }
    if spells(s, "max") {
        return Ok(Tok::Func(MathFunction::Max));
    }
    if spells(s, "clamp") {
        return Ok(Tok::Func(MathFunction::Clamp));
    }
    let n: usize = s.len();
    if n > 0 && s[n - 1] == '%' {
        let number = part(s, 0, n - 1);
        assert(number@ =~= s@.drop_last());
        return match read_literal(number.as_slice(), Precision::Double) {
            Some((l, _)) => Ok(Tok::Percent(l)),
            None => Err(CalcError::UnexpectedToken(string_of(s))),
        };
    }
    if let Some(l) = read_length(s) {
        return Ok(Tok::Length(l));
    }
    match read_literal(s, Precision::Double) {
        Some((l, _)) => Ok(Tok::Number(l)),
        None => Err(CalcError::UnexpectedToken(string_of(s))),
    }
}

/// The token that the character `c` is by itself.
pub open spec fn sign_token(c: char) -> Option<TokView> {
    if c == '+' {
        Some(TokView::Plus)
    } else if c == '-' {
        Some(TokView::Minus)
    } else if c == '*' {
        Some(TokView::Star)
    } else if c == '/' {
        Some(TokView::Slash)
    } else if c == '(' {
        Some(TokView::LParen)
    } else if c == ')' {
        Some(TokView::RParen)
    } else if c == ',' {
        Some(TokView::Comma)
    } else {
        None
    }
}

fn read_sign(c: char) -> (r: Option<Tok>)
    ensures
        crate::outcome::seen(r) == sign_token(c),
{
    if c == '+' {
        Some(Tok::Plus)
    } else if c == '-' {
        Some(Tok::Minus)
    } else if c == '*' {
        Some(Tok::Star)
    } else if c == '/' {
        Some(Tok::Slash)
    } else if c == '(' {
        Some(Tok::LParen)
    } else if c == ')' {
        Some(Tok::RParen)
    } else if c == ',' {
        Some(Tok::Comma)
    } else {
        None
    }
}

/// `c` belongs to a word.
pub open spec fn in_word(c: char) -> bool {
    !crate::text::is_ascii_space(c) && sign_token(c) is None
}

/// How many characters of a word `s` begins with.
pub open spec fn word_run(s: Seq<char>) -> nat
    decreases s.len(),
{
    if s.len() > 0 && in_word(s[0]) {
        1 + word_run(s.skip(1))
    } else {
        0
    }
}

/// No run is longer than the text.
pub proof fn word_run_fits(s: Seq<char>)
    ensures
        word_run(s) <= s.len(),
    decreases s.len(),
{
    if s.len() > 0 {
        word_run_fits(s.skip(1));
    }
}

/// `t` before the tokens of a result.
pub open spec fn with_first(t: TokView, r: Result<Seq<TokView>, CalcFault>) -> Result<
    Seq<TokView>,
    CalcFault,
> {
    match r {
        Ok(rest) => Ok(seq![t] + rest),
        Err(e) => Err(e),
    }
}

/// The tokens of `s`; the first word that is none decides.
pub open spec fn tokens_outcome(s: Seq<char>) -> Result<Seq<TokView>, CalcFault>
    decreases s.len(),
{
    if s.len() == 0 {
        Ok(Seq::empty())
    } else if crate::text::is_ascii_space(s[0]) {
        tokens_outcome(s.skip(1))
    } else {
        match sign_token(s[0]) {
            Some(t) => with_first(t, tokens_outcome(s.skip(1))),
            None => {
                let n = word_run(s);
                match word_outcome(s.take(n as int)) {
                    Err(e) => Err(e),
                    Ok(t) => {
                        proof {
                            word_run_fits(s);
                        }
                        with_first(t, tokens_outcome(s.skip(n as int)))
                    },
                }
            },
        }
    }
}

/// A list of tokens as contracts see it.
pub open spec fn tokens_seen(r: Result<Vec<Tok>, CalcError>) -> Result<Seq<TokView>, CalcFault> {
    match r {
        Ok(v) => Ok(tok_views(v@)),
        Err(e) => Err(e@),
    }
}

/// The tokens `a` before those of a result.
pub open spec fn with_all(a: Seq<TokView>, r: Result<Seq<TokView>, CalcFault>) -> Result<
    Seq<TokView>,
    CalcFault,
> {
    match r {
        Ok(rest) => Ok(a + rest),
        Err(e) => Err(e),
    }
}

fn count_word(v: &[char], from: usize) -> (r: usize)
    requires
        from <= v@.len(),
    ensures
        r == word_run(v@.skip(from as int)),
        from + r <= v@.len(),
{
    let mut i: usize = from;
    while i < v.len() && !ascii_space(v[i]) && read_sign(v[i]).is_none()
        invariant
            from <= i <= v@.len(),
            word_run(v@.skip(from as int)) == (i - from) + word_run(v@.skip(i as int)),
        decreases v@.len() - i,
    {
        assert(v@.skip(i as int).skip(1) =~= v@.skip(i + 1));
        i += 1;
    }
    i - from
}

/// The token that `v` has at `from`, and where it ends.
fn read_token(v: &[char], from: usize) -> (r: Result<(Tok, usize), CalcError>)
    requires
        from < v@.len(),
        !crate::text::is_ascii_space(v@[from as int]),
    ensures
        match r {
            Ok((t, end)) => from < end <= v@.len() && tokens_outcome(v@.skip(from as int))
                == with_first(t@, tokens_outcome(v@.skip(end as int))),
            Err(e) => tokens_outcome(v@.skip(from as int)) == Err::<Seq<TokView>, CalcFault>(e@),
        },
{
    let ghost s = v@.skip(from as int);
    match read_sign(v[from]) {
        Some(t) => {
            assert(s.skip(1) =~= v@.skip(from + 1));
            Ok((t, from + 1))
        },
        None => {
            let k: usize = count_word(v, from);
            let word = part(v, from, from + k);
            assert(word@ =~= s.take(k as int));
            assert(s.skip(k as int) =~= v@.skip(from + k));
            assert(word_run(s) > 0);
            match classify_word(word.as_slice()) {
                Ok(t) => Ok((t, from + k)),
                Err(e) => Err(e),
            }
        },
    }
}

proof fn pushed_in_front(before: Seq<Tok>, t: Tok, rest: Result<Seq<TokView>, CalcFault>)
    ensures
        with_all(tok_views(before), with_first(t@, rest)) == with_all(
            tok_views(before.push(t)),
            rest,
        ),
{
    assert(tok_views(before.push(t)) =~= tok_views(before).push(t@));
    if rest is Ok {
        assert(tok_views(before) + (seq![t@] + rest->Ok_0) =~= tok_views(before.push(t))
            + rest->Ok_0);
    }
}

/// Splits a text into tokens.
pub fn tokenize(input: &str) -> (r: Result<Vec<Tok>, CalcError>)
    ensures
        tokens_seen(r) == tokens_outcome(input@),
{
    let v = chars_of(input);
    let n: usize = v.len();
    let mut out: Vec<Tok> = Vec::new();
    let mut i: usize = 0;
    proof {
        assert(v@.skip(0) =~= v@);
        assert(tok_views(out@) =~= Seq::<TokView>::empty());
        let r = tokens_outcome(v@);
        if r is Ok {
            assert(Seq::<TokView>::empty() + r->Ok_0 =~= r->Ok_0);
        }
    }
    while i < n
        invariant
            i <= n == v@.len(),
            v@ == input@,
            tokens_outcome(v@) == with_all(tok_views(out@), tokens_outcome(v@.skip(i as int))),
        decreases n - i,
    {
        if ascii_space(v[i]) {
            assert(v@.skip(i as int).skip(1) =~= v@.skip(i + 1));
            i += 1;
        } else {
            match read_token(v.as_slice(), i) {
                Ok((t, end)) => {
                    proof {
                        pushed_in_front(out@, t, tokens_outcome(v@.skip(end as int)));
                    }
                    out.push(t);
                    i = end;
                },
                Err(e) => {
                    return Err(e);
                },
            }
        }
    }
    proof {
        assert(v@.skip(n as int) =~= Seq::<char>::empty());
        assert(tok_views(out@) + Seq::<TokView>::empty() =~= tok_views(out@));
    }
    Ok(out)
}

/// Each unit has the name of its own; what is none of them is no unit.
pub proof fn units_have_their_names(s: Seq<char>)
    ensures
        ({
            let k = s;
            let r = unit_named(s);
            &&& r == Some(LengthUnit::Px) <==> k == "px"@
            &&& r == Some(LengthUnit::In) <==> k == "in"@
            &&& r == Some(LengthUnit::Cm) <==> k == "cm"@
            &&& r == Some(LengthUnit::Mm) <==> k == "mm"@
            &&& r == Some(LengthUnit::Q) <==> k == "Q"@
            &&& r == Some(LengthUnit::Pt) <==> k == "pt"@
            &&& r == Some(LengthUnit::Pc) <==> k == "pc"@
            &&& r == Some(LengthUnit::Em) <==> k == "em"@
            &&& r == Some(LengthUnit::Rem) <==> k == "rem"@
            &&& r == Some(LengthUnit::Ex) <==> k == "ex"@
            &&& r == Some(LengthUnit::Ch) <==> k == "ch"@
            &&& r == Some(LengthUnit::Vw) <==> k == "vw"@
            &&& r == Some(LengthUnit::Vh) <==> k == "vh"@
            &&& r == Some(LengthUnit::Vmin) <==> k == "vmin"@
            &&& r == Some(LengthUnit::Vmax) <==> k == "vmax"@
        }),
{
    reveal_strlit("px");
    reveal_strlit("in");
    reveal_strlit("cm");
    reveal_strlit("mm");
    reveal_strlit("Q");
    reveal_strlit("pt");
    reveal_strlit("pc");
    reveal_strlit("em");
    reveal_strlit("rem");
    reveal_strlit("ex");
    reveal_strlit("ch");
    reveal_strlit("vw");
    reveal_strlit("vh");
    reveal_strlit("vmin");
    reveal_strlit("vmax");
    assert("px"@.len() == 2);
    assert("in"@.len() == 2);
    assert("cm"@.len() == 2);
    assert("mm"@.len() == 2);
    assert("Q"@.len() == 1);
    assert("pt"@.len() == 2);
    assert("pc"@.len() == 2);
    assert("em"@.len() == 2);
    assert("rem"@.len() == 3);
    assert("ex"@.len() == 2);
    assert("ch"@.len() == 2);
    assert("vw"@.len() == 2);
    assert("vh"@.len() == 2);
    assert("vmin"@.len() == 4);
    assert("vmax"@.len() == 4);
    assert("px"@[0] == 'p' && "in"@[0] == 'i');
    assert("px"@[0] == 'p' && "cm"@[0] == 'c');
    assert("px"@[0] == 'p' && "mm"@[0] == 'm');
    assert("px"@[1] == 'x' && "pt"@[1] == 't');
    assert("px"@[1] == 'x' && "pc"@[1] == 'c');
    assert("px"@[0] == 'p' && "em"@[0] == 'e');
    assert("px"@[0] == 'p' && "ex"@[0] == 'e');
    assert("px"@[0] == 'p' && "ch"@[0] == 'c');
    assert("px"@[0] == 'p' && "vw"@[0] == 'v');
    assert("px"@[0] == 'p' && "vh"@[0] == 'v');
    assert("in"@[0] == 'i' && "cm"@[0] == 'c');
    assert("in"@[0] == 'i' && "mm"@[0] == 'm');
    assert("in"@[0] == 'i' && "pt"@[0] == 'p');
    assert("in"@[0] == 'i' && "pc"@[0] == 'p');
    assert("in"@[0] == 'i' && "em"@[0] == 'e');
    assert("in"@[0] == 'i' && "ex"@[0] == 'e');
    assert("in"@[0] == 'i' && "ch"@[0] == 'c');
    assert("in"@[0] == 'i' && "vw"@[0] == 'v');
    assert("in"@[0] == 'i' && "vh"@[0] == 'v');
    assert("cm"@[0] == 'c' && "mm"@[0] == 'm');
    assert("cm"@[0] == 'c' && "pt"@[0] == 'p');
    assert("cm"@[0] == 'c' && "pc"@[0] == 'p');
    assert("cm"@[0] == 'c' && "em"@[0] == 'e');
    assert("cm"@[0] == 'c' && "ex"@[0] == 'e');
    assert("cm"@[1] == 'm' && "ch"@[1] == 'h');
    assert("cm"@[0] == 'c' && "vw"@[0] == 'v');
    assert("cm"@[0] == 'c' && "vh"@[0] == 'v');
    assert("mm"@[0] == 'm' && "pt"@[0] == 'p');
    assert("mm"@[0] == 'm' && "pc"@[0] == 'p');
    assert("mm"@[0] == 'm' && "em"@[0] == 'e');
    assert("mm"@[0] == 'm' && "ex"@[0] == 'e');
    assert("mm"@[0] == 'm' && "ch"@[0] == 'c');
    assert("mm"@[0] == 'm' && "vw"@[0] == 'v');
    assert("mm"@[0] == 'm' && "vh"@[0] == 'v');
    assert("pt"@[1] == 't' && "pc"@[1] == 'c');
    assert("pt"@[0] == 'p' && "em"@[0] == 'e');
    assert("pt"@[0] == 'p' && "ex"@[0] == 'e');
    assert("pt"@[0] == 'p' && "ch"@[0] == 'c');
    assert("pt"@[0] == 'p' && "vw"@[0] == 'v');
    assert("pt"@[0] == 'p' && "vh"@[0] == 'v');
    assert("pc"@[0] == 'p' && "em"@[0] == 'e');
    assert("pc"@[0] == 'p' && "ex"@[0] == 'e');
    assert("pc"@[0] == 'p' && "ch"@[0] == 'c');
    assert("pc"@[0] == 'p' && "vw"@[0] == 'v');
    assert("pc"@[0] == 'p' && "vh"@[0] == 'v');
    assert("em"@[1] == 'm' && "ex"@[1] == 'x');
    assert("em"@[0] == 'e' && "ch"@[0] == 'c');
    assert("em"@[0] == 'e' && "vw"@[0] == 'v');
    assert("em"@[0] == 'e' && "vh"@[0] == 'v');
    assert("ex"@[0] == 'e' && "ch"@[0] == 'c');
    assert("ex"@[0] == 'e' && "vw"@[0] == 'v');
    assert("ex"@[0] == 'e' && "vh"@[0] == 'v');
    assert("ch"@[0] == 'c' && "vw"@[0] == 'v');
    assert("ch"@[0] == 'c' && "vh"@[0] == 'v');
    assert("vw"@[1] == 'w' && "vh"@[1] == 'h');
    assert("vmin"@[2] == 'i' && "vmax"@[2] == 'a');
}

/// Each operator, parenthesis and comma is the token of its own.
pub proof fn signs_are_their_tokens(c: char)
    ensures
        sign_token(c) == Some(TokView::Plus) <==> c == '+',
        sign_token(c) == Some(TokView::Minus) <==> c == '-',
        sign_token(c) == Some(TokView::Star) <==> c == '*',
        sign_token(c) == Some(TokView::Slash) <==> c == '/',
        sign_token(c) == Some(TokView::LParen) <==> c == '(',
        sign_token(c) == Some(TokView::RParen) <==> c == ')',
        sign_token(c) == Some(TokView::Comma) <==> c == ',',
{
}

/// Each function has the name of its own.
pub proof fn functions_have_their_names(s: Seq<char>)
    ensures
        ({
            let r = word_outcome(s);
            &&& r == Ok::<TokView, CalcFault>(TokView::Func(MathFunction::Calc)) <==> s == "calc"@
            &&& r == Ok::<TokView, CalcFault>(TokView::Func(MathFunction::Min)) <==> s == "min"@
            &&& r == Ok::<TokView, CalcFault>(TokView::Func(MathFunction::Max)) <==> s == "max"@
            &&& r == Ok::<TokView, CalcFault>(TokView::Func(MathFunction::Clamp)) <==> s == "clamp"@
        }),
{
    reveal_strlit("calc");
    reveal_strlit("min");
    reveal_strlit("max");
    reveal_strlit("clamp");
    assert("calc"@.len() == 4);
    assert("min"@.len() == 3);
    assert("max"@.len() == 3);
    assert("clamp"@.len() == 5);
    assert("min"@[1] == 'i' && "max"@[1] == 'a');
}

} // verus!
