//! Calculations as they are written.

use vstd::prelude::*;

use crate::calc::token::TokView;
use crate::calc::{CalcFault, CalcView, LengthUnit, LengthView};
use crate::number::Precision;

verus! {

/// A character that stands for itself in a calculation.
pub open spec fn is_sign(c: char) -> bool {
    c == '+' || c == '-' || c == '*' || c == '/' || c == '(' || c == ')' || c == ','
}

/// White space between tokens.
pub open spec fn is_space(c: char) -> bool {
    c == ' ' || c == '\t' || c == '\n' || c == '\r' || c == '\u{c}'
}

/// White space before a token does not matter, and nothing is no token.
pub proof fn spaces_are_skipped(c: char, rest: Seq<char>)
    requires
        is_space(c),
    ensures
        crate::calc::token::tokens_outcome(seq![c] + rest) == crate::calc::token::tokens_outcome(
            rest,
        ),
        crate::calc::token::tokens_outcome(Seq::empty()) == Ok::<Seq<TokView>, CalcFault>(
            Seq::empty(),
        ),
{
    assert((seq![c] + rest).skip(1) =~= rest);
}

/// A sign is a token whatever follows it.
pub proof fn signs_stand_alone(c: char, rest: Seq<char>)
    requires
        is_sign(c),
        crate::calc::token::tokens_outcome(rest) is Ok,
    ensures
        ({
            let r = crate::calc::token::tokens_outcome(seq![c] + rest);
            let t = match c {
                '+' => TokView::Plus,
                '-' => TokView::Minus,
                '*' => TokView::Star,
                '/' => TokView::Slash,
                '(' => TokView::LParen,
                ')' => TokView::RParen,
                _ => TokView::Comma,
            };
            r == Ok::<Seq<TokView>, CalcFault>(
                seq![t] + crate::calc::token::tokens_outcome(rest)->Ok_0,
            )
        }),
{
    assert((seq![c] + rest).skip(1) =~= rest);
}

proof fn runs_end(word: Seq<char>, rest: Seq<char>)
    requires
        forall|i: int| 0 <= i < word.len() ==> !is_sign(#[trigger] word[i]) && !is_space(word[i]),
        rest.len() > 0 ==> is_sign(rest[0]) || is_space(rest[0]),
    ensures
        crate::calc::token::word_run(word + rest) == word.len(),
    decreases word.len(),
{
    let s = word + rest;
    if word.len() == 0 {
        assert(s =~= rest);
    } else {
        assert(s.skip(1) =~= word.skip(1) + rest);
        assert(s[0] == word[0]);
        assert forall|i: int| 0 <= i < word.skip(1).len() implies !is_sign(
            #[trigger] word.skip(1)[i],
        ) && !is_space(word.skip(1)[i]) by {
            assert(word.skip(1)[i] == word[i + 1]);
        }
        runs_end(word.skip(1), rest);
    }
}

/// A word goes on until white space or a sign and is one token; the tokens of the
/// rest come behind it. A word that is no token decides, whatever follows.
pub proof fn words_are_single_tokens(word: Seq<char>, rest: Seq<char>)
    requires
        word.len() > 0,
        forall|i: int| 0 <= i < word.len() ==> !is_sign(#[trigger] word[i]) && !is_space(word[i]),
        rest.len() > 0 ==> is_sign(rest[0]) || is_space(rest[0]),
    ensures
        ({
            let r = crate::calc::token::tokens_outcome(word + rest);
            let first = crate::calc::token::word_outcome(word);
            let others = crate::calc::token::tokens_outcome(rest);
            &&& r is Ok <==> first is Ok && others is Ok
            &&& r is Ok ==> r->Ok_0 == seq![first->Ok_0] + others->Ok_0
            &&& first is Err ==> r->Err_0 == first->Err_0
        }),
{
    let s = word + rest;
    runs_end(word, rest);
    assert(s[0] == word[0]);
    assert(s.take(word.len() as int) =~= word);
    assert(s.skip(word.len() as int) =~= rest);
}

/// The name of a unit.
pub open spec fn unit_text(unit: LengthUnit) -> Seq<char> {
    match unit {
        LengthUnit::Px => "px"@,
        LengthUnit::In => "in"@,
        LengthUnit::Cm => "cm"@,
        LengthUnit::Mm => "mm"@,
        LengthUnit::Q => "Q"@,
        LengthUnit::Pt => "pt"@,
        LengthUnit::Pc => "pc"@,
        LengthUnit::Em => "em"@,
        LengthUnit::Rem => "rem"@,
        LengthUnit::Ex => "ex"@,
        LengthUnit::Ch => "ch"@,
        LengthUnit::Vw => "vw"@,
        LengthUnit::Vh => "vh"@,
        LengthUnit::Vmin => "vmin"@,
        LengthUnit::Vmax => "vmax"@,
    }
}

/// The digits of a number end before the name of a unit.
proof fn digits_end_before(d: Seq<char>, t: Seq<char>)
    requires
        d.len() > 0,
        forall|i: int| 0 <= i < d.len() ==> crate::number::is_digit(#[trigger] d[i]),
        t.len() > 0 ==> !crate::number::is_digit(t[0]) && t[0] != '.' && t[0] != 'E',
        t.len() > 0 && t[0] == 'e' ==> t.len() > 1 && !crate::number::is_digit(t[1]) && t[1] != '+'
            && t[1] != '-',
    ensures
        crate::number::number_length(d + t) == d.len(),
{
    let s = d + t;
    crate::number::digits_run(d);
    crate::number::digit_run_stops(d, t);
    assert(s.skip(0) =~= s);
    assert(s[0] == d[0]);
    assert(crate::number::mantissa_end(s, 0) == d.len());
    if t.len() > 0 {
        assert(s[d.len() as int] == t[0]);
        if t[0] == 'e' {
            let rest = s.skip(d.len() as int + 1);
            assert(rest =~= t.skip(1));
            assert(rest[0] == t[1]);
            assert(crate::number::digit_run(rest) == 0);
        }
    }
}

proof fn units_begin_with_letters(unit: LengthUnit)
    ensures
        ({
            let t = unit_text(unit);
            &&& t.len() > 0
            &&& t.last() != '%'
            &&& !crate::number::is_digit(t[0]) && t[0] != '.' && t[0] != 'E'
            &&& t[0] == 'e' ==> t.len() > 1 && !crate::number::is_digit(t[1]) && t[1] != '+'
                && t[1] != '-'
            &&& crate::calc::token::unit_named(t) == Some(unit)
        }),
{
    crate::calc::token::units_have_their_names(unit_text(unit));
    reveal_strlit("px");
    reveal_strlit("in");
    reveal_strlit("cm");
    reveal_strlit("mm");
    reveal_strlit("Q");
    reveal_strlit("pt");
    reveal_strlit("pc");
    reveal_strlit("em");
    reveal_strlit("rem");
    reveal_strlit("ex");
    reveal_strlit("ch");
    reveal_strlit("vw");
    reveal_strlit("vh");
    reveal_strlit("vmin");
    reveal_strlit("vmax");
}

/// No function is named by a word that begins with a digit.
proof fn numbers_are_no_names(s: Seq<char>)
    requires
        s.len() > 0,
        crate::number::is_digit(s[0]),
    ensures
        s != "calc"@ && s != "min"@ && s != "max"@ && s != "clamp"@,
{
    reveal_strlit("calc");
    reveal_strlit("min");
    reveal_strlit("max");
    reveal_strlit("clamp");
    assert("calc"@[0] == 'c' && "min"@[0] == 'm' && "max"@[0] == 'm' && "clamp"@[0] == 'c');
}

/// A number with the name of a unit behind it is that many of the unit.
pub proof fn lengths_are_written_with_units(n: nat, unit: LengthUnit)
    requires
        n < 0x20_0000_0000_0000,
    ensures
        crate::calc::token::word_outcome(crate::text::decimal_text(n) + unit_text(unit)) == Ok::<
            TokView,
            CalcFault,
        >(TokView::Length(LengthView { value: crate::text::decimal_text(n), unit })),
{
    let d = crate::text::decimal_text(n);
    let t = unit_text(unit);
    let s = d + t;
    crate::number::decimals_read_back(n);
    crate::number::integers_read_back(n as int);
    units_begin_with_letters(unit);
    digits_end_before(d, t);
    assert(s[0] == d[0]);
    numbers_are_no_names(s);
    assert(s.last() == t[t.len() - 1]);
    assert(s.take(d.len() as int) =~= d);
    assert(s.skip(d.len() as int) =~= t);
    assert(crate::text::integer_text(n as int) == d);
}

/// A number with a percent sign is a percentage. A number alone is a number, but for
/// zero, which is a length.
pub proof fn numbers_are_written_alone(n: nat)
    requires
        n < 0x20_0000_0000_0000,
    ensures
        ({
            let d = crate::text::decimal_text(n);
            &&& crate::calc::token::word_outcome(d.push('%')) == Ok::<TokView, CalcFault>(
                TokView::Percent(d),
            )
            &&& n > 0 ==> crate::calc::token::word_outcome(d) == Ok::<TokView, CalcFault>(
                TokView::Number(d),
            )
            &&& n == 0 ==> crate::calc::token::word_outcome(d) == Ok::<TokView, CalcFault>(
                TokView::Length(LengthView { value: d, unit: LengthUnit::Px }),
            )
        }),
{
    let d = crate::text::decimal_text(n);
    let empty = Seq::<char>::empty();
    crate::number::decimals_read_back(n);
    crate::number::integers_read_back(n as int);
    assert(crate::text::integer_text(n as int) == d);
    assert(Precision::Double.reading(d) is Some);
    assert(d.push('%').drop_last() =~= d);
    assert(d.push('%')[0] == d[0]);
    numbers_are_no_names(d.push('%'));
    numbers_are_no_names(d);
    digits_end_before(d, empty);
    assert(d + empty =~= d);
    assert(d.take(d.len() as int) =~= d);
    assert(d.skip(d.len() as int) =~= empty);
    assert(crate::number::is_digit(d[d.len() - 1]));
    assert(d.last() != '%');
}

/// A text whose tokens are those of a calculation parses to that calculation.
pub proof fn written_calculations_read_back(s: Seq<char>, n: CalcView)
    requires
        crate::calc::laws::writable(n),
        crate::calc::token::tokens_outcome(s) == Ok::<Seq<TokView>, CalcFault>(
            crate::calc::laws::value_tokens(n),
        ),
    ensures
        crate::calc::parser::calc_outcome(s) == Ok::<CalcView, CalcFault>(n),
{
    crate::calc::laws::calculations_read_back(n);
}

} // verus!
