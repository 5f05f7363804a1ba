//! What holds of calculations as a whole.

use vstd::prelude::*;

use crate::calc::evaluate::{CalcType, ResultView};
use crate::calc::parser::Parsed;
use crate::calc::token::TokView;
use crate::calc::{CalcFault, CalcView, MathFunction};

verus! {

/// Every function in `n` has arguments.
pub open spec fn writable(n: CalcView) -> bool
    decreases n,
{
    match n {
        CalcView::Add(a, b) => writable(*a) && writable(*b),
        CalcView::Sub(a, b) => writable(*a) && writable(*b),
        CalcView::Mul(a, b) => writable(*a) && writable(*b),
        CalcView::Div(a, b) => writable(*a) && writable(*b),
        CalcView::Min(args) => args.len() > 0 && (forall|i: int|
            0 <= i < args.len() ==> writable(#[trigger] args[i])),
        CalcView::Max(args) => args.len() > 0 && (forall|i: int|
            0 <= i < args.len() ==> writable(#[trigger] args[i])),
        CalcView::Clamp(a, b, c) => writable(*a) && writable(*b) && writable(*c),
        _ => true,
    }
}

/// The tokens of `n` as a value: what is no single token stands in parentheses.
pub open spec fn value_tokens(n: CalcView) -> Seq<TokView>
    decreases n, 1int,
{
    match n {
        CalcView::Number(s) => seq![TokView::Number(s)],
        CalcView::Length(l) => seq![TokView::Length(l)],
        CalcView::Percent(s) => seq![TokView::Percent(s)],
        CalcView::Add(a, b) => in_parens(value_tokens(*a) + seq![TokView::Plus] + value_tokens(*b)),
        CalcView::Sub(a, b) => in_parens(
            value_tokens(*a) + seq![TokView::Minus] + value_tokens(*b),
        ),
        CalcView::Mul(a, b) => in_parens(value_tokens(*a) + seq![TokView::Star] + value_tokens(*b)),
        CalcView::Div(a, b) => in_parens(
            value_tokens(*a) + seq![TokView::Slash] + value_tokens(*b),
        ),
        CalcView::Min(args) => seq![TokView::Func(MathFunction::Min)] + in_parens(
            list_tokens(args),
        ),
        CalcView::Max(args) => seq![TokView::Func(MathFunction::Max)] + in_parens(
            list_tokens(args),
        ),
        CalcView::Clamp(a, b, c) => seq![TokView::Func(MathFunction::Clamp)] + in_parens(
            value_tokens(*a) + seq![TokView::Comma] + value_tokens(*b) + seq![TokView::Comma]
                + value_tokens(*c),
        ),
    }
}

/// Tokens in parentheses.
pub open spec fn in_parens(t: Seq<TokView>) -> Seq<TokView> {
    seq![TokView::LParen] + t + seq![TokView::RParen]
}

/// The tokens of a list of arguments, with commas between them.
pub open spec fn list_tokens(args: Seq<CalcView>) -> Seq<TokView>
    decreases args, 0int,
{
    if args.len() == 0 {
        Seq::empty()
    } else if args.len() == 1 {
        value_tokens(args[0])
    } else {
        value_tokens(args[0]) + seq![TokView::Comma] + list_tokens(args.drop_first())
    }
}

/// `t` stands in `toks` at `i`.
pub open spec fn stands_at(toks: Seq<TokView>, i: int, t: Seq<TokView>) -> bool {
    0 <= i && i + t.len() <= toks.len() && toks.subrange(i, i + t.len()) == t
}

/// The place behind `t` at `i` holds no operator that `t` would be part of.
pub open spec fn ends_sum(toks: Seq<TokView>, i: int) -> bool {
    !crate::calc::parser::stands(toks, i, TokView::Plus) && !crate::calc::parser::stands(
        toks,
        i,
        TokView::Minus,
    ) && ends_product(toks, i)
}

/// The place at `i` holds no operator of a product.
pub open spec fn ends_product(toks: Seq<TokView>, i: int) -> bool {
    !crate::calc::parser::stands(toks, i, TokView::Star) && !crate::calc::parser::stands(
        toks,
        i,
        TokView::Slash,
    )
}

proof fn part_stands(toks: Seq<TokView>, i: int, t: Seq<TokView>, a: int, u: Seq<TokView>)
    requires
        stands_at(toks, i, t),
        0 <= a,
        a + u.len() <= t.len(),
        t.subrange(a, a + u.len()) == u,
    ensures
        stands_at(toks, i + a, u),
{
    assert(toks.subrange(i + a, i + a + u.len()) =~= t.subrange(a, a + u.len()));
}

proof fn token_stands(toks: Seq<TokView>, i: int, t: Seq<TokView>, a: int)
    requires
        stands_at(toks, i, t),
        0 <= a < t.len(),
    ensures
        toks[i + a] == t[a],
        i + a < toks.len(),
{
    assert(toks.subrange(i, i + t.len())[a] == t[a]);
}

/// A value is a product and a sum where nothing goes on behind it.
proof fn value_is_sum(toks: Seq<TokView>, i: int, n: CalcView, j: int)
    requires
        crate::calc::parser::value_at(toks, i) == Parsed::Ok((n, j)),
        i < j <= toks.len(),
        ends_sum(toks, j),
    ensures
        crate::calc::parser::sum_at(toks, i) == Parsed::Ok((n, j)),
{
    assert(crate::calc::parser::product_from(n, toks, j) == Parsed::Ok((n, j)));
    assert(crate::calc::parser::product_at(toks, i) == Parsed::Ok((n, j)));
    assert(crate::calc::parser::sum_from(n, toks, j) == Parsed::Ok((n, j)));
}

/// Two values with an operator of a sum between them are that sum.
proof fn sum_of_values(toks: Seq<TokView>, i: int, a: CalcView, j: int, b: CalcView, k: int)
    requires
        crate::calc::parser::value_at(toks, i) == Parsed::Ok((a, j)),
        i < j < toks.len(),
        toks[j] == TokView::Plus || toks[j] == TokView::Minus,
        crate::calc::parser::value_at(toks, j + 1) == Parsed::Ok((b, k)),
        j + 1 < k <= toks.len(),
        ends_sum(toks, k),
    ensures
        crate::calc::parser::sum_at(toks, i) == Parsed::Ok(
            (
                if toks[j] == TokView::Plus {
                    CalcView::Add(Box::new(a), Box::new(b))
                } else {
                    CalcView::Sub(Box::new(a), Box::new(b))
                },
                k,
            ),
        ),
{
    assert(crate::calc::parser::product_from(a, toks, j) == Parsed::Ok((a, j)));
    assert(crate::calc::parser::product_at(toks, i) == Parsed::Ok((a, j)));
    assert(crate::calc::parser::product_from(b, toks, k) == Parsed::Ok((b, k)));
    assert(crate::calc::parser::product_at(toks, j + 1) == Parsed::Ok((b, k)));
    let n = if toks[j] == TokView::Plus {
        CalcView::Add(Box::new(a), Box::new(b))
    } else {
        CalcView::Sub(Box::new(a), Box::new(b))
    };
    assert(crate::calc::parser::sum_from(n, toks, k) == Parsed::Ok((n, k)));
    assert(crate::calc::parser::sum_from(a, toks, j) == crate::calc::parser::sum_from(n, toks, k));
}

/// Two values with an operator of a product between them are that product.
proof fn product_of_values(toks: Seq<TokView>, i: int, a: CalcView, j: int, b: CalcView, k: int)
    requires
        crate::calc::parser::value_at(toks, i) == Parsed::Ok((a, j)),
        i < j < toks.len(),
        toks[j] == TokView::Star || toks[j] == TokView::Slash,
        crate::calc::parser::value_at(toks, j + 1) == Parsed::Ok((b, k)),
        j + 1 < k <= toks.len(),
        ends_product(toks, k),
    ensures
        crate::calc::parser::product_at(toks, i) == Parsed::Ok(
            (
                if toks[j] == TokView::Star {
                    CalcView::Mul(Box::new(a), Box::new(b))
                } else {
                    CalcView::Div(Box::new(a), Box::new(b))
                },
                k,
            ),
        ),
{
    let n = if toks[j] == TokView::Star {
        CalcView::Mul(Box::new(a), Box::new(b))
    } else {
        CalcView::Div(Box::new(a), Box::new(b))
    };
    assert(crate::calc::parser::product_from(n, toks, k) == Parsed::Ok((n, k)));
    assert(crate::calc::parser::product_from(a, toks, j) == crate::calc::parser::product_from(
        n,
        toks,
        k,
    ));
}

/// Where the parts of two operands in parentheses stand.
proof fn binary_places(
    toks: Seq<TokView>,
    i: int,
    ta: Seq<TokView>,
    op: TokView,
    tb: Seq<TokView>,
)
    requires
        stands_at(toks, i, in_parens(ta + seq![op] + tb)),
    ensures
        toks[i] == TokView::LParen,
        stands_at(toks, i + 1, ta),
        toks[i + 1 + ta.len()] == op,
        stands_at(toks, i + 2 + ta.len(), tb),
        toks[i + 2 + ta.len() + tb.len()] == TokView::RParen,
        in_parens(ta + seq![op] + tb).len() == 3 + ta.len() + tb.len(),
        0 <= i,
        i + 3 + ta.len() + tb.len() <= toks.len(),
{
    let all = in_parens(ta + seq![op] + tb);
    token_stands(toks, i, all, 0);
    token_stands(toks, i, all, 1 + ta.len() as int);
    token_stands(toks, i, all, all.len() - 1);
    assert(all.subrange(1, 1 + ta.len() as int) =~= ta);
    part_stands(toks, i, all, 1, ta);
    let at = 2 + ta.len() as int;
    assert(all.subrange(at, at + tb.len()) =~= tb);
    part_stands(toks, i, all, at, tb);
}

/// Two operands and the operator between them, in parentheses, are read.
proof fn binary_reads(toks: Seq<TokView>, i: int, a: CalcView, j: int, b: CalcView, k: int)
    requires
        0 <= i < toks.len(),
        toks[i] == TokView::LParen,
        crate::calc::parser::value_at(toks, i + 1) == Parsed::Ok((a, j)),
        i + 1 < j < toks.len(),
        toks[j] == TokView::Plus || toks[j] == TokView::Minus || toks[j] == TokView::Star || toks[j]
            == TokView::Slash,
        crate::calc::parser::value_at(toks, j + 1) == Parsed::Ok((b, k)),
        j + 1 < k < toks.len(),
        toks[k] == TokView::RParen,
    ensures
        ({
            let n = if toks[j] == TokView::Plus {
                CalcView::Add(Box::new(a), Box::new(b))
            } else if toks[j] == TokView::Minus {
                CalcView::Sub(Box::new(a), Box::new(b))
            } else if toks[j] == TokView::Star {
                CalcView::Mul(Box::new(a), Box::new(b))
            } else {
                CalcView::Div(Box::new(a), Box::new(b))
            };
            crate::calc::parser::value_at(toks, i) == Parsed::Ok((n, k + 1))
        }),
{
    if toks[j] == TokView::Plus || toks[j] == TokView::Minus {
        sum_of_values(toks, i + 1, a, j, b, k);
    } else {
        product_of_values(toks, i + 1, a, j, b, k);
        let n = if toks[j] == TokView::Star {
            CalcView::Mul(Box::new(a), Box::new(b))
        } else {
            CalcView::Div(Box::new(a), Box::new(b))
        };
        assert(crate::calc::parser::sum_from(n, toks, k) == Parsed::Ok((n, k)));
    }
}

/// Reads the two operands of `n` back.
proof fn operands_read_back(
    toks: Seq<TokView>,
    i: int,
    n: CalcView,
    a: CalcView,
    op: TokView,
    b: CalcView,
)
    requires
        n == CalcView::Add(Box::new(a), Box::new(b)) && op == TokView::Plus || n == CalcView::Sub(
            Box::new(a),
            Box::new(b),
        ) && op == TokView::Minus || n == CalcView::Mul(Box::new(a), Box::new(b)) && op
            == TokView::Star || n == CalcView::Div(Box::new(a), Box::new(b)) && op
            == TokView::Slash,
        writable(n),
        stands_at(toks, i, value_tokens(n)),
    ensures
        crate::calc::parser::value_at(toks, i) == Parsed::Ok((n, i + value_tokens(n).len())),
    decreases n, 0int,
{
    let ta = value_tokens(a);
    let tb = value_tokens(b);
    assert(value_tokens(n) == in_parens(ta + seq![op] + tb));
    binary_places(toks, i, ta, op, tb);
    let j = i + 1 + ta.len();
    values_read_back(toks, i + 1, a);
    values_read_back(toks, j + 1, b);
    binary_reads(toks, i, a, j, b, j + 1 + tb.len());
}

/// The tokens of a calculation as a value read back as that calculation,
/// wherever they stand.
pub proof fn values_read_back(toks: Seq<TokView>, i: int, n: CalcView)
    requires
        writable(n),
        stands_at(toks, i, value_tokens(n)),
    ensures
        crate::calc::parser::value_at(toks, i) == Parsed::Ok((n, i + value_tokens(n).len())),
        value_tokens(n).len() > 0,
    decreases n, 1int,
{
    let t = value_tokens(n);
    match n {
        CalcView::Number(_) => {
            token_stands(toks, i, t, 0);
        },
        CalcView::Length(_) => {
            token_stands(toks, i, t, 0);
        },
        CalcView::Percent(_) => {
            token_stands(toks, i, t, 0);
        },
        CalcView::Add(a, b) => {
            operands_read_back(toks, i, n, *a, TokView::Plus, *b);
        },
        CalcView::Sub(a, b) => {
            operands_read_back(toks, i, n, *a, TokView::Minus, *b);
        },
        CalcView::Mul(a, b) => {
            operands_read_back(toks, i, n, *a, TokView::Star, *b);
        },
        CalcView::Div(a, b) => {
            operands_read_back(toks, i, n, *a, TokView::Slash, *b);
        },
        CalcView::Min(args) => {
            call_places(toks, i, MathFunction::Min, list_tokens(args));
            let end = i + 2 + list_tokens(args).len();
            arguments_read_back(Seq::empty(), toks, i + 2, args);
            assert(Seq::<CalcView>::empty() + args =~= args);
            assert(crate::calc::parser::call_at(MathFunction::Min, toks, i + 1) == Parsed::Ok(
                (n, end + 1),
            ));
        },
        CalcView::Max(args) => {
            call_places(toks, i, MathFunction::Max, list_tokens(args));
            let end = i + 2 + list_tokens(args).len();
            arguments_read_back(Seq::empty(), toks, i + 2, args);
            assert(Seq::<CalcView>::empty() + args =~= args);
            assert(crate::calc::parser::call_at(MathFunction::Max, toks, i + 1) == Parsed::Ok(
                (n, end + 1),
            ));
        },
        CalcView::Clamp(a, b, c) => {
            clamp_reads_back(toks, i, n, *a, *b, *c);
        },
    }
}

/// Where the parts of a call stand.
proof fn call_places(toks: Seq<TokView>, i: int, f: MathFunction, inner: Seq<TokView>)
    requires
        stands_at(toks, i, seq![TokView::Func(f)] + in_parens(inner)),
    ensures
        0 <= i,
        i + 3 + inner.len() <= toks.len(),
        toks[i] == TokView::Func(f),
        toks[i + 1] == TokView::LParen,
        stands_at(toks, i + 2, inner),
        toks[i + 2 + inner.len()] == TokView::RParen,
{
    let all = seq![TokView::Func(f)] + in_parens(inner);
    token_stands(toks, i, all, 0);
    token_stands(toks, i, all, 1);
    token_stands(toks, i, all, all.len() - 1);
    assert(all.subrange(2, 2 + inner.len() as int) =~= inner);
    part_stands(toks, i, all, 2, inner);
}

/// The tokens of a list of arguments, with the closing parenthesis behind them,
/// read back as those arguments.
proof fn arguments_read_back(
    done: Seq<CalcView>,
    toks: Seq<TokView>,
    i: int,
    args: Seq<CalcView>,
)
    requires
        args.len() > 0,
        forall|k: int| 0 <= k < args.len() ==> writable(#[trigger] args[k]),
        stands_at(toks, i, list_tokens(args)),
        crate::calc::parser::stands(toks, i + list_tokens(args).len(), TokView::RParen),
    ensures
        crate::calc::parser::arguments_at(done, toks, i) == Ok::<
            (Seq<CalcView>, int),
            CalcFault,
        >((done + args, i + list_tokens(args).len())),
    decreases args, 0int,
{
    let first = value_tokens(args[0]);
    let t = list_tokens(args);
    assert(writable(args[0]));
    if args.len() == 1 {
        values_read_back(toks, i, args[0]);
        value_is_sum(toks, i, args[0], i + t.len());
        assert(done.push(args[0]) =~= done + args);
    } else {
        let rest = args.drop_first();
        let tail = list_tokens(rest);
        assert(t == first + seq![TokView::Comma] + tail);
        assert(t.subrange(0, first.len() as int) =~= first);
        part_stands(toks, i, t, 0, first);
        let at = first.len() as int + 1;
        assert(t.subrange(at, at + tail.len()) =~= tail);
        part_stands(toks, i, t, at, tail);
        token_stands(toks, i, t, first.len() as int);
        values_read_back(toks, i, args[0]);
        let j = i + first.len();
        value_is_sum(toks, i, args[0], j);
        assert forall|k: int| 0 <= k < rest.len() implies writable(#[trigger] rest[k]) by {
            assert(writable(args[k + 1]));
        }
        arguments_read_back(done.push(args[0]), toks, j + 1, rest);
        assert(done.push(args[0]) + rest =~= done + args);
    }
}

proof fn clamp_reads_back(
    toks: Seq<TokView>,
    i: int,
    n: CalcView,
    a: CalcView,
    b: CalcView,
    c: CalcView,
)
    requires
        n == CalcView::Clamp(Box::new(a), Box::new(b), Box::new(c)),
        writable(n),
        stands_at(toks, i, value_tokens(n)),
    ensures
        crate::calc::parser::value_at(toks, i) == Parsed::Ok((n, i + value_tokens(n).len())),
    decreases n, 0int,
{
    let ta = value_tokens(a);
    let tb = value_tokens(b);
    let tc = value_tokens(c);
    let comma = seq![TokView::Comma];
    let inner = ta + comma + tb + comma + tc;
    call_places(toks, i, MathFunction::Clamp, inner);
    let s = i + 2;
    assert(inner.subrange(0, ta.len() as int) =~= ta);
    part_stands(toks, s, inner, 0, ta);
    token_stands(toks, s, inner, ta.len() as int);
    let pb = ta.len() as int + 1;
    assert(inner.subrange(pb, pb + tb.len()) =~= tb);
    part_stands(toks, s, inner, pb, tb);
    token_stands(toks, s, inner, pb + tb.len());
    let pc = pb + tb.len() as int + 1;
    assert(inner.subrange(pc, pc + tc.len()) =~= tc);
    part_stands(toks, s, inner, pc, tc);
    values_read_back(toks, s, a);
    values_read_back(toks, s + pb, b);
    values_read_back(toks, s + pc, c);
    value_is_sum(toks, s, a, s + ta.len());
    value_is_sum(toks, s + pb, b, s + pb + tb.len());
    let end = s + pc + tc.len();
    value_is_sum(toks, s + pc, c, end);
    let none = Seq::<CalcView>::empty();
    let three = none.push(a).push(b).push(c);
    assert(crate::calc::parser::arguments_at(none.push(a).push(b), toks, s + pc) == Ok::<
        (Seq<CalcView>, int),
        CalcFault,
    >((three, end)));
    assert(crate::calc::parser::arguments_at(none.push(a), toks, s + pb) == Ok::<
        (Seq<CalcView>, int),
        CalcFault,
    >((three, end)));
    assert(crate::calc::parser::arguments_at(none, toks, s) == Ok::<
        (Seq<CalcView>, int),
        CalcFault,
    >((three, end)));
    assert(three[0] == a && three[1] == b && three[2] == c);
    assert(crate::calc::parser::applied(MathFunction::Clamp, three) == Ok::<CalcView, CalcFault>(
        n,
    ));
    assert(crate::calc::parser::call_at(MathFunction::Clamp, toks, i + 1) == Parsed::Ok(
        (n, end + 1),
    ));
}

/// Every calculation can be written: its tokens read back as it.
pub proof fn calculations_read_back(n: CalcView)
    requires
        writable(n),
    ensures
        crate::calc::parser::tree_outcome(value_tokens(n)) == Ok::<CalcView, CalcFault>(n),
{
    let t = value_tokens(n);
    assert(t.subrange(0, t.len() as int) =~= t);
    values_read_back(t, 0, n);
    value_is_sum(t, 0, n, t.len() as int);
}

/// `calc()` around a calculation changes nothing.
pub proof fn calc_is_transparent(n: CalcView)
    requires
        writable(n),
    ensures
        crate::calc::parser::tree_outcome(
            seq![TokView::Func(MathFunction::Calc)] + in_parens(value_tokens(n)),
        ) == Ok::<CalcView, CalcFault>(n),
{
    let inner = value_tokens(n);
    let t = seq![TokView::Func(MathFunction::Calc)] + in_parens(inner);
    assert(t.subrange(0, t.len() as int) =~= t);
    call_places(t, 0, MathFunction::Calc, inner);
    values_read_back(t, 2, n);
    value_is_sum(t, 2, n, 2 + inner.len() as int);
    assert(crate::calc::parser::value_at(t, 0) == Parsed::Ok((n, t.len() as int)));
    value_is_sum(t, 0, n, t.len() as int);
}

/// Where three values with two operators between them stand.
proof fn three_places(
    ta: Seq<TokView>,
    p: TokView,
    tb: Seq<TokView>,
    q: TokView,
    tc: Seq<TokView>,
)
    ensures
        ({
            let t = ta + seq![p] + tb + seq![q] + tc;
            let j = ta.len() as int;
            let k = j + 1 + tb.len();
            &&& t.len() == k + 1 + tc.len()
            &&& stands_at(t, 0, ta)
            &&& t[j] == p
            &&& stands_at(t, j + 1, tb)
            &&& t[k] == q
            &&& stands_at(t, k + 1, tc)
        }),
{
    let t = ta + seq![p] + tb + seq![q] + tc;
    let j = ta.len() as int;
    let k = j + 1 + tb.len();
    assert(t.subrange(0, ta.len() as int) =~= ta);
    assert(t.subrange(j + 1, j + 1 + tb.len()) =~= tb);
    assert(t.subrange(k + 1, k + 1 + tc.len()) =~= tc);
}

/// Products bind tighter than sums: `a + b * c` is `a + (b * c)`.
pub proof fn products_bind_tighter(a: CalcView, b: CalcView, c: CalcView)
    requires
        writable(a),
        writable(b),
        writable(c),
    ensures
        crate::calc::parser::tree_outcome(
            value_tokens(a) + seq![TokView::Plus] + value_tokens(b) + seq![TokView::Star]
                + value_tokens(c),
        ) == Ok::<CalcView, CalcFault>(
            CalcView::Add(
                Box::new(a),
                Box::new(CalcView::Mul(Box::new(b), Box::new(c))),
            ),
        ),
{
    let ta = value_tokens(a);
    let tb = value_tokens(b);
    let tc = value_tokens(c);
    let t = ta + seq![TokView::Plus] + tb + seq![TokView::Star] + tc;
    let j = ta.len() as int;
    let k = j + 1 + tb.len();
    three_places(ta, TokView::Plus, tb, TokView::Star, tc);
    values_read_back(t, 0, a);
    values_read_back(t, j + 1, b);
    values_read_back(t, k + 1, c);
    let end = t.len() as int;
    product_of_values(t, j + 1, b, k, c, end);
    let product = CalcView::Mul(Box::new(b), Box::new(c));
    let n = CalcView::Add(Box::new(a), Box::new(product));
    assert(crate::calc::parser::product_from(a, t, j) == Parsed::Ok((a, j)));
    assert(crate::calc::parser::product_at(t, 0) == Parsed::Ok((a, j)));
    assert(crate::calc::parser::sum_from(n, t, end) == Parsed::Ok((n, end)));
    assert(crate::calc::parser::sum_from(a, t, j) == Parsed::Ok((n, end)));
}

/// Differences associate to the left: `a - b - c` is `(a - b) - c`.
pub proof fn differences_associate_left(a: CalcView, b: CalcView, c: CalcView)
    requires
        writable(a),
        writable(b),
        writable(c),
    ensures
        crate::calc::parser::tree_outcome(
            value_tokens(a) + seq![TokView::Minus] + value_tokens(b) + seq![TokView::Minus]
                + value_tokens(c),
        ) == Ok::<CalcView, CalcFault>(
            CalcView::Sub(
                Box::new(CalcView::Sub(Box::new(a), Box::new(b))),
                Box::new(c),
            ),
        ),
{
    let ta = value_tokens(a);
    let tb = value_tokens(b);
    let tc = value_tokens(c);
    let t = ta + seq![TokView::Minus] + tb + seq![TokView::Minus] + tc;
    let j = ta.len() as int;
    let k = j + 1 + tb.len();
    let end = t.len() as int;
    three_places(ta, TokView::Minus, tb, TokView::Minus, tc);
    values_read_back(t, 0, a);
    values_read_back(t, j + 1, b);
    values_read_back(t, k + 1, c);
    assert(crate::calc::parser::product_from(a, t, j) == Parsed::Ok((a, j)));
    assert(crate::calc::parser::product_at(t, 0) == Parsed::Ok((a, j)));
    assert(crate::calc::parser::product_from(b, t, k) == Parsed::Ok((b, k)));
    assert(crate::calc::parser::product_at(t, j + 1) == Parsed::Ok((b, k)));
    assert(crate::calc::parser::product_from(c, t, end) == Parsed::Ok((c, end)));
    assert(crate::calc::parser::product_at(t, k + 1) == Parsed::Ok((c, end)));
    let first = CalcView::Sub(Box::new(a), Box::new(b));
    let n = CalcView::Sub(Box::new(first), Box::new(c));
    assert(crate::calc::parser::sum_from(n, t, end) == Parsed::Ok((n, end)));
    assert(crate::calc::parser::sum_from(first, t, k) == Parsed::Ok((n, end)));
    assert(crate::calc::parser::sum_from(a, t, j) == Parsed::Ok((n, end)));
}

/// The types of operands: a sum or a difference has two of the same type, which
/// is its own; a product has a number among its factors and the type of the
/// other one; a quotient has a number as its divisor and the type of the other
/// operand. In every other case the types do not match, and a fault of an
/// operand is the fault of the whole.
pub proof fn operands_are_typed(a: CalcView, b: CalcView)
    ensures
        ({
            let (a, b) = (Box::new(a), Box::new(b));
            let (add, sub) = (CalcView::Add(a, b), CalcView::Sub(a, b));
            let (mul, div) = (CalcView::Mul(a, b), CalcView::Div(a, b));
            match (
                crate::calc::evaluate::result_outcome(*a),
                crate::calc::evaluate::result_outcome(*b),
            ) {
                (Ok(x), Ok(y)) => {
                    let (x, y) = (x.kind(), y.kind());
                    &&& if x == y {
                        typed(add, x) && typed(sub, x)
                    } else {
                        mismatched(add) && mismatched(sub)
                    }
                    &&& if x == CalcType::Number {
                        typed(mul, y)
                    } else if y == CalcType::Number {
                        typed(mul, x)
                    } else {
                        mismatched(mul)
                    }
                    &&& if y == CalcType::Number {
                        typed(div, x)
                    } else {
                        mismatched(div)
                    }
                },
                (Err(e), _) => faulty(add, e) && faulty(sub, e) && faulty(mul, e) && faulty(div, e),
                (_, Err(e)) => faulty(add, e) && faulty(sub, e) && faulty(mul, e) && faulty(div, e),
            }
        }),
{
}

/// The calculation has this type.
pub open spec fn typed(n: CalcView, t: CalcType) -> bool {
    crate::calc::evaluate::result_outcome(n) matches Ok(x) && x.kind() == t
}

/// The calculation has this fault.
pub open spec fn faulty(n: CalcView, e: CalcFault) -> bool {
    crate::calc::evaluate::result_outcome(n) == Err::<ResultView, CalcFault>(e)
}

/// The types of the calculation do not match.
pub open spec fn mismatched(n: CalcView) -> bool {
    crate::calc::evaluate::result_outcome(n) matches Err(e) && e is TypeMismatch
}

/// The values of arguments have a type where each argument has it.
proof fn values_are_typed(args: Seq<CalcView>, t: CalcType)
    requires
        args.len() > 0,
    ensures
        (crate::calc::evaluate::values_outcome(args) matches Ok((u, values)) && u == t) <==> (
        forall|i: int| 0 <= i < args.len() ==> typed(#[trigger] args[i], t)),
    decreases args.len(),
{
    if args.len() > 1 {
        let rest = args.drop_last();
        values_are_typed(rest, t);
        assert(forall|i: int| 0 <= i < rest.len() ==> rest[i] == #[trigger] args[i]);
        let last = args[args.len() - 1];
        if forall|i: int| 0 <= i < args.len() ==> typed(#[trigger] args[i], t) {
            assert(forall|i: int| 0 <= i < rest.len() ==> typed(#[trigger] rest[i], t));
            assert(typed(last, t));
        } else if forall|i: int| 0 <= i < rest.len() ==> typed(#[trigger] rest[i], t) {
            assert(forall|i: int| 0 <= i < args.len() - 1 ==> typed(rest[i], t) && #[trigger] args[i]
                == rest[i]);
            assert(!typed(last, t));
        }
    } else {
        assert(typed(args[0], t) <==> forall|i: int|
            0 <= i < args.len() ==> typed(#[trigger] args[i], t));
    }
}

/// `min()`, `max()` and `clamp()` have a type exactly where all their arguments
/// have it.
pub proof fn arguments_share_a_type(
    args: Seq<CalcView>,
    a: CalcView,
    b: CalcView,
    c: CalcView,
    t: CalcType,
)
    requires
        args.len() > 0,
    ensures
        typed(CalcView::Min(args), t) <==> (forall|i: int|
            0 <= i < args.len() ==> typed(#[trigger] args[i], t)),
        typed(CalcView::Max(args), t) <==> (forall|i: int|
            0 <= i < args.len() ==> typed(#[trigger] args[i], t)),
        typed(CalcView::Clamp(Box::new(a), Box::new(b), Box::new(c)), t) <==> typed(a, t) && typed(
            b,
            t,
        ) && typed(c, t),
{
    values_are_typed(args, t);
}

/// The order of the factors of a product does not matter to its type.
pub proof fn factors_commute(a: CalcView, b: CalcView)
    ensures
        match (
            crate::calc::evaluate::result_outcome(CalcView::Mul(Box::new(a), Box::new(b))),
            crate::calc::evaluate::result_outcome(CalcView::Mul(Box::new(b), Box::new(a))),
        ) {
            (Ok(x), Ok(y)) => x.kind() == y.kind(),
            (Err(_), Err(_)) => true,
            _ => false,
        },
{
}

} // verus!
