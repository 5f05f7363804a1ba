//! Numbers as they are written.

use vstd::prelude::*;

use crate::number::{NumeralView, Precision};

verus! {

/// Every character is a digit.
pub open spec fn only_digits(s: Seq<char>) -> bool {
    forall|i: int| 0 <= i < s.len() ==> crate::number::is_digit(#[trigger] s[i])
}

/// A number with a fraction and an exponent.
pub open spec fn scientific_text(whole: nat, fraction: Seq<char>, power: int) -> Seq<char> {
    crate::text::decimal_text(whole) + "."@ + fraction + "e"@ + crate::text::integer_text(power)
}

/// Digits behind others count for their own number, and those before for ten times as
/// much for each of them.
proof fn digits_join(a: Seq<char>, b: Seq<char>)
    requires
        only_digits(b),
    ensures
        crate::number::digits_number(a + b) == crate::number::digits_number(a)
            * crate::bignat::pow10(b.len()) + crate::number::digits_number(b),
    decreases b.len(),
{
    if b.len() == 0 {
        assert(a + b =~= a);
        assert(crate::number::digits_number(a) * 1 == crate::number::digits_number(a))
            by (nonlinear_arith);
    } else {
        let d = b.drop_last();
        assert((a + b).drop_last() =~= a + d);
        assert((a + b).last() == b.last());
        assert forall|i: int| 0 <= i < d.len() implies crate::number::is_digit(#[trigger] d[i]) by {
            assert(d[i] == b[i]);
        }
        digits_join(a, d);
        let x = crate::number::digits_number(a);
        let p = crate::bignat::pow10(d.len());
        assert(crate::bignat::pow10(b.len()) == 10 * p);
        assert(10 * (x * p) == x * (10 * p)) by (nonlinear_arith);
    }
}

proof fn digit_words_are_no_names(s: Seq<char>)
    requires
        s.len() > 0,
        crate::number::is_digit(s[0]),
    ensures
        crate::text::lowered(s) != "inf"@,
        crate::text::lowered(s) != "infinity"@,
        crate::text::lowered(s) != "nan"@,
{
    reveal_strlit("inf");
    reveal_strlit("infinity");
    reveal_strlit("nan");
    assert(crate::text::lowered(s)[0] == s[0]);
    assert("inf"@[0] == 'i' && "infinity"@[0] == 'i' && "nan"@[0] == 'n');
}

/// The digits before the point and behind it write one number together, over ten to
/// the power of how many stand behind it.
pub proof fn fractions_read_back(whole: nat, fraction: Seq<char>)
    requires
        only_digits(fraction),
    ensures
        crate::number::numeral(crate::text::decimal_text(whole) + "."@ + fraction) == Some(
            NumeralView::Finite {
                negative: false,
                digits: whole * crate::bignat::pow10(fraction.len())
                    + crate::number::digits_number(fraction),
                exponent: -(fraction.len() as int),
            },
        ),
{
    let w = crate::text::decimal_text(whole);
    let s = w + "."@ + fraction;
    let empty = Seq::<char>::empty();
    reveal_strlit(".");
    crate::number::decimals_read_back(whole);
    crate::number::digits_run(w);
    crate::number::digits_run(fraction);
    assert(s =~= w + ("."@ + fraction));
    crate::number::digit_run_stops(w, "."@ + fraction);
    assert(s[0] == w[0]);
    assert(crate::number::is_digit(w[0]));
    digit_words_are_no_names(s);
    assert(s[w.len() as int] == '.');
    let t = s.skip(w.len() as int + 1);
    assert(t =~= fraction);
    assert(t.take(fraction.len() as int) =~= fraction);
    assert(t.skip(fraction.len() as int) =~= empty);
    assert(s.take(w.len() as int) =~= w);
    digits_join(w, fraction);
}

/// An exponent counts for as many powers of ten, above or below.
pub proof fn exponents_read_back(whole: nat, fraction: Seq<char>, power: int)
    requires
        only_digits(fraction),
    ensures
        crate::number::numeral(scientific_text(whole, fraction, power)) == Some(
            NumeralView::Finite {
                negative: false,
                digits: whole * crate::bignat::pow10(fraction.len())
                    + crate::number::digits_number(fraction),
                exponent: power - fraction.len(),
            },
        ),
{
    let w = crate::text::decimal_text(whole);
    let p = crate::text::integer_text(power);
    let s = scientific_text(whole, fraction, power);
    reveal_strlit(".");
    reveal_strlit("e");
    reveal_strlit("-");
    crate::number::decimals_read_back(whole);
    crate::number::digits_run(w);
    let behind = "e"@ + p;
    assert(s =~= w + ("."@ + fraction + behind));
    crate::number::digit_run_stops(w, "."@ + fraction + behind);
    crate::number::digit_run_stops(fraction, behind);
    crate::number::digits_run(fraction);
    assert(s[0] == w[0]);
    assert(crate::number::is_digit(w[0]));
    digit_words_are_no_names(s);
    assert(s[w.len() as int] == '.');
    let t = s.skip(w.len() as int + 1);
    assert(t =~= fraction + behind);
    assert(t.take(fraction.len() as int) =~= fraction);
    assert(t.skip(fraction.len() as int) =~= behind);
    assert(s.take(w.len() as int) =~= w);
    digits_join(w, fraction);
    assert(behind.skip(1) =~= p);
    assert(behind[0] == 'e');
    if power < 0 {
        let d = crate::text::decimal_text((-power) as nat);
        crate::number::decimals_read_back((-power) as nat);
        crate::number::digits_run(d);
        assert(p[0] == '-');
        assert(p.skip(1) =~= d);
    } else {
        crate::number::decimals_read_back(power as nat);
        crate::number::digits_run(p);
        assert(crate::number::is_digit(p[0]));
    }
}

/// A minus sign before a number makes it negative, and a plus sign changes nothing.
pub proof fn signs_read_back(s: Seq<char>)
    requires
        s.len() > 0,
        crate::number::is_digit(s[0]),
    ensures
        crate::number::numeral(seq!['+'] + s) == crate::number::numeral(s),
        crate::number::numeral(s) matches Some(NumeralView::Finite { negative, digits, exponent })
            ==> !negative && crate::number::numeral(seq!['-'] + s) == Some(
            NumeralView::Finite { negative: true, digits, exponent },
        ),
        crate::number::numeral(s) is None ==> crate::number::numeral(seq!['-'] + s) is None,
{
    assert((seq!['+'] + s).skip(1) =~= s);
    assert((seq!['-'] + s).skip(1) =~= s);
    digit_words_are_no_names(s);
}

/// A number is too large for a type of float where it is nearer to the first power of
/// two that the type has no room for than to its largest number, or halfway. It is too
/// small where it is at most half of the least number above zero.
pub proof fn ranges_are_those_of_floats(digits: nat, exponent: int)
    ensures
        2 * Precision::Single.ceiling() == ((crate::bignat::pow2(24) - 1) as nat)
            * crate::bignat::pow2(104) + crate::bignat::pow2(128),
        2 * Precision::Double.ceiling() == ((crate::bignat::pow2(53) - 1) as nat)
            * crate::bignat::pow2(971) + crate::bignat::pow2(1024),
        exponent < 0 ==> (Precision::Single.vanishes(digits, exponent) <==> 2 * (digits
            * crate::bignat::pow2(149)) <= crate::bignat::pow10((-exponent) as nat)),
        exponent < 0 ==> (Precision::Double.vanishes(digits, exponent) <==> 2 * (digits
            * crate::bignat::pow2(1074)) <= crate::bignat::pow10((-exponent) as nat)),
        exponent >= 0 ==> (Precision::Single.vanishes(digits, exponent) <==> digits == 0),
        exponent >= 0 ==> (Precision::Double.vanishes(digits, exponent) <==> digits == 0),
{
    let a = crate::bignat::pow2(149);
    let b = crate::bignat::pow2(1074);
    assert(crate::bignat::pow2(150) == 2 * a);
    assert(crate::bignat::pow2(1075) == 2 * b);
    assert(digits * (2 * a) == 2 * (digits * a) && digits * (2 * b) == 2 * (digits * b))
        by (nonlinear_arith);
    let m = crate::bignat::pow2(24);
    let p = crate::bignat::pow2(103);
    crate::number::pow2_grows(0, 24);
    assert(crate::bignat::pow2(25) == 2 * m);
    assert(crate::bignat::pow2(104) == 2 * p);
    crate::number::pow2_sum(24, 104);
    assert(2 * ((2 * m - 1) * p) == (m - 1) * (2 * p) + m * (2 * p)) by (nonlinear_arith);
    let n = crate::bignat::pow2(53);
    let q = crate::bignat::pow2(970);
    crate::number::pow2_grows(0, 53);
    assert(crate::bignat::pow2(54) == 2 * n);
    assert(crate::bignat::pow2(971) == 2 * q);
    crate::number::pow2_sum(53, 971);
    assert(2 * ((2 * n - 1) * q) == (n - 1) * (2 * q) + n * (2 * q)) by (nonlinear_arith);
}

} // verus!
