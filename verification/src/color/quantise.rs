//! Numbers as colour channels, shares of one and hues.

use vstd::prelude::*;

use crate::bignat::{BigNat, Relation};
use crate::color::double::Double;
use crate::number::{two_to, Number, NumeralView};

verus! {

/// `top / bottom` rounded to the nearest integer, a half to the even one.
pub open spec fn rounded(top: int, bottom: int) -> int {
    let below = top / bottom;
    let rest = 2 * (top % bottom);
    if rest < bottom || (rest == bottom && below % 2 == 0) {
        below
    } else {
        below + 1
    }
}

/// `n` brought into the range of a byte.
pub open spec fn clamped(n: int) -> u8 {
    if n <= 0 {
        0
    } else if n >= 255 {
        255
    } else {
        n as u8
    }
}

/// `top / bottom` as a colour channel: rounded, then clamped.
pub open spec fn quantised(top: int, bottom: int) -> u8 {
    clamped(rounded(top, bottom))
}

/// The channel that `n` over `b`, times `a`, gives.
pub open spec fn channel(n: NumeralView, a: int, b: int) -> u8 {
    match n {
        NumeralView::NotANumber => 0,
        NumeralView::Infinite { negative } => if negative {
            0
        } else {
            255
        },
        NumeralView::Finite { .. } => {
            let part = crate::color::double::fit(crate::color::double::units(n), b);
            quantised(crate::color::double::fit(part * a, 1), crate::color::double::one())
        },
    }
}

/// A number between two halves rounds to the integer between them.
proof fn rounds_between(top: int, bottom: int, q: int)
    requires
        bottom > 0,
        (2 * q - 1) * bottom < 2 * top < (2 * q + 1) * bottom,
    ensures
        rounded(top, bottom) == q,
{
    assert((2 * q - 1) * bottom == 2 * (q * bottom) - bottom) by (nonlinear_arith);
    assert((2 * q + 1) * bottom == 2 * (q * bottom) + bottom) by (nonlinear_arith);
    assert((q - 1) * bottom == q * bottom - bottom) by (nonlinear_arith);
    if top >= q * bottom {
        vstd::arithmetic::div_mod::lemma_fundamental_div_mod_converse(
            top,
            bottom,
            q,
            top - q * bottom,
        );
    } else {
        vstd::arithmetic::div_mod::lemma_fundamental_div_mod_converse(
            top,
            bottom,
            q - 1,
            top - (q - 1) * bottom,
        );
    }
}

/// A half rounds to the even neighbour.
proof fn rounds_half(top: int, bottom: int, q: int)
    requires
        bottom > 0,
        2 * top == (2 * q + 1) * bottom,
    ensures
        rounded(top, bottom) == if q % 2 == 0 {
            q
        } else {
            q + 1
        },
{
    assert((2 * q + 1) * bottom == 2 * (q * bottom) + bottom) by (nonlinear_arith);
    vstd::arithmetic::div_mod::lemma_fundamental_div_mod_converse(
        top,
        bottom,
        q,
        top - q * bottom,
    );
}

/// A larger number rounds no lower.
proof fn rounds_up_from(top: int, bottom: int, q: int)
    requires
        bottom > 0,
        2 * top > (2 * q - 1) * bottom,
    ensures
        rounded(top, bottom) >= q,
{
    assert((2 * q - 1) * bottom == 2 * (q * bottom) - bottom) by (nonlinear_arith);
    let below = top / bottom;
    let rest = top % bottom;
    vstd::arithmetic::div_mod::lemma_fundamental_div_mod(top, bottom);
    assert(bottom * below == below * bottom) by (nonlinear_arith);
    if below + 1 < q {
        assert((below + 2) * bottom <= q * bottom) by (nonlinear_arith)
            requires
                below + 2 <= q,
                bottom > 0,
        ;
        assert((below + 2) * bottom == below * bottom + 2 * bottom) by (nonlinear_arith);
    } else if below + 1 == q {
        assert(q * bottom == below * bottom + bottom) by (nonlinear_arith)
            requires
                q == below + 1,
        ;
    }
}

/// What is not above an integer rounds to at most that integer.
pub proof fn rounds_at_most(top: int, bottom: int, k: int)
    requires
        bottom > 0,
        top <= k * bottom,
    ensures
        rounded(top, bottom) <= k,
{
    let below = top / bottom;
    vstd::arithmetic::div_mod::lemma_fundamental_div_mod(top, bottom);
    assert(bottom * below == below * bottom) by (nonlinear_arith);
    if below > k {
        assert(below * bottom >= k * bottom + bottom) by (nonlinear_arith)
            requires
                below >= k + 1,
                bottom > 0,
        ;
    }
    if below == k {
        assert(below * bottom == k * bottom) by (nonlinear_arith)
            requires
                below == k,
        ;
    }
}

/// What is not below an integer rounds to at least that integer.
pub proof fn rounds_at_least(top: int, bottom: int, k: int)
    requires
        bottom > 0,
        top >= k * bottom,
    ensures
        rounded(top, bottom) >= k,
{
    assert((2 * k - 1) * bottom == 2 * (k * bottom) - bottom) by (nonlinear_arith);
    rounds_up_from(top, bottom, k);
}

/// `top / bottom` as a colour channel.
pub fn quantise_fraction(top: &BigNat, bottom: &BigNat) -> (r: u8)
    requires
        top.wf(),
        bottom.wf(),
        bottom@ > 0,
    ensures
        r == quantised(top@ as int, bottom@ as int),
{
    let double = top.times_small(2);
    let mut q: u64 = 0;
    assert((2 * 0 - 1) * bottom@ < 0) by (nonlinear_arith)
        requires
            bottom@ > 0,
    ;
    while q < 255
        invariant
            q <= 255,
            bottom.wf(),
            double.wf(),
            bottom@ > 0,
            double@ == top@ * 2,
            double@ > (2 * q - 1) * bottom@,
        decreases 255 - q,
    {
        let bound = bottom.times_small(2 * q + 1);
        assert(bottom@ * (2 * q + 1) == (2 * q + 1) * bottom@) by (nonlinear_arith);
        match double.compare(&bound) {
            Relation::Below => {
                proof {
                    rounds_between(top@ as int, bottom@ as int, q as int);
                }
                return q as u8;
            },
            Relation::Same => {
                proof {
                    rounds_half(top@ as int, bottom@ as int, q as int);
                }
                return if q % 2 == 0 {
                    q as u8
                } else {
                    (q + 1) as u8
                };
            },
            Relation::Above => {},
        }
        q += 1;
    }
    proof {
        rounds_up_from(top@ as int, bottom@ as int, 255);
    }
    255
}

/// Computes [`channel`].
pub fn quantise(n: &Number, a: u64, b: u64) -> (r: u8)
    requires
        n.wf(),
        b > 0,
    ensures
        r == channel(n@, a as int, b as int),
{
    match n {
        Number::NotANumber => 0,
        Number::Infinite { negative } => if *negative {
            0
        } else {
            255
        },
        Number::Finite { .. } => Double::of_number(n).fitted(&BigNat::of(b)).times_small(
            a,
        ).rounded().channel(),
    }
}

/// The share of one that the percentage `n` is, clamped to `[0, 1]`; `None`
/// where it is not a number.
pub open spec fn share(n: NumeralView) -> Option<int> {
    match n {
        NumeralView::NotANumber => None,
        NumeralView::Infinite { negative } => Some(
            if negative {
                0
            } else {
                crate::color::double::one()
            },
        ),
        NumeralView::Finite { .. } => {
            let part = crate::color::double::fit(crate::color::double::units(n), 100);
            Some(
                if part <= 0 {
                    0
                } else if part >= crate::color::double::one() {
                    crate::color::double::one()
                } else {
                    part
                },
            )
        },
    }
}

/// An angle in degrees, brought into `[0, 360)`.
pub open spec fn around(degrees: int) -> int {
    let circle = 360 * crate::color::double::one();
    if degrees >= 0 {
        degrees % circle
    } else {
        let turned = crate::color::double::fit(circle - (-degrees) % circle, 1);
        if turned < circle {
            turned
        } else {
            0
        }
    }
}

/// The hue in degrees that `n` units of `a / b` degrees are, brought into
/// `[0, 360)`; `None` where that has no value.
pub open spec fn hue(n: NumeralView, a: int, b: int) -> Option<int> {
    match n {
        NumeralView::Finite { .. } => {
            let degrees = crate::color::double::fit(crate::color::double::units(n) * a, b);
            if crate::color::double::magnitude(degrees) < crate::bignat::pow2(2098) {
                Some(around(degrees))
            } else {
                None
            }
        },
        _ => None,
    }
}

/// Computes [`share`].
pub fn share_of(n: &Number) -> (r: Option<Double>)
    requires
        n.wf(),
    ensures
        crate::outcome::seen(r) == share(n@),
        r matches Some(x) ==> x.wf() && 0 <= x@ <= crate::color::double::one(),
{
    let one = Double::whole(1);
    assert(1 * crate::color::double::one() == crate::color::double::one()) by (nonlinear_arith);
    assert(0 * crate::color::double::one() == 0) by (nonlinear_arith);
    match n {
        Number::NotANumber => None,
        Number::Infinite { negative } => Some(
            if *negative {
                Double::whole(0)
            } else {
                one
            },
        ),
        Number::Finite { .. } => {
            let part = Double::of_number(n).fitted(&BigNat::of(100));
            if part.negative {
                Some(Double::whole(0))
            } else if matches!(part.size.compare(&one.size), Relation::Below) {
                Some(part)
            } else {
                Some(one)
            }
        },
    }
}

/// Computes [`around`].
fn turn_around(degrees: &Double) -> (r: Double)
    requires
        degrees.wf(),
    ensures
        r.wf(),
        r@ == around(degrees@),
        0 <= r@ < 360 * crate::color::double::one(),
{
    let circle = Double::whole(360);
    proof {
        crate::number::pow2_grows(0, 1074);
        vstd::arithmetic::div_mod::lemma_mod_bound(degrees.size@ as int, circle@);
    }
    let rest = degrees.size.remainder(&circle.size);
    if !degrees.negative {
        return Double::signed(false, rest);
    }
    let turned = Double::signed(false, circle.size.minus(&rest)).rounded();
    if matches!(turned.size.compare(&circle.size), Relation::Below) {
        turned
    } else {
        assert(0 * crate::color::double::one() == 0) by (nonlinear_arith);
        Double::whole(0)
    }
}

/// Computes [`hue`].
pub fn hue_of(n: &Number, a: u64, b: u64) -> (r: Option<Double>)
    requires
        n.wf(),
        b > 0,
    ensures
        crate::outcome::seen(r) == hue(n@, a as int, b as int),
        r matches Some(x) ==> x.wf() && 0 <= x@ < 360 * crate::color::double::one(),
{
    match n {
        Number::Finite { .. } => {
            let degrees = Double::of_number(n).times_small(a).fitted(&BigNat::of(b));
            if matches!(degrees.size.compare(&two_to(2098)), Relation::Below) {
                Some(turn_around(&degrees))
            } else {
                None
            }
        },
        _ => None,
    }
}

/// Euclid's remainder of a negative number.
pub proof fn negative_remainder(a: int, m: int)
    requires
        a >= 0,
        m > 0,
    ensures
        (-a) % m == if a % m == 0 {
            0
        } else {
            m - a % m
        },
{
    let q = a / m;
    let r = a % m;
    vstd::arithmetic::div_mod::lemma_fundamental_div_mod(a, m);
    assert(m * q == q * m) by (nonlinear_arith);
    if r == 0 {
        assert((-q) * m == -(q * m)) by (nonlinear_arith);
        vstd::arithmetic::div_mod::lemma_fundamental_div_mod_converse(-a, m, -q, 0);
    } else {
        assert((-q - 1) * m == -(q * m) - m) by (nonlinear_arith);
        vstd::arithmetic::div_mod::lemma_fundamental_div_mod_converse(-a, m, -q - 1, m - r);
    }
}

} // verus!
