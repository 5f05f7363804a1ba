//! Double-precision arithmetic on whole numbers.
//!
//! Every finite double is a multiple of 2 to the power -1074. Here it is the
//! number of these units, and an operation gives the double nearest to its
//! exact result, of two equally near ones the even one.

use vstd::prelude::*;

use crate::bignat::{BigNat, Relation};
use crate::color::quantise::quantise_fraction;
use crate::number::{two_to, Number, NumeralView};

verus! {

/// How many units one is.
pub open spec fn one() -> int {
    crate::bignat::pow2(1074) as int
}

/// By how many bits `top / bottom` is too long for the fifty-three bits of a
/// double.
pub open spec fn excess(top: int, bottom: int) -> nat
    decreases top - bottom,
    when bottom > 0
{
    if top < bottom * 0x20_0000_0000_0000 {
        0
    } else {
        1 + excess(top, 2 * bottom)
    }
}

/// The double nearest to `top / bottom` units, which are not below zero.
pub open spec fn nearest(top: int, bottom: int) -> int {
    let step = crate::bignat::pow2(excess(top, bottom)) as int;
    crate::color::quantise::rounded(top, bottom * step) * step
}

/// The double nearest to `top / bottom` units. The largest double is not a
/// bound here.
pub open spec fn fit(top: int, bottom: int) -> int {
    if top < 0 {
        -nearest(-top, bottom)
    } else {
        nearest(top, bottom)
    }
}

/// The double that a finite number reads as, in units.
pub open spec fn units(n: NumeralView) -> int {
    fit(n.top() * one(), n.bottom())
}

/// `n` without its sign.
pub open spec fn magnitude(n: int) -> int {
    if n < 0 {
        -n
    } else {
        n
    }
}

/// A number of units.
pub struct Double {
    pub negative: bool,
    pub size: BigNat,
}

impl View for Double {
    type V = int;

    open spec fn view(&self) -> int {
        if self.negative {
            -(self.size@ as int)
        } else {
            self.size@ as int
        }
    }
}

impl Double {
    /// The digits are digits, and zero has no sign.
    pub open spec fn wf(&self) -> bool {
        self.size.wf() && (self.negative ==> self.size@ > 0)
    }

    /// The number with this sign and size.
    pub fn signed(negative: bool, size: BigNat) -> (r: Double)
        requires
            size.wf(),
        ensures
            r.wf(),
            r@ == if negative {
                -(size@ as int)
            } else {
                size@ as int
            },
    {
        let zero = matches!(size.compare(&BigNat::of(0)), Relation::Same);
        Double { negative: negative && !zero, size }
    }

    /// `n` times one.
    pub fn whole(n: u64) -> (r: Double)
        ensures
            r.wf(),
            r@ == n * one(),
    {
        let size = two_to(1074).times_small(n);
        assert(crate::bignat::pow2(1074) * n == n * one()) by (nonlinear_arith)
            requires
                one() == crate::bignat::pow2(1074) as int,
        ;
        Double { negative: false, size }
    }

    /// The number without its sign.
    pub fn without_sign(&self) -> (r: Double)
        requires
            self.wf(),
        ensures
            r.wf(),
            r@ == magnitude(self@),
    {
        Double { negative: false, size: self.size.times_small(1) }
    }

    /// The exact sum.
    pub fn plus(&self, other: &Double) -> (r: Double)
        requires
            self.wf(),
            other.wf(),
        ensures
            r.wf(),
            r@ == self@ + other@,
    {
        if self.negative == other.negative {
            Double::signed(self.negative, self.size.plus(&other.size))
        } else if matches!(self.size.compare(&other.size), Relation::Below) {
            Double::signed(other.negative, other.size.minus(&self.size))
        } else {
            Double::signed(self.negative, self.size.minus(&other.size))
        }
    }

    /// The number with the other sign.
    pub fn negated(&self) -> (r: Double)
        requires
            self.wf(),
        ensures
            r.wf(),
            r@ == -self@,
    {
        Double::signed(!self.negative, self.size.times_small(1))
    }

    /// The exact product with `n`.
    pub fn times_small(&self, n: u64) -> (r: Double)
        requires
            self.wf(),
        ensures
            r.wf(),
            r@ == self@ * n,
    {
        let r = Double::signed(self.negative, self.size.times_small(n));
        proof {
            let a = self.size@ as int;
            assert((-a) * n == -(a * n)) by (nonlinear_arith);
        }
        r
    }

    /// The exact product.
    pub fn times(&self, other: &Double) -> (r: Double)
        requires
            self.wf(),
            other.wf(),
        ensures
            r.wf(),
            r@ == self@ * other@,
    {
        let r = Double::signed(self.negative != other.negative, self.size.times(&other.size));
        proof {
            let a = self.size@ as int;
            let b = other.size@ as int;
            assert((-a) * b == -(a * b) && a * (-b) == -(a * b) && (-a) * (-b) == a * b)
                by (nonlinear_arith);
        }
        r
    }

    /// The double nearest to this number over `bottom`.
    pub fn fitted(&self, bottom: &BigNat) -> (r: Double)
        requires
            self.wf(),
            bottom.wf(),
            bottom@ > 0,
        ensures
            r.wf(),
            r@ == fit(self@, bottom@ as int),
            !self.negative ==> !r.negative,
    {
        Double::signed(self.negative, nearest_of(&self.size, bottom))
    }

    /// The double nearest to this number.
    pub fn rounded(&self) -> (r: Double)
        requires
            self.wf(),
        ensures
            r.wf(),
            r@ == fit(self@, 1),
            !self.negative ==> !r.negative,
    {
        self.fitted(&BigNat::of(1))
    }

    /// The double nearest to the product of two numbers, both in units.
    pub fn product(&self, other: &Double) -> (r: Double)
        requires
            self.wf(),
            other.wf(),
        ensures
            r.wf(),
            r@ == fit(self@ * other@, one()),
    {
        let unit = two_to(1074);
        proof {
            crate::number::pow2_grows(0, 1074);
        }
        self.times(other).fitted(&unit)
    }

    /// The number as a colour channel.
    pub fn channel(&self) -> (r: u8)
        requires
            self.wf(),
        ensures
            r == crate::color::quantise::quantised(self@, one()),
    {
        proof {
            crate::number::pow2_grows(0, 1074);
        }
        if self.negative {
            proof {
                assert(0 * one() == 0) by (nonlinear_arith);
                crate::color::quantise::rounds_at_most(self@, one(), 0);
            }
            0
        } else {
            quantise_fraction(&self.size, &two_to(1074))
        }
    }

    /// The double that a finite number reads as.
    pub fn of_number(n: &Number) -> (r: Double)
        requires
            n.wf(),
            n is Finite,
        ensures
            r.wf(),
            r@ == units(n@),
    {
        let negative = match n {
            Number::Finite { negative, .. } => *negative,
            _ => false,
        };
        let (top, bottom) = n.fraction();
        let exact = Double::signed(negative, top.times(&two_to(1074)));
        proof {
            let t = top@ as int;
            let u = one();
            assert((-t) * u == -(t * u)) by (nonlinear_arith);
        }
        exact.fitted(&bottom)
    }
}

proof fn four_bytes()
    ensures
        crate::bignat::pow2(32) == 0x1_0000_0000,
{
    reveal_with_fuel(crate::bignat::pow2, 33);
}

/// How large a number of fifty-three bits can be.
pub proof fn mantissa_bits()
    ensures
        crate::bignat::pow2(53) == 0x20_0000_0000_0000,
        crate::bignat::pow2(52) == 0x10_0000_0000_0000,
{
    crate::number::pow2_sum(26, 26);
    assert(crate::bignat::pow2(26) == 0x400_0000) by {
        reveal_with_fuel(crate::bignat::pow2, 27);
    }
    assert(crate::bignat::pow2(53) == 2 * crate::bignat::pow2(52));
}

/// A number with at least `n` bits too many has as many less once the
/// denominator is that much larger.
proof fn excess_counts_down(top: int, bottom: int, n: nat)
    requires
        bottom > 0,
        n > 0 ==> top >= bottom * (0x10_0000_0000_0000 * crate::bignat::pow2(n)),
    ensures
        excess(top, bottom) == n + excess(top, bottom * crate::bignat::pow2(n)),
    decreases n,
{
    if n == 0 {
        assert(bottom * 1 == bottom) by (nonlinear_arith);
    } else {
        let p = crate::bignat::pow2((n - 1) as nat) as int;
        crate::number::pow2_grows(0, (n - 1) as nat);
        assert(bottom * (0x10_0000_0000_0000 * (2 * p)) == (2 * bottom) * (0x10_0000_0000_0000
            * p)) by (nonlinear_arith);
        assert(bottom * (0x10_0000_0000_0000 * (2 * p)) >= bottom * 0x20_0000_0000_0000)
            by (nonlinear_arith)
            requires
                p >= 1,
                bottom > 0,
        ;
        excess_counts_down(top, 2 * bottom, (n - 1) as nat);
        assert((2 * bottom) * p == bottom * (2 * p)) by (nonlinear_arith);
    }
}

/// `top / bottom` rounded to the nearest integer, a half to the even one, where
/// it has at most fifty-three bits.
fn divide(top: &BigNat, bottom: &BigNat) -> (r: u64)
    requires
        top.wf(),
        bottom.wf(),
        bottom@ > 0,
        top@ < bottom@ * 0x20_0000_0000_0000,
    ensures
        r == crate::color::quantise::rounded(top@ as int, bottom@ as int),
{
    let mut rest = top.times_small(1);
    let mut quotient: u64 = 0;
    let mut weight: u64 = 0x20_0000_0000_0000;
    let mut bits: u32 = 53;
    proof {
        mantissa_bits();
        assert(0 * bottom@ == 0) by (nonlinear_arith);
    }
    while bits > 0
        invariant
            top.wf(),
            bottom.wf(),
            rest.wf(),
            bits <= 53,
            weight == crate::bignat::pow2(bits as nat),
            quotient + weight <= 0x20_0000_0000_0000,
            top@ == quotient * bottom@ + rest@,
            rest@ < bottom@ * weight,
        decreases bits,
    {
        let half: u64 = weight / 2;
        assert(weight == 2 * half);
        let part = bottom.times_small(half);
        proof {
            let b = bottom@ as int;
            assert(b * (2 * half) == b * half + b * half) by (nonlinear_arith);
            assert((quotient + half) * b == quotient * b + b * half) by (nonlinear_arith);
        }
        if !matches!(rest.compare(&part), Relation::Below) {
            rest = rest.minus(&part);
            quotient = quotient + half;
        }
        weight = half;
        bits = bits - 1;
    }
    proof {
        assert(bottom@ * 1 == bottom@) by (nonlinear_arith);
        vstd::arithmetic::div_mod::lemma_fundamental_div_mod_converse(
            top@ as int,
            bottom@ as int,
            quotient as int,
            rest@ as int,
        );
    }
    let double = rest.times_small(2);
    match double.compare(bottom) {
        Relation::Below => quotient,
        Relation::Same => if quotient % 2 == 0 {
            quotient
        } else {
            quotient + 1
        },
        Relation::Above => quotient + 1,
    }
}

/// Computes [`nearest`].
fn nearest_of(top: &BigNat, bottom: &BigNat) -> (r: BigNat)
    requires
        top.wf(),
        bottom.wf(),
        bottom@ > 0,
    ensures
        r.wf(),
        r@ == nearest(top@ as int, bottom@ as int),
{
    let ghost t = top@ as int;
    let ghost b = bottom@ as int;
    let ghost mut k: nat = 0;
    let mut scaled = bottom.times_small(1);
    let mut step = BigNat::of(1);
    assert(b * 1 == b) by (nonlinear_arith);
    let mut limit = scaled.times_small(0x20_0000_0000_0000).times_small(0x8000_0000);
    while !matches!(top.compare(&limit), Relation::Below)
        invariant
            t == top@,
            b == bottom@,
            b > 0,
            top.wf(),
            scaled.wf(),
            step.wf(),
            limit.wf(),
            step@ == crate::bignat::pow2(k),
            scaled@ == b * crate::bignat::pow2(k),
            scaled@ > 0,
            limit@ == scaled@ * 0x20_0000_0000_0000 * 0x8000_0000,
            excess(t, b) == k + excess(t, scaled@ as int),
        decreases t - scaled@,
    {
        proof {
            let s = scaled@ as int;
            four_bytes();
            assert(s * (0x10_0000_0000_0000 * 0x1_0000_0000) == s * 0x20_0000_0000_0000
                * 0x8000_0000) by (nonlinear_arith);
            excess_counts_down(t, s, 32);
            crate::number::pow2_sum(k, 32);
            let p = crate::bignat::pow2(k) as int;
            assert((b * p) * 0x1_0000_0000 == b * (p * 0x1_0000_0000)) by (nonlinear_arith);
        }
        scaled = scaled.times_small(0x1_0000_0000);
        step = step.times_small(0x1_0000_0000);
        limit = scaled.times_small(0x20_0000_0000_0000).times_small(0x8000_0000);
        proof {
            k = k + 32;
        }
    }
    let mut limit = scaled.times_small(0x20_0000_0000_0000);
    while !matches!(top.compare(&limit), Relation::Below)
        invariant
            t == top@,
            b == bottom@,
            b > 0,
            top.wf(),
            scaled.wf(),
            step.wf(),
            limit.wf(),
            step@ == crate::bignat::pow2(k),
            scaled@ == b * crate::bignat::pow2(k),
            scaled@ > 0,
            limit@ == scaled@ * 0x20_0000_0000_0000,
            excess(t, b) == k + excess(t, scaled@ as int),
        decreases t - scaled@,
    {
        proof {
            let p = crate::bignat::pow2(k) as int;
            assert((b * p) * 2 == b * (2 * p)) by (nonlinear_arith);
            assert(crate::bignat::pow2(k + 1) == 2 * p);
        }
        scaled = scaled.times_small(2);
        step = step.times_small(2);
        limit = scaled.times_small(0x20_0000_0000_0000);
        proof {
            k = k + 1;
        }
    }
    let mantissa: u64 = divide(top, &scaled);
    proof {
        let p = step@ as int;
        assert(p * mantissa == mantissa * p) by (nonlinear_arith);
    }
    step.times_small(mantissa)
}

/// Rounding does not pass a double: `a` times a power of two, with at most
/// fifty-three bits in `a`.
pub proof fn doubles_bound(top: int, bottom: int, a: int, j: nat)
    requires
        bottom > 0,
        top >= 0,
        0 <= a <= 0x20_0000_0000_0000,
    ensures
        top >= a * crate::bignat::pow2(j) * bottom ==> nearest(top, bottom) >= a
            * crate::bignat::pow2(j),
        top <= a * crate::bignat::pow2(j) * bottom ==> nearest(top, bottom) <= a
            * crate::bignat::pow2(j),
{
    let k = excess(top, bottom);
    let p = crate::bignat::pow2(k) as int;
    let w = crate::bignat::pow2(j) as int;
    let m = a * w;
    let d = bottom * p;
    crate::number::pow2_grows(0, k);
    crate::number::pow2_grows(0, j);
    assert(d > 0) by (nonlinear_arith)
        requires
            d == bottom * p,
            bottom > 0,
            p >= 1,
    ;
    let q = crate::color::quantise::rounded(top, d);
    if k <= j {
        // The double is a multiple of the step.
        let x = crate::bignat::pow2((j - k) as nat) as int;
        crate::number::pow2_sum((j - k) as nat, k);
        let c = a * x;
        assert(m == c * p) by (nonlinear_arith)
            requires
                m == a * w,
                w == x * p,
                c == a * x,
        ;
        assert(m * bottom == c * d) by (nonlinear_arith)
            requires
                m == c * p,
                d == bottom * p,
        ;
        if top >= m * bottom {
            crate::color::quantise::rounds_at_least(top, d, c);
            assert(q * p >= c * p) by (nonlinear_arith)
                requires
                    q >= c,
                    p >= 1,
            ;
        }
        if top <= m * bottom {
            crate::color::quantise::rounds_at_most(top, d, c);
            assert(q * p <= c * p) by (nonlinear_arith)
                requires
                    q <= c,
                    p >= 1,
            ;
        }
    } else {
        // The number is at least as large as the double.
        large_excess(top, bottom);
        let h = crate::bignat::pow2((k - 1) as nat) as int;
        crate::number::pow2_grows(j, (k - 1) as nat);
        assert(p == 2 * h);
        let full = 0x10_0000_0000_0000int;
        assert(m <= full * p) by (nonlinear_arith)
            requires
                m == a * w,
                0 <= a <= 2 * full,
                w <= h,
                w >= 0,
                p == 2 * h,
                full == 0x10_0000_0000_0000int,
        ;
        assert(top >= full * d) by (nonlinear_arith)
            requires
                top >= bottom * (full * p),
                d == bottom * p,
        ;
        crate::color::quantise::rounds_at_least(top, d, full);
        assert(q * p >= full * p) by (nonlinear_arith)
            requires
                q >= full,
                p >= 1,
        ;
        if top <= m * bottom {
            assert(m * bottom <= full * d) by (nonlinear_arith)
                requires
                    m <= full * p,
                    d == bottom * p,
                    bottom > 0,
            ;
            crate::color::quantise::rounds_at_most(top, d, full);
            assert(q == full);
            assert(m >= full * p) by (nonlinear_arith)
                requires
                    m * bottom >= full * d,
                    d == bottom * p,
                    bottom > 0,
            ;
        }
    }
}

/// A number with bits too many is that large.
proof fn large_excess(top: int, bottom: int)
    requires
        bottom > 0,
        excess(top, bottom) > 0,
    ensures
        top >= bottom * (0x10_0000_0000_0000 * crate::bignat::pow2(excess(top, bottom))),
    decreases top - bottom,
{
    let k = excess(top, bottom);
    let p = crate::bignat::pow2((k - 1) as nat) as int;
    assert(bottom * (0x10_0000_0000_0000 * (2 * p)) == (2 * bottom) * (0x10_0000_0000_0000 * p))
        by (nonlinear_arith);
    if k > 1 {
        large_excess(top, 2 * bottom);
    } else {
        assert(p == 1);
    }
}

/// A double stays as it is: `a` times a power of two, with at most fifty-three
/// bits in `a`.
pub proof fn doubles_fit(a: int, j: nat, bottom: int)
    requires
        bottom > 0,
        -0x20_0000_0000_0000 <= a <= 0x20_0000_0000_0000,
    ensures
        fit(a * crate::bignat::pow2(j) * bottom, bottom) == a * crate::bignat::pow2(j),
{
    let w = crate::bignat::pow2(j) as int;
    let t = a * w * bottom;
    crate::number::pow2_grows(0, j);
    if t < 0 {
        assert(a < 0) by (nonlinear_arith)
            requires
                a * w * bottom < 0,
                w >= 1,
                bottom > 0,
        ;
        assert(-t == (-a) * w * bottom && (-a) * w == -(a * w)) by (nonlinear_arith)
            requires
                t == a * w * bottom,
        ;
        doubles_bound(-t, bottom, -a, j);
    } else {
        assert(a >= 0) by (nonlinear_arith)
            requires
                a * w * bottom >= 0,
                w >= 1,
                bottom > 0,
        ;
        doubles_bound(t, bottom, a, j);
    }
}

/// The sign of a number is that of the double nearest to it.
pub proof fn fit_keeps_the_sign(top: int, bottom: int)
    requires
        bottom > 0,
    ensures
        top >= 0 ==> fit(top, bottom) >= 0,
        top <= 0 ==> fit(top, bottom) <= 0,
{
    assert(0 * crate::bignat::pow2(0) * bottom == 0 && 0 * crate::bignat::pow2(0) == 0)
        by (nonlinear_arith);
    if top < 0 {
        doubles_bound(-top, bottom, 0, 0);
    } else {
        doubles_bound(top, bottom, 0, 0);
    }
}

/// The nearest double is a number of at most fifty-three bits, over a power of
/// two.
pub proof fn mantissas_are_short(top: int, bottom: int)
    requires
        bottom > 0,
        top >= 0,
    ensures
        0 <= crate::color::quantise::rounded(
            top,
            bottom * crate::bignat::pow2(excess(top, bottom)),
        ) <= 0x20_0000_0000_0000,
{
    let p = crate::bignat::pow2(excess(top, bottom)) as int;
    let d = bottom * p;
    crate::number::pow2_grows(0, excess(top, bottom));
    assert(d > 0) by (nonlinear_arith)
        requires
            d == bottom * p,
            bottom > 0,
            p >= 1,
    ;
    excess_suffices(top, bottom);
    crate::color::quantise::rounds_at_most(top, d, 0x20_0000_0000_0000);
    assert(0 * d == 0) by (nonlinear_arith);
    crate::color::quantise::rounds_at_least(top, d, 0);
}

/// What is too long by so many bits is not too long over that many bits.
proof fn excess_suffices(top: int, bottom: int)
    requires
        bottom > 0,
    ensures
        top <= 0x20_0000_0000_0000 * (bottom * crate::bignat::pow2(excess(top, bottom))),
    decreases top - bottom,
{
    let k = excess(top, bottom);
    if k == 0 {
        assert(bottom * 1 == bottom) by (nonlinear_arith);
    } else {
        excess_suffices(top, 2 * bottom);
        let p = crate::bignat::pow2((k - 1) as nat) as int;
        assert((2 * bottom) * p == bottom * (2 * p)) by (nonlinear_arith);
    }
}

} // verus!
