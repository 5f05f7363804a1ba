//! Numeric literals, read as exact decimals within the range of a float.
//!
//! A literal is an optional sign and then `inf`, `infinity`, `nan` in any case,
//! or digits with an optional point and exponent. It denotes its decimal value
//! exactly; only the range is that of the float type it is read for. What is
//! too large for the type reads as infinite, what is too small reads as zero.

use vstd::prelude::*;

use crate::bignat::{BigNat, Relation};
use crate::text::{lower, part, spells, string_of};

pub mod writing;

verus! {

/// A decimal digit.
pub open spec fn is_digit(c: char) -> bool {
    '0' <= c <= '9'
}

/// Whether `c` is a decimal digit.
pub fn digit(c: char) -> (r: bool)
    ensures
        r == is_digit(c),
{
    '0' <= c && c <= '9'
}

/// How many digits `s` begins with.
pub open spec fn digit_run(s: Seq<char>) -> nat
    decreases s.len(),
{
    if s.len() > 0 && is_digit(s[0]) {
        1 + digit_run(s.skip(1))
    } else {
        0
    }
}

/// The number that the digits `s` write.
pub open spec fn digits_number(s: Seq<char>) -> nat
    decreases s.len(),
{
    if s.len() == 0 {
        0
    } else {
        10 * digits_number(s.drop_last()) + (s.last() as nat - 48) as nat
    }
}

/// What a literal writes, before the range of a float type is applied.
pub enum NumeralView {
    NotANumber,
    Infinite { negative: bool },
    /// `digits` times ten to the power `exponent`.
    Finite { negative: bool, digits: nat, exponent: int },
}

/// `s` begins with a sign.
pub open spec fn signed(s: Seq<char>) -> bool {
    s.len() > 0 && (s[0] == '+' || s[0] == '-')
}

/// `s` without a leading sign.
pub open spec fn unsigned(s: Seq<char>) -> Seq<char> {
    if signed(s) {
        s.skip(1)
    } else {
        s
    }
}

/// `s` begins with a minus sign.
pub open spec fn minus(s: Seq<char>) -> bool {
    signed(s) && s[0] == '-'
}

/// The exponent that `s` writes: none at all is 0.
pub open spec fn exponent_part(s: Seq<char>) -> Option<int> {
    if s.len() == 0 {
        Some(0)
    } else if s[0] != 'e' && s[0] != 'E' {
        None
    } else {
        let power = s.skip(1);
        let d = unsigned(power);
        if d.len() == 0 || digit_run(d) != d.len() {
            None
        } else if minus(power) {
            Some(-(digits_number(d) as int))
        } else {
            Some(digits_number(d) as int)
        }
    }
}

/// The digits of `s` behind its first `whole` characters and a point, and what
/// follows them.
pub open spec fn fraction_part(s: Seq<char>, whole: nat) -> (Seq<char>, Seq<char>) {
    if whole < s.len() && s[whole as int] == '.' {
        let t = s.skip(whole as int + 1);
        (t.take(digit_run(t) as int), t.skip(digit_run(t) as int))
    } else {
        (Seq::empty(), s.skip(whole as int))
    }
}

/// The digits and the exponent of an unsigned decimal.
pub open spec fn decimal_parts(s: Seq<char>) -> Option<(nat, int)> {
    let whole = digit_run(s);
    let (fraction, rest) = fraction_part(s, whole);
    if whole + fraction.len() == 0 {
        None
    } else {
        match exponent_part(rest) {
            Some(x) => Some((digits_number(s.take(whole as int) + fraction), x - fraction.len())),
            None => None,
        }
    }
}

/// What the literal `s` writes; `None` where `s` is no literal.
pub open spec fn numeral(s: Seq<char>) -> Option<NumeralView> {
    let negative = minus(s);
    let body = unsigned(s);
    let word = crate::text::lowered(body);
    if word == "inf"@ || word == "infinity"@ {
        Some(NumeralView::Infinite { negative })
    } else if word == "nan"@ {
        Some(NumeralView::NotANumber)
    } else {
        match decimal_parts(body) {
            Some((digits, exponent)) => Some(NumeralView::Finite { negative, digits, exponent }),
            None => None,
        }
    }
}

/// The float type whose range a literal is read in.
#[derive(Clone, Copy, Debug, PartialEq, Eq, Structural)]
pub enum Precision {
    Single,
    Double,
}

impl Precision {
    /// Magnitudes up to two to the power minus this round to zero.
    pub open spec fn floor_bits(self) -> nat {
        match self {
            Precision::Single => 150,
            Precision::Double => 1075,
        }
    }

    /// Magnitudes from this on round to infinity.
    pub open spec fn ceiling(self) -> nat {
        match self {
            Precision::Single => ((crate::bignat::pow2(25) - 1) as nat) * crate::bignat::pow2(103),
            Precision::Double => ((crate::bignat::pow2(54) - 1) as nat) * crate::bignat::pow2(970),
        }
    }

    /// `digits` times ten to the power `exponent` rounds to zero.
    pub open spec fn vanishes(self, digits: nat, exponent: int) -> bool {
        if exponent >= 0 {
            digits == 0
        } else {
            digits * crate::bignat::pow2(self.floor_bits()) <= crate::bignat::pow10(
                (-exponent) as nat,
            )
        }
    }

    /// `digits` times ten to the power `exponent` rounds to infinity.
    pub open spec fn overflows(self, digits: nat, exponent: int) -> bool {
        if exponent >= 0 {
            digits * crate::bignat::pow10(exponent as nat) >= self.ceiling()
        } else {
            digits >= self.ceiling() * crate::bignat::pow10((-exponent) as nat)
        }
    }

    /// What a literal reads as in this type.
    pub open spec fn settled(self, n: NumeralView) -> NumeralView {
        match n {
            NumeralView::Finite { negative, digits, exponent } => if self.vanishes(
                digits,
                exponent,
            ) {
                NumeralView::Finite { negative, digits: 0, exponent: 0 }
            } else if self.overflows(digits, exponent) {
                NumeralView::Infinite { negative }
            } else {
                n
            },
            _ => n,
        }
    }

    /// What `s` reads as in this type; `None` where `s` is no literal.
    pub open spec fn reading(self, s: Seq<char>) -> Option<NumeralView> {
        match numeral(s) {
            Some(n) => Some(self.settled(n)),
            None => None,
        }
    }
}

/// A literal's value.
pub enum Number {
    NotANumber,
    Infinite { negative: bool },
    Finite { negative: bool, digits: BigNat, exponent: i128 },
}

impl View for Number {
    type V = NumeralView;

    open spec fn view(&self) -> NumeralView {
        match self {
            Number::NotANumber => NumeralView::NotANumber,
            Number::Infinite { negative } => NumeralView::Infinite { negative: *negative },
            Number::Finite { negative, digits, exponent } => NumeralView::Finite {
                negative: *negative,
                digits: digits@,
                exponent: *exponent as int,
            },
        }
    }
}

impl NumeralView {
    /// The value is zero.
    pub open spec fn is_zero(self) -> bool {
        match self {
            NumeralView::Finite { negative, digits, exponent } => digits == 0,
            _ => false,
        }
    }

    /// The value is below zero.
    pub open spec fn is_below_zero(self) -> bool {
        match self {
            NumeralView::NotANumber => false,
            NumeralView::Infinite { negative } => negative,
            NumeralView::Finite { negative, digits, exponent } => negative && digits > 0,
        }
    }

    /// The numerator of the value as a fraction.
    pub open spec fn top(self) -> int {
        match self {
            NumeralView::Finite { negative, digits, exponent } => {
                let magnitude = if exponent >= 0 {
                    digits * crate::bignat::pow10(exponent as nat)
                } else {
                    digits
                };
                if negative {
                    -(magnitude as int)
                } else {
                    magnitude as int
                }
            },
            _ => 0,
        }
    }

    /// The denominator of the value as a fraction.
    pub open spec fn bottom(self) -> int {
        match self {
            NumeralView::Finite { negative, digits, exponent } => if exponent >= 0 {
                1
            } else {
                crate::bignat::pow10((-exponent) as nat) as int
            },
            _ => 1,
        }
    }

    /// The value is above zero.
    pub open spec fn is_above_zero(self) -> bool {
        match self {
            NumeralView::NotANumber => false,
            NumeralView::Infinite { negative } => !negative,
            NumeralView::Finite { negative, digits, exponent } => !negative && digits > 0,
        }
    }
}

impl Number {
    /// The digits are digits, and the exponent is one that a reading gives.
    pub open spec fn wf(&self) -> bool {
        match self {
            Number::Finite { negative, digits, exponent } => digits.wf() && -EXPONENT_CAP
                <= *exponent <= EXPONENT_CAP,
            _ => true,
        }
    }

    /// Whether the value is zero.
    pub fn is_zero(&self) -> (r: bool)
        requires
            self.wf(),
        ensures
            r == self@.is_zero(),
    {
        match self {
            Number::Finite { negative, digits, exponent } => matches!(
                digits.compare(&BigNat::of(0)),
                Relation::Same
            ),
            _ => false,
        }
    }

    /// Whether the value is below zero.
    pub fn is_below_zero(&self) -> (r: bool)
        requires
            self.wf(),
        ensures
            r == self@.is_below_zero(),
    {
        match self {
            Number::NotANumber => false,
            Number::Infinite { negative } => *negative,
            Number::Finite { negative, digits, exponent } => *negative && matches!(
                digits.compare(&BigNat::of(0)),
                Relation::Above
            ),
        }
    }

    /// Whether the value is above zero.
    pub fn is_above_zero(&self) -> (r: bool)
        requires
            self.wf(),
        ensures
            r == self@.is_above_zero(),
    {
        match self {
            Number::NotANumber => false,
            Number::Infinite { negative } => !*negative,
            Number::Finite { negative, digits, exponent } => !*negative && matches!(
                digits.compare(&BigNat::of(0)),
                Relation::Above
            ),
        }
    }
}

impl Number {
    /// The magnitude of a finite value as a fraction: numerator, then
    /// denominator.
    pub fn fraction(&self) -> (r: (BigNat, BigNat))
        requires
            self.wf(),
            self is Finite,
        ensures
            r.0.wf(),
            r.1.wf(),
            r.1@ > 0,
            self@.top() == if self->Finite_negative {
                -(r.0@ as int)
            } else {
                r.0@ as int
            },
            self@.bottom() == r.1@,
    {
        match self {
            Number::Finite { negative, digits, exponent } => {
                let one = BigNat::of(1);
                let e: i128 = *exponent;
                if e >= 0 {
                    (digits.shifted(e as u128), one)
                } else {
                    proof {
                        let t = crate::bignat::pow10((-e) as nat);
                        crate::bignat::pow10_positive((-e) as nat);
                        assert(1 * t == t) by (nonlinear_arith);
                        assert(digits@ * crate::bignat::pow10(0) == digits@) by (nonlinear_arith)
                            requires
                                crate::bignat::pow10(0) == 1,
                        ;
                    }
                    (digits.shifted(0), one.shifted((-e) as u128))
                }
            },
            _ => (BigNat::of(0), BigNat::of(1)),
        }
    }
}

/// No exponent of a value within the range of a float reaches this.
pub const EXPONENT_CAP: i128 = 10_000_000_000_000_000_000_000_000;

/// Exponents are counted up to this; larger ones are only known to be larger.
pub const COUNTED: u128 = 1_000_000_000_000_000_000_000_000;

/// How many digits `v` has from `from` on.
pub fn count_digits(v: &[char], from: usize) -> (r: usize)
    requires
        from <= v@.len(),
    ensures
        r == digit_run(v@.skip(from as int)),
        from + r <= v@.len(),
        forall|k: int| from <= k < from + r ==> is_digit(#[trigger] v@[k]),
{
    let mut i: usize = from;
    while i < v.len() && digit(v[i])
        invariant
            from <= i <= v@.len(),
            digit_run(v@.skip(from as int)) == (i - from) + digit_run(v@.skip(i as int)),
            forall|k: int| from <= k < i ==> is_digit(#[trigger] v@[k]),
        decreases v@.len() - i,
    {
        assert(v@.skip(i as int).skip(1) =~= v@.skip(i + 1));
        i += 1;
    }
    i - from
}

/// The number that the digits `v` write.
pub fn number_of_digits(v: &[char]) -> (r: BigNat)
    requires
        forall|k: int| 0 <= k < v@.len() ==> is_digit(#[trigger] v@[k]),
    ensures
        r.wf(),
        r@ == digits_number(v@),
{
    let mut r = BigNat::of(0);
    let mut i: usize = 0;
    assert(v@.take(0) =~= Seq::<char>::empty());
    while i < v.len()
        invariant
            i <= v@.len(),
            r.wf(),
            r@ == digits_number(v@.take(i as int)),
            forall|k: int| 0 <= k < v@.len() ==> is_digit(#[trigger] v@[k]),
        decreases v@.len() - i,
    {
        assert(v@.take(i + 1).drop_last() =~= v@.take(i as int));
        assert(is_digit(v@[i as int]));
        let d: u32 = v[i] as u32 - 48;
        r = r.times_small(10).plus(&BigNat::of(d as u64));
        i += 1;
    }
    assert(v@.take(v@.len() as int) =~= v@);
    r
}

/// The number that the digits `v` write, counted up to [`COUNTED`].
fn count_of_digits(v: &[char]) -> (r: u128)
    requires
        forall|k: int| 0 <= k < v@.len() ==> is_digit(#[trigger] v@[k]),
    ensures
        r < COUNTED ==> r == digits_number(v@),
        r >= COUNTED ==> digits_number(v@) >= COUNTED,
        r < 10 * COUNTED,
{
    let mut r: u128 = 0;
    let mut i: usize = 0;
    assert(v@.take(0) =~= Seq::<char>::empty());
    while i < v.len()
        invariant
            i <= v@.len(),
            r < COUNTED ==> r == digits_number(v@.take(i as int)),
            r >= COUNTED ==> digits_number(v@.take(i as int)) >= COUNTED,
            r < 10 * COUNTED,
            forall|k: int| 0 <= k < v@.len() ==> is_digit(#[trigger] v@[k]),
        decreases v@.len() - i,
    {
        assert(v@.take(i + 1).drop_last() =~= v@.take(i as int));
        assert(is_digit(v@[i as int]));
        let d: u32 = v[i] as u32 - 48;
        if r < COUNTED {
            r = 10 * r + d as u128;
        }
        i += 1;
    }
    assert(v@.take(v@.len() as int) =~= v@);
    r
}

/// Two to the power `n`.
pub fn two_to(n: u32) -> (r: BigNat)
    ensures
        r.wf(),
        r@ == crate::bignat::pow2(n as nat),
{
    let mut r = BigNat::of(1);
    let mut i: u32 = 0;
    while i < n
        invariant
            i <= n,
            r.wf(),
            r@ == crate::bignat::pow2(i as nat),
        decreases n - i,
    {
        if n - i >= 30 {
            proof {
                pow2_sum(30, i as nat);
                pow2_thirty();
                let p = crate::bignat::pow2(i as nat);
                assert(0x4000_0000 * p == p * 0x4000_0000) by (nonlinear_arith);
            }
            r = r.times_small(0x4000_0000);
            i += 30;
        } else {
            r = r.times_small(2);
            i += 1;
        }
    }
    r
}

proof fn pow2_thirty()
    ensures
        crate::bignat::pow2(30) == 0x4000_0000,
{
    reveal_with_fuel(crate::bignat::pow2, 31);
}

pub proof fn pow2_sum(a: nat, b: nat)
    ensures
        crate::bignat::pow2(a + b) == crate::bignat::pow2(a) * crate::bignat::pow2(b),
    decreases a,
{
    let q = crate::bignat::pow2(b);
    if a == 0 {
        assert(1 * q == q) by (nonlinear_arith);
    } else {
        pow2_sum((a - 1) as nat, b);
        assert((a - 1) as nat + b == (a + b - 1) as nat);
        let p = crate::bignat::pow2((a - 1) as nat);
        assert(2 * (p * q) == (2 * p) * q) by (nonlinear_arith);
    }
}

/// Eight is less than ten.
proof fn pow2_below_pow10(n: nat)
    ensures
        crate::bignat::pow2(3 * n) <= crate::bignat::pow10(n),
    decreases n,
{
    if n > 0 {
        pow2_below_pow10((n - 1) as nat);
        let m = (3 * n - 3) as nat;
        assert(crate::bignat::pow2((m + 1) as nat) == 2 * crate::bignat::pow2(m));
        assert(crate::bignat::pow2((m + 2) as nat) == 2 * crate::bignat::pow2((m + 1) as nat));
        assert(crate::bignat::pow2((m + 3) as nat) == 2 * crate::bignat::pow2((m + 2) as nat));
        assert(3 * ((n - 1) as nat) == m);
    }
}

pub proof fn pow2_grows(a: nat, b: nat)
    requires
        a <= b,
    ensures
        0 < crate::bignat::pow2(a) <= crate::bignat::pow2(b),
    decreases b,
{
    if a < b {
        pow2_grows(a, (b - 1) as nat);
    } else if a > 0 {
        pow2_grows((a - 1) as nat, (a - 1) as nat);
    }
}

/// The bounds of both float types lie within four hundred decimal places.
proof fn bounds_are_near(p: Precision)
    ensures
        0 < crate::bignat::pow2(p.floor_bits()) <= crate::bignat::pow10(400),
        p.ceiling() <= crate::bignat::pow10(400),
{
    pow2_below_pow10(400);
    pow2_grows(p.floor_bits(), 1200);
    let (a, b) = match p {
        Precision::Single => (25nat, 103nat),
        Precision::Double => (54nat, 970nat),
    };
    pow2_sum(a, b);
    pow2_grows(a + b, 1200);
    pow2_grows(a, a);
    let x = crate::bignat::pow2(a);
    let y = crate::bignat::pow2(b);
    assert(((x - 1) as nat) * y <= x * y) by (nonlinear_arith)
        requires
            x >= 1,
            y >= 0,
    ;
}

/// A large exponent of a number that is not zero makes it infinite.
proof fn large_exponents_overflow(p: Precision, digits: nat, exponent: int)
    requires
        digits > 0,
        exponent > 400,
    ensures
        !p.vanishes(digits, exponent),
        p.overflows(digits, exponent),
{
    bounds_are_near(p);
    crate::bignat::pow10_grows(400, exponent as nat);
    let t = crate::bignat::pow10(exponent as nat);
    assert(digits * t >= t) by (nonlinear_arith)
        requires
            digits >= 1,
            t >= 0,
    ;
}

/// A small exponent makes a number zero.
proof fn small_exponents_vanish(p: Precision, digits: nat, len: nat, exponent: int)
    requires
        digits < crate::bignat::pow10(len),
        exponent < -(len + 400),
    ensures
        p.vanishes(digits, exponent),
{
    bounds_are_near(p);
    crate::bignat::pow10_sum(len, 400);
    crate::bignat::pow10_grows(len + 400, (-exponent) as nat);
    let f = crate::bignat::pow2(p.floor_bits());
    let g = crate::bignat::pow10(400);
    let l = crate::bignat::pow10(len);
    assert(digits * f <= l * g) by (nonlinear_arith)
        requires
            0 <= digits <= l,
            0 <= f <= g,
    ;
}

impl Precision {
    fn floor(self) -> (r: BigNat)
        ensures
            r.wf(),
            r@ == crate::bignat::pow2(self.floor_bits()),
    {
        match self {
            Precision::Single => two_to(150),
            Precision::Double => two_to(1075),
        }
    }

    fn limit(self) -> (r: BigNat)
        ensures
            r.wf(),
            r@ == self.ceiling(),
    {
        proof {
            pow2_grows(25, 25);
            pow2_grows(54, 54);
        }
        match self {
            Precision::Single => two_to(25).minus(&BigNat::of(1)).times(&two_to(103)),
            Precision::Double => two_to(54).minus(&BigNat::of(1)).times(&two_to(970)),
        }
    }

    /// What a sign, digits and an exponent read as in this type.
    fn settle(self, negative: bool, digits: BigNat, exponent: i128) -> (r: Number)
        requires
            digits.wf(),
            -EXPONENT_CAP <= exponent <= EXPONENT_CAP,
        ensures
            r.wf(),
            r@ == self.settled(
                NumeralView::Finite { negative, digits: digits@, exponent: exponent as int },
            ),
    {
        let zero = BigNat::of(0);
        proof {
            crate::bignat::digits_value_bound(digits.digits@);
            let f = crate::bignat::pow2(self.floor_bits());
            assert(0 * f == 0) by (nonlinear_arith);
            crate::bignat::pow10_positive((if exponent < 0 { -exponent } else { 0 }) as nat);
        }
        if matches!(digits.compare(&zero), Relation::Same) {
            return Number::Finite { negative, digits: zero, exponent: 0 };
        }
        if exponent > 400 {
            proof {
                large_exponents_overflow(self, digits@, exponent as int);
            }
            return Number::Infinite { negative };
        }
        if exponent < -(digits.digits.len() as i128 + 400) {
            proof {
                small_exponents_vanish(self, digits@, digits.digits@.len(), exponent as int);
            }
            return Number::Finite { negative, digits: zero, exponent: 0 };
        }
        if exponent >= 0 {
            let value = digits.shifted(exponent as u128);
            if matches!(value.compare(&self.limit()), Relation::Below) {
                Number::Finite { negative, digits, exponent }
            } else {
                Number::Infinite { negative }
            }
        } else {
            let scale = BigNat::of(1).shifted((-exponent) as u128);
            proof {
                let t = crate::bignat::pow10((-exponent) as nat);
                assert(1 * t == t) by (nonlinear_arith);
            }
            if !matches!(digits.times(&self.floor()).compare(&scale), Relation::Above) {
                Number::Finite { negative, digits: zero, exponent: 0 }
            } else if matches!(digits.compare(&self.limit().times(&scale)), Relation::Below) {
                Number::Finite { negative, digits, exponent }
            } else {
                Number::Infinite { negative }
            }
        }
    }
}

/// The exponent behind the mantissa of a decimal.
struct Exponent {
    negative: bool,
    /// The magnitude, exact below [`COUNTED`].
    count: u128,
}

impl Exponent {
    /// The exponent `x` is this one.
    spec fn stands_for(self, x: int) -> bool {
        &&& self.count < 10 * COUNTED
        &&& self.count < COUNTED ==> x == if self.negative {
            -(self.count as int)
        } else {
            self.count as int
        }
        &&& self.count >= COUNTED ==> if self.negative {
            x <= -COUNTED
        } else {
            x >= COUNTED
        }
    }
}

/// The exponent that `v` writes from `from` on.
fn read_exponent(v: &[char], from: usize) -> (r: Option<Exponent>)
    requires
        from <= v@.len(),
    ensures
        match (r, exponent_part(v@.skip(from as int))) {
            (Some(x), Some(e)) => x.stands_for(e),
            (None, None) => true,
            _ => false,
        },
{
    let ghost s = v@.skip(from as int);
    if from == v.len() {
        return Some(Exponent { negative: false, count: 0 });
    }
    if v[from] != 'e' && v[from] != 'E' {
        return None;
    }
    let at: usize = from + 1;
    let has_sign = at < v.len() && (v[at] == '+' || v[at] == '-');
    let negative = has_sign && v[at] == '-';
    let start: usize = if has_sign {
        at + 1
    } else {
        at
    };
    proof {
        assert(s.skip(1) =~= v@.skip(at as int));
        assert(crate::number::unsigned(s.skip(1)) =~= v@.skip(start as int));
    }
    let n: usize = count_digits(v, start);
    if n == 0 || start + n != v.len() {
        return None;
    }
    let d = part(v, start, v.len());
    assert(d@ =~= v@.skip(start as int));
    Some(Exponent { negative, count: count_of_digits(d.as_slice()) })
}

/// The mantissa of a decimal: its digits without the point.
struct Mantissa {
    digits: Vec<char>,
    /// How many of them stand behind the point.
    places: usize,
    /// Where the mantissa ends.
    end: usize,
}

/// The mantissa that `v` begins with.
fn read_mantissa(v: &[char]) -> (r: Mantissa)
    ensures
        r.end <= v@.len(),
        r.digits@ == v@.take(digit_run(v@) as int) + fraction_part(v@, digit_run(v@)).0,
        r.digits@.len() == digit_run(v@) + r.places,
        r.places == fraction_part(v@, digit_run(v@)).0.len(),
        v@.skip(r.end as int) == fraction_part(v@, digit_run(v@)).1,
        forall|i: int| 0 <= i < r.digits@.len() ==> is_digit(#[trigger] r.digits@[i]),
{
    assert(v@.skip(0) =~= v@);
    let n: usize = v.len();
    let whole: usize = count_digits(v, 0);
    let mut digits = part(v, 0, whole);
    let ghost head = digits@;
    assert(head =~= v@.take(whole as int));
    assert forall|i: int| 0 <= i < digits@.len() implies is_digit(#[trigger] digits@[i]) by {
        assert(digits@[i] == v@[i]);
    }
    if whole < n && v[whole] == '.' {
        let start: usize = whole + 1;
        let places: usize = count_digits(v, start);
        let ghost f = v@.skip(start as int).take(places as int);
        let mut k: usize = 0;
        assert(f.take(0) =~= Seq::<char>::empty());
        assert(head + Seq::<char>::empty() =~= head);
        while k < places
            invariant
                k <= places,
                start + places <= n == v@.len(),
                f == v@.skip(start as int).take(places as int),
                digits@ == head + f.take(k as int),
                forall|i: int| start <= i < start + places ==> is_digit(#[trigger] v@[i]),
                forall|i: int| 0 <= i < digits@.len() ==> is_digit(#[trigger] digits@[i]),
            decreases places - k,
        {
            let c: char = v[start + k];
            assert(is_digit(c));
            digits.push(c);
            k += 1;
            assert(digits@ =~= head + f.take(k as int));
        }
        assert(f.take(places as int) =~= f);
        assert(v@.skip(start as int).skip(places as int) =~= v@.skip(start + places));
        Mantissa { digits, places, end: start + places }
    } else {
        assert(head + Seq::<char>::empty() =~= head);
        Mantissa { digits, places: 0, end: whole }
    }
}

/// What a number reads as whose exponent is too far from zero to count.
fn settle_far(negative: bool, value: BigNat, far_below: bool, Ghost(e): Ghost<int>, p: Precision) -> (r:
    Number)
    requires
        value.wf(),
        far_below ==> e <= -COUNTED,
        !far_below ==> e >= COUNTED - usize::MAX,
    ensures
        r.wf(),
        r@ == p.settled(NumeralView::Finite { negative, digits: value@, exponent: e }),
{
    let len: usize = value.digits.len();
    proof {
        crate::bignat::digits_value_bound(value.digits@);
        if value@ > 0 && !far_below {
            large_exponents_overflow(p, value@, e);
        }
        if far_below {
            small_exponents_vanish(p, value@, len as nat, e);
        }
    }
    let zero = BigNat::of(0);
    if far_below || matches!(value.compare(&zero), Relation::Same) {
        Number::Finite { negative, digits: zero, exponent: 0 }
    } else {
        Number::Infinite { negative }
    }
}

/// Reads the decimal `v`, with the sign that stood before it.
fn read_decimal(v: &[char], negative: bool, p: Precision) -> (r: Option<Number>)
    ensures
        match (r, decimal_parts(v@)) {
            (Some(n), Some((digits, exponent))) => n.wf() && n@ == p.settled(
                NumeralView::Finite { negative, digits, exponent },
            ),
            (None, None) => true,
            _ => false,
        },
{
    let m = read_mantissa(v);
    if m.digits.len() == 0 {
        return None;
    }
    let exponent = match read_exponent(v, m.end) {
        Some(x) => x,
        None => {
            return None;
        },
    };
    let value = number_of_digits(m.digits.as_slice());
    if exponent.count < COUNTED {
        let e: i128 = if exponent.negative {
            -(exponent.count as i128) - m.places as i128
        } else {
            exponent.count as i128 - m.places as i128
        };
        return Some(p.settle(negative, value, e));
    }
    let ghost e = exponent_part(v@.skip(m.end as int))->Some_0 - m.places;
    Some(settle_far(negative, value, exponent.negative, Ghost(e), p))
}

/// A numeric literal, as it was written.
#[derive(Clone, Debug, PartialEq, Eq)]
pub struct Literal {
    pub text: String,
}

impl View for Literal {
    type V = Seq<char>;

    open spec fn view(&self) -> Seq<char> {
        self.text@
    }
}

impl Literal {
    /// The literal `0`.
    pub fn zero() -> (r: Literal)
        ensures
            r@ == "0"@,
    {
        Literal { text: "0".to_owned() }
    }

    /// The same literal again.
    pub fn duplicate(&self) -> (r: Literal)
        ensures
            r@ == self@,
    {
        Literal { text: self.text.clone() }
    }
}

/// The texts of a list of literals.
pub open spec fn literals(v: Seq<Literal>) -> Seq<Seq<char>> {
    v.map_values(|l: Literal| l@)
}

/// The literal `0` is zero.
pub proof fn zero_is_zero(p: Precision)
    ensures
        p.reading("0"@) == Some(NumeralView::Finite { negative: false, digits: 0, exponent: 0 }),
{
    reveal_strlit("0");
    reveal_strlit("inf");
    reveal_strlit("infinity");
    reveal_strlit("nan");
    let s = "0"@;
    assert(crate::text::lowered(s).len() == 1);
    assert(s.skip(1).len() == 0);
    assert(digit_run(s) == 1 + digit_run(s.skip(1)));
    assert(digit_run(s.skip(1)) == 0);
    assert(s.take(1) + Seq::<char>::empty() =~= s);
    assert(s.drop_last().len() == 0);
    assert(digits_number(s.drop_last()) == 0);
    assert(digits_number(s) == 0);
    assert(decimal_parts(s) == Some((0nat, 0int)));
}

/// The literal that `v` is in the range of `p`, with its value.
pub fn read_literal(v: &[char], p: Precision) -> (r: Option<(Literal, Number)>)
    ensures
        match (r, p.reading(v@)) {
            (Some((l, n)), Some(x)) => l@ == v@ && n.wf() && n@ == x,
            (None, None) => true,
            _ => false,
        },
{
    match read_number(v, p) {
        Some(n) => Some((Literal { text: string_of(v) }, n)),
        None => None,
    }
}

/// How long a sign at the beginning of `s` is.
pub open spec fn sign_length(s: Seq<char>) -> nat {
    if signed(s) {
        1
    } else {
        0
    }
}

/// Where the digits from `i` on end.
pub open spec fn digits_end(s: Seq<char>, i: nat) -> nat {
    i + digit_run(s.skip(i as int))
}

/// Where the digits from `i` on end, with a point and the digits behind it.
pub open spec fn mantissa_end(s: Seq<char>, i: nat) -> nat {
    let a = digits_end(s, i);
    if a < s.len() && s[a as int] == '.' {
        digits_end(s, a + 1)
    } else {
        a
    }
}

/// Where an exponent that begins at `i` ends; one without digits is none.
pub open spec fn exponent_end(s: Seq<char>, i: nat) -> nat {
    if i < s.len() && (s[i as int] == 'e' || s[i as int] == 'E') {
        let j = i + 1 + sign_length(s.skip(i as int + 1));
        let k = digits_end(s, j);
        if k > j {
            k
        } else {
            i
        }
    } else {
        i
    }
}

/// How long the number at the beginning of `s` is.
pub open spec fn number_length(s: Seq<char>) -> nat {
    exponent_end(s, mantissa_end(s, sign_length(s)))
}

/// How long the number at the beginning of `v` is.
pub fn count_number(v: &[char]) -> (r: usize)
    ensures
        r == number_length(v@),
        r <= v@.len(),
{
    let n: usize = v.len();
    let start: usize = if n > 0 && (v[0] == '+' || v[0] == '-') {
        1
    } else {
        0
    };
    let mut i: usize = start + count_digits(v, start);
    if i < n && v[i] == '.' {
        i = i + 1;
        i = i + count_digits(v, i);
    }
    if i < n && (v[i] == 'e' || v[i] == 'E') {
        let mut j: usize = i + 1;
        assert(signed(v@.skip(i + 1)) == (j < n && (v@[j as int] == '+' || v@[j as int] == '-')));
        if j < n && (v[j] == '+' || v[j] == '-') {
            j = j + 1;
        }
        let digits: usize = count_digits(v, j);
        if digits > 0 {
            i = j + digits;
        }
    }
    i
}

/// Digits go on into what follows them only where that begins with a digit.
pub proof fn digit_run_stops(s: Seq<char>, t: Seq<char>)
    requires
        t.len() == 0 || !is_digit(t[0]),
    ensures
        digit_run(s + t) == digit_run(s),
        digit_run(s) <= s.len(),
    decreases s.len(),
{
    if s.len() == 0 {
        assert(s + t =~= t);
    } else {
        assert((s + t).skip(1) =~= s.skip(1) + t);
        digit_run_stops(s.skip(1), t);
    }
}

/// A number stays as long as it is before text that cannot continue it.
pub proof fn number_stops(s: Seq<char>, t: Seq<char>)
    requires
        number_length(s) == s.len(),
        sign_length(s) < s.len(),
        t.len() > 0,
        !is_digit(t[0]),
        t[0] != '.' && t[0] != 'e' && t[0] != 'E' && t[0] != '+' && t[0] != '-',
    ensures
        number_length(s + t) == s.len(),
        sign_length(s + t) == sign_length(s),
{
    let u = s + t;
    let start = sign_length(s);
    assert forall|i: nat| i <= s.len() implies #[trigger] digits_end(u, i) == digits_end(s, i) && i
        <= digits_end(s, i) <= s.len() by {
        assert(u.skip(i as int) =~= s.skip(i as int) + t);
        digit_run_stops(s.skip(i as int), t);
    }
    let a = digits_end(s, start);
    assert(digits_end(u, start) == a);
    if a < s.len() && s[a as int] == '.' {
        assert(digits_end(u, a + 1) == digits_end(s, a + 1));
    }
    let m = mantissa_end(s, start);
    assert(mantissa_end(u, start) == m);
    if m < s.len() {
        assert(s[m as int] == 'e' || s[m as int] == 'E');
        let rest = s.skip(m as int + 1);
        assert(u.skip(m as int + 1) =~= rest + t);
        assert(sign_length(rest + t) == sign_length(rest));
        let j = m + 1 + sign_length(rest);
        assert(digits_end(u, j) == digits_end(s, j));
    }
}

/// Reads the literal `v` in the range of `p`; `None` where `v` is no literal.
pub fn read_number(v: &[char], p: Precision) -> (r: Option<Number>)
    ensures
        match (r, p.reading(v@)) {
            (Some(n), Some(x)) => n.wf() && n@ == x,
            (None, None) => true,
            _ => false,
        },
{
    let has_sign = v.len() > 0 && (v[0] == '+' || v[0] == '-');
    let negative = has_sign && v[0] == '-';
    let start: usize = if has_sign {
        1
    } else {
        0
    };
    let body = part(v, start, v.len());
    assert(body@ =~= crate::number::unsigned(v@));
    let word = lower(body.as_slice());
    if spells(word.as_slice(), "inf") || spells(word.as_slice(), "infinity") {
        return Some(Number::Infinite { negative });
    }
    if spells(word.as_slice(), "nan") {
        return Some(Number::NotANumber);
    }
    read_decimal(body.as_slice(), negative, p)
}

/// Digits alone are a run of digits.
pub proof fn digits_run(s: Seq<char>)
    requires
        forall|i: int| 0 <= i < s.len() ==> is_digit(#[trigger] s[i]),
    ensures
        digit_run(s) == s.len(),
    decreases s.len(),
{
    if s.len() > 0 {
        assert forall|i: int| 0 <= i < s.skip(1).len() implies is_digit(#[trigger] s.skip(1)[i]) by {
            assert(s.skip(1)[i] == s[i + 1]);
        }
        digits_run(s.skip(1));
    }
}

/// A number in decimal consists of digits, which write that number.
pub proof fn decimals_read_back(n: nat)
    ensures
        ({
            let s = crate::text::decimal_text(n);
            &&& s.len() > 0
            &&& forall|i: int| 0 <= i < s.len() ==> is_digit(#[trigger] s[i])
            &&& digits_number(s) == n
        }),
    decreases n,
{
    let s = crate::text::decimal_text(n);
    let d = crate::text::digit_char(n % 10);
    assert(d as nat == 48 + n % 10);
    assert(is_digit(d));
    assert(s.last() == d);
    if n < 10 {
        assert(s.drop_last() =~= Seq::<char>::empty());
        assert(digits_number(s.drop_last()) == 0);
    } else {
        decimals_read_back(n / 10);
        assert(s.drop_last() =~= crate::text::decimal_text(n / 10));
    }
}

/// An integer that a double holds exactly reads as itself.
pub proof fn integers_read_back(n: int)
    requires
        -0x20_0000_0000_0000 < n < 0x20_0000_0000_0000,
    ensures
        Precision::Double.reading(crate::text::integer_text(n)) == Some(
            NumeralView::Finite {
                negative: n < 0,
                digits: if n < 0 {
                    (-n) as nat
                } else {
                    n as nat
                },
                exponent: 0,
            },
        ),
{
    let s = crate::text::integer_text(n);
    let digits: nat = if n < 0 {
        (-n) as nat
    } else {
        n as nat
    };
    let body = crate::text::decimal_text(digits);
    decimals_read_back(digits);
    digits_run(body);
    reveal_strlit("-");
    assert(is_digit(body[0]));
    assert(unsigned(s) =~= body) by {
        if n < 0 {
            assert(s[0] == '-');
            assert(s.skip(1) =~= body);
        }
    }
    assert(minus(s) == (n < 0));
    reveal_strlit("inf");
    reveal_strlit("infinity");
    reveal_strlit("nan");
    let word = crate::text::lowered(body);
    assert(word[0] == body[0]);
    assert(body.take(body.len() as int) + Seq::<char>::empty() =~= body);
    assert(body.skip(body.len() as int).len() == 0);
    assert(decimal_parts(body) == Some((digits, 0int)));
    assert(Precision::Double.ceiling() > digits) by {
        pow2_thirty();
        pow2_sum(30, 23);
        assert(crate::bignat::pow2(23) == 0x80_0000) by {
            reveal_with_fuel(crate::bignat::pow2, 24);
        }
        pow2_grows(0, 970);
        let p = crate::bignat::pow2(53);
        let q = crate::bignat::pow2(970);
        assert(p == 0x20_0000_0000_0000);
        assert(crate::bignat::pow2(54) == 2 * p);
        assert((2 * p - 1) * q >= p) by (nonlinear_arith)
            requires
                p >= 1,
                q >= 1,
        ;
    }
    assert(digits * 1 == digits);
    assert(crate::bignat::pow10(0) == 1);
}

/// A number that is written in digits, with at most a sign, a point and an
/// exponent.
pub open spec fn in_digits(n: Seq<char>) -> bool {
    &&& n.len() > 0
    &&& numeral(n) is Some
    &&& forall|i: int|
        0 <= i < n.len() ==> is_digit(#[trigger] n[i]) || n[i] == '.' || n[i] == '-' || n[i] == '+'
            || n[i] == 'e' || n[i] == 'E'
}

} // verus!
