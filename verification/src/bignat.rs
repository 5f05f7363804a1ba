//! Natural numbers of any size, by their decimal digits.

use vstd::prelude::*;

verus! {

/// The number whose decimal digits are `d`, the lowest first.
pub open spec fn digits_value(d: Seq<u8>) -> nat
    decreases d.len(),
{
    if d.len() == 0 {
        0
    } else {
        d[0] as nat + 10 * digits_value(d.drop_first())
    }
}

/// Ten to the power `n`.
pub open spec fn pow10(n: nat) -> nat
    decreases n,
{
    if n == 0 {
        1
    } else {
        10 * pow10((n - 1) as nat)
    }
}

/// Two to the power `n`.
pub open spec fn pow2(n: nat) -> nat
    decreases n,
{
    if n == 0 {
        1
    } else {
        2 * pow2((n - 1) as nat)
    }
}

/// Every element is a decimal digit.
pub open spec fn all_digits(d: Seq<u8>) -> bool {
    forall|i: int| 0 <= i < d.len() ==> #[trigger] d[i] < 10
}

pub proof fn pow10_positive(n: nat)
    ensures
        pow10(n) > 0,
    decreases n,
{
    if n > 0 {
        pow10_positive((n - 1) as nat);
    }
}

pub proof fn pow10_sum(a: nat, b: nat)
    ensures
        pow10(a + b) == pow10(a) * pow10(b),
    decreases a,
{
    if a == 0 {
        assert(pow10(0) * pow10(b) == pow10(b)) by (nonlinear_arith)
            requires
                pow10(0) == 1,
        ;
    } else {
        pow10_sum((a - 1) as nat, b);
        assert(pow10(a + b) == 10 * pow10((a + b - 1) as nat));
        assert((a - 1) as nat + b == (a + b - 1) as nat);
        assert(10 * (pow10((a - 1) as nat) * pow10(b)) == (10 * pow10((a - 1) as nat)) * pow10(b))
            by (nonlinear_arith);
    }
}

/// Digits in a row: the upper ones count by the power of ten below them.
pub proof fn digits_value_concat(a: Seq<u8>, b: Seq<u8>)
    ensures
        digits_value(a + b) == digits_value(a) + pow10(a.len()) * digits_value(b),
    decreases a.len(),
{
    if a.len() == 0 {
        assert(a + b =~= b);
        assert(pow10(0) * digits_value(b) == digits_value(b)) by (nonlinear_arith)
            requires
                pow10(0) == 1,
        ;
    } else {
        assert((a + b).drop_first() =~= a.drop_first() + b);
        digits_value_concat(a.drop_first(), b);
        let p = pow10((a.len() - 1) as nat);
        let v = digits_value(b);
        assert(10 * (p * v) == (10 * p) * v) by (nonlinear_arith);
    }
}

/// One more digit on top.
pub proof fn digits_value_push(a: Seq<u8>, d: u8)
    ensures
        digits_value(a.push(d)) == digits_value(a) + pow10(a.len()) * d,
{
    digits_value_concat(a, seq![d]);
    assert(a + seq![d] =~= a.push(d));
    assert(seq![d].drop_first() =~= Seq::<u8>::empty());
    reveal_with_fuel(digits_value, 2);
    assert(digits_value(seq![d]) == d);
}

/// A number of `n` digits is below ten to the power `n`.
pub proof fn digits_value_bound(d: Seq<u8>)
    requires
        all_digits(d),
    ensures
        digits_value(d) < pow10(d.len()),
    decreases d.len(),
{
    if d.len() > 0 {
        assert(all_digits(d.drop_first()));
        digits_value_bound(d.drop_first());
    }
}

/// A natural number of any size.
pub struct BigNat {
    /// The decimal digits, the lowest first.
    pub digits: Vec<u8>,
}

/// How two numbers compare.
#[derive(Clone, Copy, Debug, PartialEq, Eq, Structural)]
pub enum Relation {
    Below,
    Same,
    Above,
}

/// How two numbers compare.
pub open spec fn relation(a: int, b: int) -> Relation {
    if a < b {
        Relation::Below
    } else if a == b {
        Relation::Same
    } else {
        Relation::Above
    }
}

impl View for BigNat {
    type V = nat;

    open spec fn view(&self) -> nat {
        digits_value(self.digits@)
    }
}

impl BigNat {
    /// Every digit is one.
    pub open spec fn wf(&self) -> bool {
        all_digits(self.digits@)
    }

    /// The number `n`.
    pub fn of(n: u64) -> (r: BigNat)
        ensures
            r.wf(),
            r@ == n,
    {
        let mut digits: Vec<u8> = Vec::new();
        let mut rest: u64 = n;
        assert(pow10(0) * n == n) by (nonlinear_arith)
            requires
                pow10(0) == 1,
        ;
        while rest > 0
            invariant
                all_digits(digits@),
                n == digits_value(digits@) + pow10(digits@.len()) * rest,
            decreases rest,
        {
            let d: u8 = (rest % 10) as u8;
            proof {
                digits_value_push(digits@, d);
                let p = pow10(digits@.len());
                let q: nat = (rest / 10) as nat;
                assert(p * rest == p * (d as nat) + (10 * p) * q) by (nonlinear_arith)
                    requires
                        rest == 10 * q + d,
                ;
            }
            digits.push(d);
            rest = rest / 10;
        }
        assert(pow10(digits@.len()) * 0 == 0) by (nonlinear_arith);
        BigNat { digits }
    }

    /// The sum.
    pub fn plus(&self, other: &BigNat) -> (r: BigNat)
        requires
            self.wf(),
            other.wf(),
        ensures
            r.wf(),
            r@ == self@ + other@,
    {
        let n: usize = if self.digits.len() < other.digits.len() {
            other.digits.len()
        } else {
            self.digits.len()
        };
        let mut digits: Vec<u8> = Vec::new();
        let mut carry: u8 = 0;
        let mut i: usize = 0;
        let ghost a = self.digits@;
        let ghost b = other.digits@;
        proof {
            assert(a.take(0) =~= Seq::<u8>::empty());
            assert(b.take(0) =~= Seq::<u8>::empty());
            assert(pow10(0) * 0 == 0) by (nonlinear_arith);
        }
        while i < n
            invariant
                self.wf(),
                other.wf(),
                a == self.digits@,
                b == other.digits@,
                i <= n,
                n == if a.len() < b.len() {
                    b.len()
                } else {
                    a.len()
                },
                carry <= 1,
                digits@.len() == i,
                all_digits(digits@),
                digits_value(digits@) + pow10(i as nat) * carry == low(a, i as int) + low(
                    b,
                    i as int,
                ),
            decreases n - i,
        {
            let x: u8 = if i < self.digits.len() {
                self.digits[i]
            } else {
                0
            };
            let y: u8 = if i < other.digits.len() {
                other.digits[i]
            } else {
                0
            };
            proof {
                low_step(a, i as int);
                low_step(b, i as int);
            }
            let sum: u8 = x + y + carry;
            let d: u8 = if sum >= 10 {
                sum - 10
            } else {
                sum
            };
            let next: u8 = if sum >= 10 {
                1
            } else {
                0
            };
            proof {
                digits_value_push(digits@, d);
                let p = pow10(i as nat);
                assert(p * d + (10 * p) * next == p * x + p * y + p * carry) by (nonlinear_arith)
                    requires
                        d + 10 * next == x + y + carry,
                ;
            }
            digits.push(d);
            carry = next;
            i += 1;
        }
        proof {
            low_all(a, n as int);
            low_all(b, n as int);
            digits_value_push(digits@, carry);
            digits_value_concat(digits@, Seq::<u8>::empty());
        }
        if carry > 0 {
            digits.push(carry);
        } else {
            assert(pow10(n as nat) * 0 == 0) by (nonlinear_arith);
        }
        BigNat { digits }
    }

    /// The difference.
    pub fn minus(&self, other: &BigNat) -> (r: BigNat)
        requires
            self.wf(),
            other.wf(),
            self@ >= other@,
        ensures
            r.wf(),
            r@ == self@ - other@,
    {
        let n: usize = if self.digits.len() < other.digits.len() {
            other.digits.len()
        } else {
            self.digits.len()
        };
        let mut digits: Vec<u8> = Vec::new();
        let mut borrow: u8 = 0;
        let mut i: usize = 0;
        let ghost a = self.digits@;
        let ghost b = other.digits@;
        proof {
            assert(a.take(0) =~= Seq::<u8>::empty());
            assert(b.take(0) =~= Seq::<u8>::empty());
            assert(pow10(0) * 0 == 0) by (nonlinear_arith);
        }
        while i < n
            invariant
                self.wf(),
                other.wf(),
                a == self.digits@,
                b == other.digits@,
                i <= n,
                n == if a.len() < b.len() {
                    b.len()
                } else {
                    a.len()
                },
                borrow <= 1,
                digits@.len() == i,
                all_digits(digits@),
                digits_value(digits@) + low(b, i as int) == low(a, i as int) + pow10(i as nat)
                    * borrow,
            decreases n - i,
        {
            let x: u8 = if i < self.digits.len() {
                self.digits[i]
            } else {
                0
            };
            let y: u8 = if i < other.digits.len() {
                other.digits[i]
            } else {
                0
            };
            proof {
                low_step(a, i as int);
                low_step(b, i as int);
            }
            let short = x < y + borrow;
            let d: u8 = if short {
                x + 10 - y - borrow
            } else {
                x - y - borrow
            };
            let next: u8 = if short {
                1
            } else {
                0
            };
            proof {
                digits_value_push(digits@, d);
                let p = pow10(i as nat);
                assert(p * d + p * y + p * borrow == p * x + (10 * p) * next) by (nonlinear_arith)
                    requires
                        d + y + borrow == x + 10 * next,
                ;
            }
            digits.push(d);
            borrow = next;
            i += 1;
        }
        proof {
            low_all(a, n as int);
            low_all(b, n as int);
            digits_value_bound(digits@);
            let p = pow10(n as nat);
            assert(borrow == 0) by {
                if borrow == 1 {
                    assert(p * borrow == p) by (nonlinear_arith)
                        requires
                            borrow == 1,
                    ;
                }
            }
            assert(p * 0 == 0) by (nonlinear_arith);
        }
        BigNat { digits }
    }

    /// The product with a small number.
    pub fn times_small(&self, m: u64) -> (r: BigNat)
        requires
            self.wf(),
        ensures
            r.wf(),
            r@ == self@ * m,
    {
        let mut digits: Vec<u8> = Vec::new();
        let mut carry: u128 = 0;
        let mut i: usize = 0;
        let ghost a = self.digits@;
        proof {
            assert(a.take(0) =~= Seq::<u8>::empty());
            assert(0 * m == 0 && pow10(0) * 0 == 0) by (nonlinear_arith);
        }
        while i < self.digits.len()
            invariant
                self.wf(),
                a == self.digits@,
                i <= a.len(),
                digits@.len() == i,
                all_digits(digits@),
                carry <= m,
                digits_value(digits@) + pow10(i as nat) * carry == low(a, i as int) * m,
            decreases a.len() - i,
        {
            let x: u8 = self.digits[i];
            assert(x < 10);
            proof {
                low_step(a, i as int);
            }
            assert(x as int * m as int <= 9 * m as int) by (nonlinear_arith)
                requires
                    x <= 9,
                    m >= 0,
            ;
            let total: u128 = x as u128 * m as u128 + carry;
            let d: u8 = (total % 10) as u8;
            let next: u128 = total / 10;
            proof {
                digits_value_push(digits@, d);
                let p = pow10(i as nat);
                let l = low(a, i as int);
                assert(p * d + (10 * p) * next == p * (x * m) + p * carry) by (nonlinear_arith)
                    requires
                        d + 10 * next == x * m + carry,
                ;
                assert((l + p * x) * m == l * m + p * (x * m)) by (nonlinear_arith);
            }
            digits.push(d);
            carry = next;
            i += 1;
        }
        proof {
            low_all(a, a.len() as int);
        }
        let ghost body = digits@;
        let ghost done = self@ * m;
        while carry > 0
            invariant
                all_digits(digits@),
                digits_value(digits@) + pow10(digits@.len()) * carry == done,
            decreases carry,
        {
            let d: u8 = (carry % 10) as u8;
            proof {
                digits_value_push(digits@, d);
                let p = pow10(digits@.len());
                let q: nat = (carry / 10) as nat;
                assert(p * carry == p * (d as nat) + (10 * p) * q) by (nonlinear_arith)
                    requires
                        carry == 10 * q + d,
                ;
            }
            digits.push(d);
            carry = carry / 10;
        }
        assert(pow10(digits@.len()) * 0 == 0) by (nonlinear_arith);
        BigNat { digits }
    }

    /// The product with a power of ten.
    pub fn shifted(&self, n: u128) -> (r: BigNat)
        requires
            self.wf(),
        ensures
            r.wf(),
            r@ == self@ * pow10(n as nat),
    {
        let mut digits: Vec<u8> = Vec::new();
        let mut i: u128 = 0;
        while i < n
            invariant
                i <= n,
                digits@.len() == i,
                all_digits(digits@),
                digits_value(digits@) == 0,
            decreases n - i,
        {
            proof {
                digits_value_push(digits@, 0);
                assert(pow10(digits@.len()) * 0 == 0) by (nonlinear_arith);
            }
            digits.push(0);
            i += 1;
        }
        let ghost zeros = digits@;
        let mut j: usize = 0;
        assert(self.digits@.take(0) =~= Seq::<u8>::empty());
        assert(zeros + Seq::<u8>::empty() =~= zeros);
        while j < self.digits.len()
            invariant
                self.wf(),
                j <= self.digits@.len(),
                all_digits(digits@),
                digits@ == zeros + self.digits@.take(j as int),
            decreases self.digits@.len() - j,
        {
            digits.push(self.digits[j]);
            j += 1;
            assert(digits@ =~= zeros + self.digits@.take(j as int));
        }
        proof {
            assert(self.digits@.take(self.digits@.len() as int) =~= self.digits@);
            digits_value_concat(zeros, self.digits@);
            let p = pow10(n as nat);
            let v = self@;
            assert(p * v == v * p) by (nonlinear_arith);
        }
        BigNat { digits }
    }

    /// The product.
    pub fn times(&self, other: &BigNat) -> (r: BigNat)
        requires
            self.wf(),
            other.wf(),
        ensures
            r.wf(),
            r@ == self@ * other@,
    {
        let mut r = BigNat { digits: Vec::new() };
        let mut i: usize = 0;
        let ghost b = other.digits@;
        let ghost x = self@;
        proof {
            assert(b.take(0) =~= Seq::<u8>::empty());
            assert(x * 0 == 0) by (nonlinear_arith);
        }
        while i < other.digits.len()
            invariant
                self.wf(),
                other.wf(),
                b == other.digits@,
                x == self@,
                i <= b.len(),
                r.wf(),
                r@ == x * low(b, i as int),
            decreases b.len() - i,
        {
            let d: u8 = other.digits[i];
            let term = self.times_small(d as u64).shifted(i as u128);
            proof {
                low_step(b, i as int);
                let p = pow10(i as nat);
                let l = low(b, i as int);
                assert(x * l + (x * d) * p == x * (l + p * d)) by (nonlinear_arith);
            }
            r = r.plus(&term);
            i += 1;
        }
        proof {
            low_all(b, b.len() as int);
        }
        r
    }

    /// The remainder of the division by `d`.
    pub fn remainder(&self, d: &BigNat) -> (r: BigNat)
        requires
            self.wf(),
            d.wf(),
            d@ > 0,
        ensures
            r.wf(),
            r@ == self@ % d@,
    {
        let mut rem = BigNat { digits: Vec::new() };
        let ghost a = self.digits@;
        let ghost mut q: nat = 0;
        let mut i: usize = self.digits.len();
        assert(a.skip(a.len() as int) =~= Seq::<u8>::empty());
        assert(0 * d@ == 0) by (nonlinear_arith);
        while i > 0
            invariant
                self.wf(),
                d.wf(),
                a == self.digits@,
                i <= a.len(),
                rem.wf(),
                rem@ < d@,
                digits_value(a.skip(i as int)) == q * d@ + rem@,
            decreases i,
        {
            let x: u8 = self.digits[i - 1];
            let old_rem = rem.shifted(1);
            proof {
                assert(a.skip(i - 1).drop_first() =~= a.skip(i as int));
                assert(pow10(1) == 10) by {
                    reveal_with_fuel(pow10, 2);
                }
            }
            rem = old_rem.plus(&BigNat::of(x as u64));
            let ghost mut k: nat = 10 * q;
            assert(10 * (q * d@ + 0) == k * d@) by (nonlinear_arith)
                requires
                    k == 10 * q,
            ;
            let mut done = matches!(rem.compare(d), Relation::Below);
            while !done
                invariant
                    d.wf(),
                    d@ > 0,
                    rem.wf(),
                    done == (rem@ < d@),
                    digits_value(a.skip(i - 1)) == k * d@ + rem@,
                decreases rem@,
            {
                assert((k + 1) * d@ == k * d@ + d@) by (nonlinear_arith);
                rem = rem.minus(d);
                proof {
                    k = k + 1;
                }
                done = matches!(rem.compare(d), Relation::Below);
            }
            proof {
                q = k;
            }
            i -= 1;
        }
        proof {
            assert(a.skip(0) =~= a);
            vstd::arithmetic::div_mod::lemma_fundamental_div_mod_converse(
                self@ as int,
                d@ as int,
                q as int,
                rem@ as int,
            );
        }
        rem
    }

    /// How two numbers compare.
    pub fn compare(&self, other: &BigNat) -> (r: Relation)
        requires
            self.wf(),
            other.wf(),
        ensures
            r == relation(self@ as int, other@ as int),
    {
        let n: usize = if self.digits.len() < other.digits.len() {
            other.digits.len()
        } else {
            self.digits.len()
        };
        let mut r = Relation::Same;
        let mut i: usize = 0;
        let ghost a = self.digits@;
        let ghost b = other.digits@;
        proof {
            assert(a.take(0) =~= Seq::<u8>::empty());
            assert(b.take(0) =~= Seq::<u8>::empty());
        }
        while i < n
            invariant
                self.wf(),
                other.wf(),
                a == self.digits@,
                b == other.digits@,
                i <= n,
                n == if a.len() < b.len() {
                    b.len()
                } else {
                    a.len()
                },
                r == relation(low(a, i as int) as int, low(b, i as int) as int),
            decreases n - i,
        {
            let x: u8 = if i < self.digits.len() {
                self.digits[i]
            } else {
                0
            };
            let y: u8 = if i < other.digits.len() {
                other.digits[i]
            } else {
                0
            };
            proof {
                low_step(a, i as int);
                low_step(b, i as int);
                low_bound(a, i as int);
                low_bound(b, i as int);
                let p = pow10(i as nat);
                let la = low(a, i as int);
                let lb = low(b, i as int);
                if x < y {
                    assert(la + p * x < lb + p * y) by (nonlinear_arith)
                        requires
                            la < p,
                            lb >= 0,
                            x + 1 <= y,
                            p > 0,
                    ;
                } else if x > y {
                    assert(lb + p * y < la + p * x) by (nonlinear_arith)
                        requires
                            lb < p,
                            la >= 0,
                            y + 1 <= x,
                            p > 0,
                    ;
                }
            }
            if x < y {
                r = Relation::Below;
            } else if x > y {
                r = Relation::Above;
            }
            i += 1;
        }
        proof {
            low_all(a, n as int);
            low_all(b, n as int);
        }
        r
    }
}

/// The number that the lowest `i` digits make; missing digits are 0.
pub open spec fn low(d: Seq<u8>, i: int) -> nat {
    digits_value(d.take(if i < d.len() {
        i
    } else {
        d.len() as int
    }))
}

proof fn low_step(d: Seq<u8>, i: int)
    requires
        0 <= i,
    ensures
        low(d, i + 1) == low(d, i) + pow10(i as nat) * (if i < d.len() {
            d[i] as nat
        } else {
            0
        }),
{
    if i < d.len() {
        assert(d.take(i + 1) =~= d.take(i).push(d[i]));
        digits_value_push(d.take(i), d[i]);
    } else {
        assert(pow10(i as nat) * 0 == 0) by (nonlinear_arith);
    }
}

proof fn low_all(d: Seq<u8>, n: int)
    requires
        n >= d.len(),
    ensures
        low(d, n) == digits_value(d),
{
    assert(d.take(d.len() as int) =~= d);
}

proof fn low_bound(d: Seq<u8>, i: int)
    requires
        all_digits(d),
        0 <= i,
    ensures
        low(d, i) < pow10(i as nat),
{
    let k = if i < d.len() {
        i
    } else {
        d.len() as int
    };
    assert(all_digits(d.take(k)));
    digits_value_bound(d.take(k));
    pow10_grows(k as nat, i as nat);
}

pub proof fn pow10_grows(a: nat, b: nat)
    requires
        a <= b,
    ensures
        pow10(a) <= pow10(b),
    decreases b,
{
    if a < b {
        pow10_grows(a, (b - 1) as nat);
        pow10_positive((b - 1) as nat);
    }
}

} // verus!
