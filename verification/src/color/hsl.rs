//! The conversion from hue, saturation and lightness to red, green and blue.

use vstd::prelude::*;

use crate::bignat::{BigNat, Relation};
use crate::color::double::Double;

verus! {

/// The chroma `(1 - |2l - 1|) * s`.
pub open spec fn chroma(s: int, l: int) -> int {
    let one = crate::color::double::one();
    let off = crate::color::double::magnitude(crate::color::double::fit(2 * l - one, 1));
    crate::color::double::fit(crate::color::double::fit(one - off, 1) * s, one)
}

/// How far the hue, in sectors of sixty degrees, is into its pair of sectors, up
/// and down again: `1 - |h mod 2 - 1|`.
pub open spec fn ramp(sectors: int) -> int {
    let one = crate::color::double::one();
    let off = crate::color::double::magnitude(
        crate::color::double::fit(sectors % (2 * one) - one, 1),
    );
    crate::color::double::fit(one - off, 1)
}

/// The three parts that a colour is mixed from.
pub struct Mix {
    /// The largest part: the chroma.
    pub full: int,
    /// The middle part.
    pub partial: int,
    /// What is added to each part.
    pub base: int,
}

/// The parts of a colour whose hue is given in sectors.
pub open spec fn mix(sectors: int, s: int, l: int) -> Mix {
    let c = chroma(s, l);
    Mix {
        full: c,
        partial: crate::color::double::fit(c * ramp(sectors), crate::color::double::one()),
        base: crate::color::double::fit(l - crate::color::double::fit(c, 2), 1),
    }
}

/// The parts of red, green and blue in the sector of sixty degrees that the
/// hue lies in.
pub open spec fn placed(sector: int, m: Mix) -> (int, int, int) {
    if sector == 0 {
        (m.full, m.partial, 0)
    } else if sector == 1 {
        (m.partial, m.full, 0)
    } else if sector == 2 {
        (0, m.full, m.partial)
    } else if sector == 3 {
        (0, m.partial, m.full)
    } else if sector == 4 {
        (m.partial, 0, m.full)
    } else {
        (m.full, 0, m.partial)
    }
}

/// A share of one as a channel.
pub open spec fn shade(share: int) -> u8 {
    crate::color::quantise::quantised(
        crate::color::double::fit(share * 255, 1),
        crate::color::double::one(),
    )
}

/// Red, green and blue of a hue in degrees, a saturation and a lightness.
#[verifier::opaque]
pub open spec fn mixed(h: int, s: int, l: int) -> (u8, u8, u8) {
    let sectors = crate::color::double::fit(h, 60);
    let m = mix(sectors, s, l);
    let (r, g, b) = placed(sectors / crate::color::double::one(), m);
    (
        shade(crate::color::double::fit(r + m.base, 1)),
        shade(crate::color::double::fit(g + m.base, 1)),
        shade(crate::color::double::fit(b + m.base, 1)),
    )
}

/// Red, green and blue of a hue, a saturation and a lightness, each `None`
/// where it is not a number. Without a saturation or a lightness the colour is
/// black. Without a hue the colour is in the first sector, and has no green.
pub open spec fn converted(h: Option<int>, s: Option<int>, l: Option<int>) -> (u8, u8, u8) {
    match (s, l) {
        (Some(s), Some(l)) => if s == 0 {
            let grey = shade(l);
            (grey, grey, grey)
        } else {
            match h {
                Some(h) => mixed(h, s, l),
                None => {
                    let (r, g, b) = mixed(0, s, l);
                    (r, 0, b)
                },
            }
        },
        _ => (0, 0, 0),
    }
}

/// Computes [`chroma`].
fn chroma_of(s: &Double, l: &Double) -> (r: Double)
    requires
        s.wf(),
        l.wf(),
    ensures
        r.wf(),
        r@ == chroma(s@, l@),
{
    let one = Double::whole(1);
    assert(1 * crate::color::double::one() == crate::color::double::one()) by (nonlinear_arith);
    let off = l.times_small(2).plus(&one.negated()).rounded().without_sign();
    one.plus(&off.negated()).rounded().product(s)
}

/// Computes [`ramp`].
fn ramp_of(sectors: &Double) -> (r: Double)
    requires
        sectors.wf(),
        !sectors.negative,
    ensures
        r.wf(),
        r@ == ramp(sectors@),
{
    let one = Double::whole(1);
    let pair = Double::whole(2);
    proof {
        crate::number::pow2_grows(0, 1074);
    }
    assert(1 * crate::color::double::one() == crate::color::double::one()) by (nonlinear_arith);
    let turn = Double::signed(false, sectors.size.remainder(&pair.size));
    let off = turn.plus(&one.negated()).rounded().without_sign();
    one.plus(&off.negated()).rounded()
}

/// The sector that `sectors` lies in, the sixth one for all beyond.
fn sector_of(sectors: &Double) -> (r: u64)
    requires
        sectors.wf(),
        !sectors.negative,
    ensures
        r <= 5,
        r < 5 ==> r == sectors@ / crate::color::double::one(),
        r == 5 ==> sectors@ / crate::color::double::one() >= 5,
{
    let one = Double::whole(1);
    let ghost t = sectors@;
    let ghost w = crate::color::double::one();
    proof {
        crate::number::pow2_grows(0, 1074);
        vstd::arithmetic::div_mod::lemma_fundamental_div_mod(t, w);
        vstd::arithmetic::div_mod::lemma_mod_bound(t, w);
    }
    assert(1 * w == w && w * 0 == 0) by (nonlinear_arith);
    let mut k: u64 = 0;
    while k < 5
        invariant
            k <= 5,
            sectors.wf(),
            !sectors.negative,
            one.wf(),
            t == sectors@,
            one.size@ == w,
            w * k <= t,
        ensures
            k <= 5,
            w * k <= t,
            k < 5 ==> t < w * (k + 1),
        decreases 5 - k,
    {
        let next = one.size.times_small(k + 1);
        if matches!(sectors.size.compare(&next), Relation::Below) {
            break ;
        }
        k += 1;
    }
    proof {
        let q = t / w;
        assert(q >= k) by (nonlinear_arith)
            requires
                w * k <= t,
                t < w * q + w,
                w > 0,
        ;
        if k < 5 {
            assert(q <= k) by (nonlinear_arith)
                requires
                    w * q <= t,
                    t < w * (k + 1),
                    w > 0,
            ;
        }
    }
    k
}

/// Computes [`shade`].
fn shade_of(share: &Double) -> (r: u8)
    requires
        share.wf(),
    ensures
        r == shade(share@),
{
    share.times_small(255).rounded().channel()
}

/// Computes [`mixed`].
fn mix_of(h: &Double, s: &Double, l: &Double) -> (r: (u8, u8, u8))
    requires
        h.wf(),
        s.wf(),
        l.wf(),
        !h.negative,
    ensures
        r == mixed(h@, s@, l@),
{
    reveal(mixed);
    let sectors = h.fitted(&BigNat::of(60));
    let c = chroma_of(s, l);
    let x = c.product(&ramp_of(&sectors));
    let base = l.plus(&c.fitted(&BigNat::of(2)).negated()).rounded();
    let sector: u64 = sector_of(&sectors);
    let strong = shade_of(&c.plus(&base).rounded());
    let middle = shade_of(&x.plus(&base).rounded());
    let weak = shade_of(&base.rounded());
    if sector == 0 {
        (strong, middle, weak)
    } else if sector == 1 {
        (middle, strong, weak)
    } else if sector == 2 {
        (weak, strong, middle)
    } else if sector == 3 {
        (weak, middle, strong)
    } else if sector == 4 {
        (middle, weak, strong)
    } else {
        (strong, weak, middle)
    }
}

/// Red, green and blue of a hue in degrees, a saturation and a lightness.
pub fn hsl_to_rgb_u8(h: &Option<Double>, s: &Option<Double>, l: &Option<Double>) -> (r: (
    u8,
    u8,
    u8,
))
    requires
        h matches Some(x) ==> x.wf() && 0 <= x@ < 360 * crate::color::double::one(),
        s matches Some(x) ==> x.wf() && 0 <= x@ <= crate::color::double::one(),
        l matches Some(x) ==> x.wf() && 0 <= x@ <= crate::color::double::one(),
    ensures
        r == converted(
            crate::outcome::seen(*h),
            crate::outcome::seen(*s),
            crate::outcome::seen(*l),
        ),
{
    let s = match s {
        Some(x) => x,
        None => {
            return (0, 0, 0);
        },
    };
    let l = match l {
        Some(x) => x,
        None => {
            return (0, 0, 0);
        },
    };
    if matches!(s.size.compare(&BigNat::of(0)), Relation::Same) {
        let grey = shade_of(l);
        return (grey, grey, grey);
    }
    match h {
        Some(h) => mix_of(h, s, l),
        None => {
            let (r, _, b) = mix_of(&Double::signed(false, BigNat::of(0)), s, l);
            (r, 0, b)
        },
    }
}

} // verus!
