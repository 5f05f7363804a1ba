//! Premultiplied alpha.
//!
//! A premultiplied channel is `c * a / 255`, rounded to the nearest integer.
//! The way back multiplies by `255 / a` in single precision: both the factor
//! and the product are rounded to twenty-four significant bits before the
//! result is rounded to an integer.

use vstd::prelude::*;

use crate::color::Color;

verus! {

/// One channel, premultiplied by `a / 255`.
pub open spec fn scaled_channel(c: u8, a: u8) -> u8 {
    ((2 * c * a + 255) / 510) as u8
}

/// `c` with its channels premultiplied.
pub open spec fn premultiplied(c: Color) -> Color {
    if c.a == 255 {
        c
    } else if c.a == 0 {
        Color { r: 0, g: 0, b: 0, a: 0 }
    } else {
        Color {
            r: scaled_channel(c.r, c.a),
            g: scaled_channel(c.g, c.a),
            b: scaled_channel(c.b, c.a),
            a: c.a,
        }
    }
}

/// How many times `bottom` doubles before it passes `top`.
pub open spec fn magnitude(top: int, bottom: int) -> nat
    decreases top - bottom,
    when bottom > 0
{
    if top < 2 * bottom {
        0
    } else {
        1 + magnitude(top, 2 * bottom)
    }
}

/// The single-precision mantissa of `top / bottom`, which is at least one: the
/// number is this over [`single_scale`].
pub open spec fn single(top: int, bottom: int) -> int {
    crate::color::quantise::rounded(top * single_scale(top, bottom), bottom)
}

/// What the mantissa of `top / bottom` is counted in.
pub open spec fn single_scale(top: int, bottom: int) -> int {
    crate::bignat::pow2((23 - magnitude(top, bottom)) as nat) as int
}

/// One channel, multiplied by `255 / a`.
pub open spec fn restored_channel(c: u8, a: u8) -> u8 {
    if c == 0 {
        0
    } else {
        let factor = single(255, a as int);
        let unit = single_scale(255, a as int);
        let product = single(c * factor, unit);
        let scale = single_scale(c * factor, unit);
        crate::color::quantise::clamped((2 * product + scale) / (2 * scale))
    }
}

/// `c` with the premultiplication of its channels undone.
pub open spec fn unpremultiplied(c: Color) -> Color {
    if c.a == 255 || c.a == 0 {
        c
    } else {
        Color {
            r: restored_channel(c.r, c.a),
            g: restored_channel(c.g, c.a),
            b: restored_channel(c.b, c.a),
            a: c.a,
        }
    }
}

fn scale_channel(c: u8, a: u8) -> (r: u8)
    requires
        a < 255,
    ensures
        r == scaled_channel(c, a),
{
    assert(0 <= c * a <= 255 * 254) by (nonlinear_arith)
        requires
            0 <= c <= 255,
            0 <= a <= 254,
    ;
    assert(2 * c * a == 2 * (c * a)) by (nonlinear_arith);
    let x: u32 = c as u32 * a as u32;
    ((2 * x + 255) / 510) as u8
}

/// Premultiplies a colour: its channels are scaled by `a / 255`. An opaque
/// colour is unchanged; a transparent one becomes transparent black.
pub fn premultiply(c: Color) -> (r: Color)
    ensures
        r == premultiplied(c),
{
    if c.a == 255 {
        return c;
    }
    if c.a == 0 {
        return Color { r: 0, g: 0, b: 0, a: 0 };
    }
    Color {
        r: scale_channel(c.r, c.a),
        g: scale_channel(c.g, c.a),
        b: scale_channel(c.b, c.a),
        a: c.a,
    }
}

/// `top / bottom` rounded to the nearest integer, a half to the even one.
fn round_even(top: u64, bottom: u64) -> (r: u64)
    requires
        0 < bottom < 0x1_0000_0000,
        top < 0x8000_0000_0000_0000,
    ensures
        r == crate::color::quantise::rounded(top as int, bottom as int),
{
    let below: u64 = top / bottom;
    let rest: u64 = 2 * (top % bottom);
    if rest < bottom || (rest == bottom && below % 2 == 0) {
        below
    } else {
        below + 1
    }
}

proof fn scales()
    ensures
        crate::bignat::pow2(23) == 0x80_0000,
        crate::bignat::pow2(16) == 0x1_0000,
        crate::bignat::pow2(0) == 1,
{
    reveal_with_fuel(crate::bignat::pow2, 24);
}

/// The mantissa of `top / bottom` in single precision, and its scale.
fn single_of(top: u64, bottom: u64) -> (r: (u64, u64))
    requires
        0 < bottom <= top < 0x1_0000_0000,
        bottom <= 0x80_0000,
        top < bottom * 0x1_0000,
    ensures
        r.0 == single(top as int, bottom as int),
        r.1 == single_scale(top as int, bottom as int),
        0 < r.1 <= 0x80_0000,
        r.1 <= r.0 <= 0x100_0000,
        top <= 255 * bottom ==> r.0 <= 255 * r.1,
{
    let mut unit: u64 = bottom;
    let mut scale: u64 = 0x80_0000;
    let ghost mut e: nat = 0;
    proof {
        scales();
        assert(bottom * 1 == bottom && 0x80_0000 * 1 == 0x80_0000) by (nonlinear_arith);
    }
    while top >= 2 * unit
        invariant
            0 < bottom <= unit <= top < 0x1_0000_0000,
            bottom <= 0x80_0000,
            e <= 16,
            unit == bottom * crate::bignat::pow2(e),
            scale == crate::bignat::pow2((23 - e) as nat),
            scale * crate::bignat::pow2(e) == 0x80_0000,
            top < bottom * 0x1_0000,
            magnitude(top as int, bottom as int) == e + magnitude(top as int, unit as int),
        decreases top - unit,
    {
        let ghost p = crate::bignat::pow2(e);
        let ghost s = crate::bignat::pow2((22 - e) as nat);
        proof {
            scales();
            assert(e < 16);
            assert(crate::bignat::pow2(e + 1) == 2 * p);
            assert(bottom * (2 * p) == 2 * (bottom * p)) by (nonlinear_arith);
            assert(crate::bignat::pow2((23 - e) as nat) == 2 * s);
            assert((2 * s) * p == s * (2 * p)) by (nonlinear_arith);
        }
        unit = 2 * unit;
        scale = scale / 2;
        proof {
            e = e + 1;
            assert((23 - e) as nat == (22 - (e - 1)) as nat);
        }
    }
    proof {
        let p = crate::bignat::pow2(e);
        let s = scale as int;
        assert(s > 0 && s <= 0x80_0000) by (nonlinear_arith)
            requires
                s * p == 0x80_0000,
                s >= 0,
                p >= 0,
        ;
        assert(top * s < 0x8000_0000_0000_0000) by (nonlinear_arith)
            requires
                0 <= top < 0x1_0000_0000,
                0 < s <= 0x80_0000,
        ;
        assert(top * s >= s * bottom) by (nonlinear_arith)
            requires
                top >= bottom,
                s > 0,
        ;
        assert(top * s <= 0x100_0000 * bottom) by (nonlinear_arith)
            requires
                top <= 2 * (bottom * p),
                s * p == 0x80_0000,
                s > 0,
        ;
        crate::color::quantise::rounds_at_least(top * s, bottom as int, s);
        crate::color::quantise::rounds_at_most(top * s, bottom as int, 0x100_0000);
        if top <= 255 * bottom {
            assert(top * s <= (255 * s) * bottom) by (nonlinear_arith)
                requires
                    top <= 255 * bottom,
                    s > 0,
            ;
            crate::color::quantise::rounds_at_most(top * s, bottom as int, 255 * s);
        }
    }
    (round_even(top * scale, bottom), scale)
}

fn restore_channel(c: u8, a: u8) -> (r: u8)
    requires
        0 < a < 255,
    ensures
        r == restored_channel(c, a),
{
    if c == 0 {
        return 0;
    }
    let (factor, unit) = single_of(255, a as u64);
    proof {
        let f = factor as int;
        let u = unit as int;
        let n = c as int;
        assert(u <= n * f && n * f <= 255 * f && n * f < u * 0x1_0000) by (nonlinear_arith)
            requires
                1 <= n <= 255,
                0 < u <= f,
                f <= 255 * u,
        ;
    }
    let (product, scale) = single_of(c as u64 * factor, unit);
    let whole: u64 = (2 * product + scale) / (2 * scale);
    if whole >= 255 {
        255
    } else {
        whole as u8
    }
}

/// Undoes [`premultiply`]. A transparent or an opaque colour is unchanged.
pub fn unpremultiply(c: Color) -> (r: Color)
    ensures
        r == unpremultiplied(c),
{
    if c.a == 255 || c.a == 0 {
        return c;
    }
    Color {
        r: restore_channel(c.r, c.a),
        g: restore_channel(c.g, c.a),
        b: restore_channel(c.b, c.a),
        a: c.a,
    }
}

/// Premultiplying keeps the alpha, leaves an opaque colour as it is and
/// collapses a transparent one; no channel exceeds the alpha.
pub proof fn premultiplying_scales_down(c: Color)
    ensures
        premultiplied(c).a == c.a,
        c.a == 255 ==> premultiplied(c) == c,
        c.a == 0 ==> premultiplied(c) == (Color { r: 0, g: 0, b: 0, a: 0 }),
        premultiplied(c).r <= c.a,
        premultiplied(c).g <= c.a,
        premultiplied(c).b <= c.a,
{
    scaled_below(c.r, c.a);
    scaled_below(c.g, c.a);
    scaled_below(c.b, c.a);
}

proof fn scaled_below(c: u8, a: u8)
    ensures
        scaled_channel(c, a) <= a,
{
    assert(0 <= 2 * c * a <= 510 * a) by (nonlinear_arith)
        requires
            0 <= c <= 255,
            0 <= a,
    ;
}

} // verus!
