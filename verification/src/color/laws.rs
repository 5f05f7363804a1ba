//! What holds of colours as a whole.

use vstd::prelude::*;

use crate::color::Color;
use crate::number::NumeralView;

verus! {

proof fn hex_digits_have_no_case(c: char)
    ensures
        crate::color::parse::is_hex(crate::text::lower_char(c)) == crate::color::parse::is_hex(c),
        crate::color::parse::is_hex(c) ==> crate::color::parse::hex_value(crate::text::lower_char(c))
            == crate::color::parse::hex_value(c),
{
}

/// Hexadecimal digits mean the same in either case.
pub proof fn hex_has_no_case(s: Seq<char>)
    ensures
        crate::color::parse::hex_color(crate::text::lowered(s)) == crate::color::parse::hex_color(
            s,
        ),
{
    let l = crate::text::lowered(s);
    assert forall|i: int| 0 <= i < s.len() implies crate::color::parse::is_hex(#[trigger] l[i])
        == crate::color::parse::is_hex(s[i]) && (crate::color::parse::is_hex(s[i])
        ==> crate::color::parse::hex_value(l[i]) == crate::color::parse::hex_value(s[i])) by {
        hex_digits_have_no_case(s[i]);
    }
    if forall|i: int| 0 <= i < s.len() ==> crate::color::parse::is_hex(#[trigger] s[i]) {
        assert(forall|i: int| 0 <= i < l.len() ==> crate::color::parse::is_hex(#[trigger] l[i]));
    } else {
        let k = choose|i: int| 0 <= i < s.len() && !crate::color::parse::is_hex(#[trigger] s[i]);
        assert(!crate::color::parse::is_hex(l[k]));
    }
}

/// Neither the white space around a colour nor the case of its letters matters:
/// texts that differ in these alone parse to the same value, or both to none.
pub proof fn case_and_space_do_not_matter(s: Seq<char>, t: Seq<char>)
    requires
        crate::text::keyword_form(s) == crate::text::keyword_form(t),
    ensures
        match (
            crate::color::parse::color_outcome(s),
            crate::color::parse::color_outcome(t),
        ) {
            (Ok(a), Ok(b)) => a == b,
            (Err(_), Err(_)) => true,
            _ => false,
        },
{
    let a = crate::text::trimmed(s);
    let b = crate::text::trimmed(t);
    let l = crate::text::lowered(a);
    assert(a.len() == l.len() && b.len() == l.len());
    if l.len() > 0 {
        assert(l[0] == crate::text::lower_char(a[0]));
        assert(l[0] == crate::text::lower_char(b[0]));
        hex_has_no_case(a.skip(1));
        hex_has_no_case(b.skip(1));
        assert(crate::text::lowered(a.skip(1)) =~= l.skip(1));
        assert(crate::text::lowered(b.skip(1)) =~= crate::text::lowered(b).skip(1));
    }
}

/// Each digit of `s`, twice.
pub open spec fn doubled(s: Seq<char>) -> Seq<char> {
    Seq::new(2 * s.len(), |i: int| s[i / 2])
}

/// One hexadecimal digit per channel stands for that digit twice.
pub proof fn short_hex_doubles_its_digits(s: Seq<char>)
    requires
        s.len() == 3 || s.len() == 4,
    ensures
        crate::color::parse::hex_color(s) == crate::color::parse::hex_color(doubled(s)),
{
    let d = doubled(s);
    if forall|i: int| 0 <= i < s.len() ==> crate::color::parse::is_hex(#[trigger] s[i]) {
        assert forall|i: int| 0 <= i < d.len() implies crate::color::parse::is_hex(
            #[trigger] d[i],
        ) by {
            assert(crate::color::parse::is_hex(s[i / 2]));
        }
    } else {
        let k = choose|i: int| 0 <= i < s.len() && !crate::color::parse::is_hex(#[trigger] s[i]);
        assert(d[2 * k] == s[k]);
        assert(!crate::color::parse::is_hex(d[2 * k]));
    }
}

/// The value of a decimal has a positive denominator.
proof fn bottom_is_positive(n: NumeralView)
    ensures
        n.bottom() > 0,
{
    if let NumeralView::Finite { negative, digits, exponent } = n {
        if exponent < 0 {
            crate::bignat::pow10_positive((-exponent) as nat);
        }
    }
}

/// A channel outside the gamut is clamped, and a whole one inside it is kept.
pub proof fn channels_are_clamped(n: NumeralView, k: int)
    requires
        n is Finite,
    ensures
        n.top() <= 0 ==> crate::color::quantise::channel(n, 1, 1) == 0,
        n.top() >= 255 * n.bottom() ==> crate::color::quantise::channel(n, 1, 1) == 255,
        0 <= k <= 255 && n.top() == k * n.bottom() ==> crate::color::quantise::channel(n, 1, 1)
            == k,
{
    bottom_is_positive(n);
    let t = n.top();
    let b = n.bottom();
    let w = crate::color::double::one();
    let u = crate::color::double::units(n);
    let v = crate::color::double::fit(u, 1);
    crate::number::pow2_grows(0, 1074);
    assert(v * 1 == v && 0 * w == 0 && u * 1 == u) by (nonlinear_arith);
    if t <= 0 {
        assert(t * w <= 0) by (nonlinear_arith)
            requires
                t <= 0,
                w > 0,
        ;
        crate::color::double::fit_keeps_the_sign(t * w, b);
        crate::color::double::fit_keeps_the_sign(u, 1);
        crate::color::double::fit_keeps_the_sign(v, 1);
        crate::color::quantise::rounds_at_most(crate::color::double::fit(v, 1), w, 0);
    }
    if t >= 255 * b {
        assert(t * w >= 255 * w * b && t * w >= 0) by (nonlinear_arith)
            requires
                t >= 255 * b,
                b > 0,
                w > 0,
        ;
        crate::color::double::doubles_bound(t * w, b, 255, 1074);
        crate::color::double::doubles_bound(u, 1, 255, 1074);
        crate::color::double::doubles_bound(v, 1, 255, 1074);
        crate::color::quantise::rounds_at_least(crate::color::double::fit(v, 1), w, 255);
    }
    if 0 <= k <= 255 && t == k * b {
        assert(t * w == k * w * b && k * w * 1 == k * w) by (nonlinear_arith)
            requires
                t == k * b,
        ;
        crate::color::double::doubles_fit(k, 1074, b);
        crate::color::double::doubles_fit(k, 1074, 1);
        crate::color::quantise::rounds_at_most(k * w, w, k);
        crate::color::quantise::rounds_at_least(k * w, w, k);
    }
}

/// A hue lies in `[0, 360)`, whatever unit of `a / b` degrees it is written in.
pub proof fn hues_lie_in_a_circle(n: NumeralView, a: int, b: int)
    requires
        b > 0,
    ensures
        crate::color::quantise::hue(n, a, b) matches Some(h) ==> 0 <= h < 360
            * crate::color::double::one(),
{
    if crate::color::quantise::hue(n, a, b) is Some {
        let degrees = crate::color::double::fit(crate::color::double::units(n) * a, b);
        let circle = 360 * crate::color::double::one();
        crate::number::pow2_grows(0, 1074);
        vstd::arithmetic::div_mod::lemma_mod_bound(degrees, circle);
        vstd::arithmetic::div_mod::lemma_mod_bound(-degrees, circle);
        crate::color::double::fit_keeps_the_sign(circle - (-degrees) % circle, 1);
    }
}

/// What a double leaves over a circle is a double.
proof fn remainders_are_doubles(a: int, j: nat)
    requires
        0 <= a <= 0x20_0000_0000_0000,
    ensures
        ({
            let rest = (a * crate::bignat::pow2(j)) % (360 * crate::color::double::one());
            crate::color::double::fit(rest, 1) == rest
        }),
{
    let one = crate::color::double::one();
    let i: nat = if j <= 1074 {
        j
    } else {
        1074
    };
    let w = crate::bignat::pow2(i) as int;
    let x = crate::bignat::pow2((j - i) as nat) as int;
    let y = crate::bignat::pow2((1074 - i) as nat) as int;
    crate::number::pow2_sum((j - i) as nat, i);
    crate::number::pow2_sum((1074 - i) as nat, i);
    crate::number::pow2_grows(0, i);
    crate::number::pow2_grows(0, (j - i) as nat);
    crate::number::pow2_grows(0, (1074 - i) as nat);
    let many = a * x;
    let circle = 360 * y;
    assert(a * (x * w) == many * w && 360 * (y * w) == circle * w) by (nonlinear_arith)
        requires
            many == a * x,
            circle == 360 * y,
    ;
    assert(many >= 0) by (nonlinear_arith)
        requires
            many == a * x,
            a >= 0,
            x >= 1,
    ;
    let q = many / circle;
    let r = many % circle;
    vstd::arithmetic::div_mod::lemma_fundamental_div_mod(many, circle);
    vstd::arithmetic::div_mod::lemma_mod_bound(many, circle);
    assert(many * w == q * (circle * w) + r * w) by (nonlinear_arith)
        requires
            many == circle * q + r,
    ;
    assert(0 <= r * w < circle * w) by (nonlinear_arith)
        requires
            0 <= r < circle,
            w >= 1,
    ;
    vstd::arithmetic::div_mod::lemma_fundamental_div_mod_converse(
        many * w,
        circle * w,
        q,
        r * w,
    );
    if j <= 1074 {
        assert(x == 1);
        assert(a * 1 == a) by (nonlinear_arith);
        vstd::arithmetic::div_mod::lemma_mod_decreases(many as nat, circle as nat);
    } else {
        assert(y == 1);
    }
    crate::color::double::doubles_fit(r, i, 1);
    assert(r * w * 1 == r * w) by (nonlinear_arith);
}

/// Full turns do not change a hue: an angle of at least zero that a double holds
/// and that angle some turns on, or back, are the same hue.
pub proof fn hues_wrap(degrees: int, turns: int)
    requires
        degrees >= 0,
        crate::color::double::fit(degrees, 1) == degrees,
    ensures
        crate::color::quantise::around(degrees + turns * (360 * crate::color::double::one()))
            == crate::color::quantise::around(degrees),
{
    let circle = 360 * crate::color::double::one();
    let sum = degrees + turns * circle;
    let rest = degrees % circle;
    crate::number::pow2_grows(0, 1074);
    assert(turns * circle == circle * turns) by (nonlinear_arith);
    vstd::arithmetic::div_mod::lemma_mod_multiples_vanish(turns, degrees, circle);
    vstd::arithmetic::div_mod::lemma_mod_bound(degrees, circle);
    if sum < 0 {
        let k = crate::color::double::excess(degrees, 1);
        let p = crate::bignat::pow2(k) as int;
        crate::color::double::mantissas_are_short(degrees, 1);
        assert(1 * p == p) by (nonlinear_arith);
        remainders_are_doubles(crate::color::quantise::rounded(degrees, p), k);
        crate::color::quantise::negative_remainder(-sum, circle);
        crate::color::double::doubles_fit(360, 1074, 1);
    }
}

/// Without saturation a colour is grey.
pub proof fn no_saturation_is_grey(h: Option<int>, l: int)
    ensures
        ({
            let (r, g, b) = crate::color::hsl::converted(h, Some(0), Some(l));
            r == g && g == b
        }),
{
}

/// No lightness is black and full lightness is white, whatever the hue and the
/// saturation.
pub proof fn lightness_ends_in_black_and_white(h: int, s: int)
    ensures
        crate::color::hsl::converted(Some(h), Some(s), Some(0)) == (0u8, 0u8, 0u8),
        crate::color::hsl::converted(Some(h), Some(s), Some(crate::color::double::one())) == (
            255u8,
            255u8,
            255u8,
        ),
{
    let w = crate::color::double::one();
    reveal(crate::color::hsl::mixed);
    let sectors = crate::color::double::fit(h, 60);
    crate::number::pow2_grows(0, 1074);
    assert((-1) * w * 1 == -w && 1 * w * 1 == w && 255 * w * 1 == 255 * w && 0 * w == 0
        && (-1) * w == -w) by (nonlinear_arith);
    crate::color::double::doubles_fit(-1, 1074, 1);
    crate::color::double::doubles_fit(1, 1074, 1);
    crate::color::double::doubles_fit(255, 1074, 1);
    crate::color::double::fit_keeps_the_sign(0, 1);
    crate::color::double::fit_keeps_the_sign(0, 2);
    crate::color::double::fit_keeps_the_sign(0, w);
    let ramp = crate::color::hsl::ramp(sectors);
    assert(0 * s == 0 && 0 * ramp == 0) by (nonlinear_arith);
    assert(crate::color::hsl::chroma(s, 0) == 0);
    assert(crate::color::hsl::chroma(s, w) == 0);
    crate::color::quantise::rounds_at_most(0, w, 0);
    crate::color::quantise::rounds_at_least(255 * w, w, 255);
    assert(crate::color::hsl::shade(0) == 0);
    assert(crate::color::hsl::shade(w) == 255);
    assert(crate::color::hsl::mix(sectors, s, 0) == (crate::color::hsl::Mix {
        full: 0,
        partial: 0,
        base: 0,
    }));
    assert(crate::color::hsl::mix(sectors, s, w) == (crate::color::hsl::Mix {
        full: 0,
        partial: 0,
        base: w,
    }));
}

proof fn magnitude_is_small(top: int, bottom: int, k: nat)
    requires
        0 < bottom,
        top < bottom * crate::bignat::pow2(k + 1),
    ensures
        crate::color::alpha::magnitude(top, bottom) <= k,
    decreases k,
{
    let p = crate::bignat::pow2(k);
    assert(crate::bignat::pow2(k + 1) == 2 * p);
    assert(bottom * (2 * p) == (2 * bottom) * p) by (nonlinear_arith);
    if top >= 2 * bottom {
        if k == 0 {
            assert((2 * bottom) * 1 == 2 * bottom) by (nonlinear_arith);
        } else {
            magnitude_is_small(top, 2 * bottom, (k - 1) as nat);
        }
    }
}

/// A rounded fraction is within a half of it.
proof fn rounding_is_near(top: int, bottom: int)
    requires
        bottom > 0,
    ensures
        ({
            let r = crate::color::quantise::rounded(top, bottom);
            2 * top - bottom <= 2 * (r * bottom) <= 2 * top + bottom
        }),
{
    let below = top / bottom;
    vstd::arithmetic::div_mod::lemma_fundamental_div_mod(top, bottom);
    assert(bottom * below == below * bottom) by (nonlinear_arith);
    assert((below + 1) * bottom == below * bottom + bottom) by (nonlinear_arith);
}

proof fn channel_returns(c: u8, a: u8)
    requires
        128 <= a < 255,
    ensures
        ({
            let back = crate::color::alpha::restored_channel(
                crate::color::alpha::scaled_channel(c, a),
                a,
            );
            c - 1 <= back <= c + 1
        }),
{
    let p = crate::color::alpha::scaled_channel(c, a);
    let n = c as int;
    let x = a as int;
    assert(0 <= n * x <= 255 * 254) by (nonlinear_arith)
        requires
            0 <= n <= 255,
            0 <= x <= 254,
    ;
    assert(2 * c * a == 2 * (n * x)) by (nonlinear_arith)
        requires
            n == c,
            x == a,
    ;
    assert(510 * p <= 2 * (n * x) + 255 < 510 * p + 510);
    if p == 0 {
        assert(n <= 1) by (nonlinear_arith)
            requires
                2 * (n * x) < 255,
                x >= 128,
                n >= 0,
        ;
    } else {
        reveal_with_fuel(crate::bignat::pow2, 24);
        let f = crate::color::alpha::single(255, x);
        let u = crate::color::alpha::single_scale(255, x);
        assert(crate::color::alpha::magnitude(255, x) == 0);
        assert(u == 0x80_0000);
        rounding_is_near(255 * u, x);
        let q = p as int;
        assert(f <= 2 * u) by (nonlinear_arith)
            requires
                2 * (f * x) <= 2 * (255 * u) + x,
                x >= 128,
                u == 0x80_0000,
        ;
        assert(255 * u >= u * x) by (nonlinear_arith)
            requires
                x <= 254,
                u == 0x80_0000,
        ;
        crate::color::quantise::rounds_at_least(255 * u, x, u);
        let t = q * f;
        assert(0 < t < u * 0x1_0000) by (nonlinear_arith)
            requires
                t == q * f,
                1 <= q <= 255,
                0 < u <= f <= 2 * u,
        ;
        magnitude_is_small(t, u, 15);
        let s = crate::color::alpha::single_scale(t, u);
        small_scale(crate::color::alpha::magnitude(t, u));
        assert(s >= 256);
        let w = crate::color::alpha::single(t, u);
        rounding_is_near(t * s, u);
        errors_stay_small(n, x, q, f, u, s, w);
        let back = (2 * w + s) / (2 * s);
        vstd::arithmetic::div_mod::lemma_fundamental_div_mod(2 * w + s, 2 * s);
        assert(back <= n + 1) by (nonlinear_arith)
            requires
                (2 * s) * back <= 2 * w + s,
                2 * w < s * (2 * n + 3),
                s > 0,
        ;
        assert(back >= n - 1) by (nonlinear_arith)
            requires
                (2 * s) * back > 2 * w + s - 2 * s,
                2 * w >= s * (2 * n - 3),
                s > 0,
        ;
    }
}

proof fn small_scale(e: nat)
    requires
        e <= 15,
    ensures
        crate::bignat::pow2((23 - e) as nat) >= 256,
    decreases 15 - e,
{
    reveal_with_fuel(crate::bignat::pow2, 9);
    if e < 15 {
        small_scale(e + 1);
        assert(crate::bignat::pow2((23 - e) as nat) == 2 * crate::bignat::pow2(
            (23 - (e + 1)) as nat,
        ));
    }
}

proof fn errors_stay_small(n: int, x: int, q: int, f: int, u: int, s: int, w: int)
    requires
        0 <= n <= 255,
        128 <= x <= 254,
        1 <= q <= 255,
        510 * q <= 2 * (n * x) + 255 < 510 * q + 510,
        u == 0x80_0000,
        s >= 256,
        2 * (255 * u) - x <= 2 * (f * x) <= 2 * (255 * u) + x,
        2 * ((q * f) * s) - u <= 2 * (w * u) <= 2 * ((q * f) * s) + u,
    ensures
        s * (2 * n - 3) <= 2 * w < s * (2 * n + 3),
{
    // Everything over the common factor `u * x`.
    let qs = q * s;
    assert((q * f) * s == qs * f) by (nonlinear_arith)
        requires
            qs == q * s,
    ;
    assert(qs > 0) by (nonlinear_arith)
        requires
            qs == q * s,
            q >= 1,
            s >= 256,
    ;
    let g = 2 * (w * u) * x;
    assert(g <= 2 * (qs * f) * x + u * x && g >= 2 * (qs * f) * x - u * x) by (nonlinear_arith)
        requires
            g == 2 * (w * u) * x,
            2 * (qs * f) - u <= 2 * (w * u) <= 2 * (qs * f) + u,
            x >= 128,
    ;
    assert(2 * (qs * f) * x == qs * (2 * (f * x))) by (nonlinear_arith);
    assert(qs * (2 * (f * x)) <= qs * (510 * u) + qs * x && qs * (2 * (f * x)) >= qs * (510 * u)
        - qs * x) by (nonlinear_arith)
        requires
            2 * (255 * u) - x <= 2 * (f * x) <= 2 * (255 * u) + x,
            qs > 0,
    ;
    let su = s * u;
    assert(su >= 0) by (nonlinear_arith)
        requires
            su == s * u,
            s >= 256,
            u == 0x80_0000,
    ;
    assert(qs * (510 * u) == su * (510 * q)) by (nonlinear_arith)
        requires
            qs == q * s,
            su == s * u,
    ;
    assert(su * (510 * q) <= su * (2 * (n * x) + 255) && su * (510 * q) >= su * (2 * (n * x)
        - 255)) by (nonlinear_arith)
        requires
            510 * q <= 2 * (n * x) + 255,
            510 * q >= 2 * (n * x) - 255,
            su >= 0,
    ;
    // The three errors together stay below three times `s * u * x`.
    assert(su * 255 * 100 <= su * x * 200) by (nonlinear_arith)
        requires
            x >= 128,
            su >= 0,
    ;
    assert(qs * x * 1000 <= su * x) by (nonlinear_arith)
        requires
            qs == q * s,
            su == s * u,
            q <= 255,
            u == 0x80_0000,
            x >= 128,
            s >= 256,
    ;
    assert(u * x * 256 <= su * x) by (nonlinear_arith)
        requires
            su == s * u,
            s >= 256,
            u == 0x80_0000,
            x >= 128,
    ;
    assert(su * (2 * (n * x) + 255) == su * x * (2 * n) + su * 255) by (nonlinear_arith);
    assert(su * (2 * (n * x) - 255) == su * x * (2 * n) - su * 255) by (nonlinear_arith);
    let y = su * x;
    assert(y > 0) by (nonlinear_arith)
        requires
            y == su * x,
            su == s * u,
            s >= 256,
            u == 0x80_0000,
            x >= 128,
    ;
    assert(g < y * (2 * n) + 3 * y && g > y * (2 * n) - 3 * y);
    assert(2 * w < s * (2 * n + 3)) by (nonlinear_arith)
        requires
            2 * (w * u) * x < (s * u * x) * (2 * n) + 3 * (s * u * x),
            u == 0x80_0000,
            x >= 128,
    ;
    assert(2 * w >= s * (2 * n - 3)) by (nonlinear_arith)
        requires
            2 * (w * u) * x > (s * u * x) * (2 * n) - 3 * (s * u * x),
            u == 0x80_0000,
            x >= 128,
    ;
}

/// Undoing the premultiplication of a colour that is at least half opaque
/// brings every channel back to within one, and the alpha exactly.
pub proof fn premultiplying_can_be_undone(c: Color)
    requires
        c.a >= 128,
    ensures
        ({
            let back = crate::color::alpha::unpremultiplied(crate::color::alpha::premultiplied(c));
            &&& back.a == c.a
            &&& c.r - 1 <= back.r <= c.r + 1
            &&& c.g - 1 <= back.g <= c.g + 1
            &&& c.b - 1 <= back.b <= c.b + 1
        }),
{
    if c.a < 255 {
        channel_returns(c.r, c.a);
        channel_returns(c.g, c.a);
        channel_returns(c.b, c.a);
    }
}

/// `bottom` can be doubled that often without passing `top`.
proof fn magnitude_fits(top: int, bottom: int)
    requires
        0 < bottom <= top,
    ensures
        bottom * crate::bignat::pow2(crate::color::alpha::magnitude(top, bottom)) <= top,
    decreases top - bottom,
{
    let m = crate::color::alpha::magnitude(top, bottom);
    if top < 2 * bottom {
        assert(bottom * 1 == bottom) by (nonlinear_arith);
    } else {
        magnitude_fits(top, 2 * bottom);
        let p = crate::bignat::pow2((m - 1) as nat);
        assert(bottom * (2 * p) == (2 * bottom) * p) by (nonlinear_arith);
    }
}

/// A power of two in two factors.
proof fn scale_and_magnitude(m: nat)
    requires
        m <= 23,
    ensures
        crate::bignat::pow2((23 - m) as nat) * crate::bignat::pow2(m) == 0x80_0000,
    decreases m,
{
    if m == 0 {
        reveal_with_fuel(crate::bignat::pow2, 24);
        assert(crate::bignat::pow2(23) == 0x80_0000);
        assert(crate::bignat::pow2(0) == 1);
    } else {
        scale_and_magnitude((m - 1) as nat);
        let s = crate::bignat::pow2((23 - m) as nat);
        let p = crate::bignat::pow2((m - 1) as nat);
        assert(crate::bignat::pow2((23 - (m - 1)) as nat) == 2 * s);
        assert(crate::bignat::pow2(m) == 2 * p);
        assert((2 * s) * p == s * (2 * p)) by (nonlinear_arith);
    }
}

proof fn large_scale(e: nat)
    requires
        e <= 7,
    ensures
        crate::bignat::pow2((23 - e) as nat) >= 0x1_0000,
    decreases 7 - e,
{
    if e < 7 {
        large_scale(e + 1);
        assert(crate::bignat::pow2((23 - e) as nat) == 2 * crate::bignat::pow2(
            (23 - (e + 1)) as nat,
        ));
    } else {
        reveal_with_fuel(crate::bignat::pow2, 17);
    }
}

/// The errors of the restored channel `b` of `c` under the alpha `x`.
proof fn restoring_errs_little(c: int, x: int, f: int, u: int, s: int, w: int, b: int)
    requires
        1 <= c <= x <= 254,
        c * 0x8000 <= u,
        s >= 0x1_0000,
        2 * (255 * u) - x <= 2 * (f * x) <= 2 * (255 * u) + x,
        2 * ((c * f) * s) - u <= 2 * (w * u) <= 2 * ((c * f) * s) + u,
        2 * s * b <= 2 * w + s < 2 * s * b + 2 * s,
    ensures
        0x1_0000 * (2 * (b * x) - 510 * c) <= 0x1_0003 * x,
        0x1_0000 * (510 * c - 2 * (b * x)) <= 0x1_0003 * x,
{
    let cs = c * s;
    assert(cs > 0) by (nonlinear_arith)
        requires
            cs == c * s,
            c >= 1,
            s >= 0x1_0000,
    ;
    assert(u > 0);
    assert((c * f) * s == cs * f) by (nonlinear_arith)
        requires
            cs == c * s,
    ;
    let g = 2 * (w * u) * x;
    assert(2 * (cs * f) * x - u * x <= g <= 2 * (cs * f) * x + u * x) by (nonlinear_arith)
        requires
            g == 2 * (w * u) * x,
            2 * (cs * f) - u <= 2 * (w * u) <= 2 * (cs * f) + u,
            x >= 1,
    ;
    assert(2 * (cs * f) * x == cs * (2 * (f * x))) by (nonlinear_arith);
    assert(cs * (510 * u) - cs * x <= cs * (2 * (f * x)) <= cs * (510 * u) + cs * x)
        by (nonlinear_arith)
        requires
            2 * (255 * u) - x <= 2 * (f * x) <= 2 * (255 * u) + x,
            cs > 0,
    ;
    let y = s * u * x;
    assert(0x8000 * (cs * x) <= y) by (nonlinear_arith)
        requires
            cs == c * s,
            y == s * u * x,
            c * 0x8000 <= u,
            s >= 0x1_0000,
            x >= 1,
    ;
    assert(0x1_0000 * (u * x) <= y) by (nonlinear_arith)
        requires
            y == s * u * x,
            s >= 0x1_0000,
            u > 0,
            x >= 1,
    ;
    let d = cs * (510 * u);
    assert(0x1_0000 * (g - d) <= 3 * y && 0x1_0000 * (d - g) <= 3 * y);
    // Divided by `u`.
    let e = 2 * (w * x) - 510 * cs;
    assert(g - d == u * e) by (nonlinear_arith)
        requires
            g == 2 * (w * u) * x,
            d == cs * (510 * u),
            e == 2 * (w * x) - 510 * cs,
    ;
    let z = s * x;
    assert(y == u * z) by (nonlinear_arith)
        requires
            y == s * u * x,
            z == s * x,
    ;
    assert(0x1_0000 * e <= 3 * z) by (nonlinear_arith)
        requires
            0x1_0000 * (u * e) <= 3 * (u * z),
            u > 0,
    ;
    assert(0x1_0000 * (-e) <= 3 * z) by (nonlinear_arith)
        requires
            0x1_0000 * (-(u * e)) <= 3 * (u * z),
            u > 0,
    ;
    // And by `s`.
    let h = 2 * (w * x) - 2 * s * b * x;
    assert(-z <= h <= z) by (nonlinear_arith)
        requires
            h == 2 * (w * x) - 2 * s * b * x,
            z == s * x,
            2 * s * b <= 2 * w + s < 2 * s * b + 2 * s,
            x >= 1,
    ;
    let k = 2 * (b * x) - 510 * c;
    assert(s * k == e - h) by (nonlinear_arith)
        requires
            k == 2 * (b * x) - 510 * c,
            e == 2 * (w * x) - 510 * cs,
            cs == c * s,
            h == 2 * (w * x) - 2 * s * b * x,
    ;
    assert(0x1_0000 * k <= 0x1_0003 * x) by (nonlinear_arith)
        requires
            0x1_0000 * (s * k) <= 0x1_0003 * (s * x),
            s > 0,
    ;
    assert(0x1_0000 * (-k) <= 0x1_0003 * x) by (nonlinear_arith)
        requires
            0x1_0000 * (-(s * k)) <= 0x1_0003 * (s * x),
            s > 0,
    ;
}

/// A channel that does not exceed the alpha survives being restored and scaled.
proof fn channel_survives(c: u8, a: u8)
    requires
        0 < a < 255,
        c <= a,
    ensures
        crate::color::alpha::scaled_channel(crate::color::alpha::restored_channel(c, a), a) == c,
{
    if c > 0 {
        let n = c as int;
        let x = a as int;
        let m = crate::color::alpha::magnitude(255, x);
        assert(crate::bignat::pow2(7nat + 1) == 256) by {
            reveal_with_fuel(crate::bignat::pow2, 9);
        }
        assert(x * 256 > 255);
        magnitude_is_small(255, x, 7);
        magnitude_fits(255, x);
        scale_and_magnitude(m);
        large_scale(m);
        let u = crate::color::alpha::single_scale(255, x);
        let p = crate::bignat::pow2(m) as int;
        assert(p > 0) by (nonlinear_arith)
            requires
                u * p == 0x80_0000,
                p >= 0,
        ;
        assert(n * 0x8000 <= u) by (nonlinear_arith)
            requires
                u * p == 0x80_0000,
                x * p <= 255,
                0 < n <= x,
                p > 0,
                u > 0,
        ;
        let f = crate::color::alpha::single(255, x);
        rounding_is_near(255 * u, x);
        let t = n * f;
        assert(0 < t && t < u * 256) by (nonlinear_arith)
            requires
                t == n * f,
                2 * (255 * u) - x <= 2 * (f * x) <= 2 * (255 * u) + x,
                0 < n <= x <= 254,
                u >= 0x8000,
        ;
        magnitude_is_small(t, u, 7);
        large_scale(crate::color::alpha::magnitude(t, u));
        let s = crate::color::alpha::single_scale(t, u);
        let w = crate::color::alpha::single(t, u);
        rounding_is_near(t * s, u);
        let b = (2 * w + s) / (2 * s);
        vstd::arithmetic::div_mod::lemma_fundamental_div_mod(2 * w + s, 2 * s);
        restoring_errs_little(n, x, f, u, s, w, b);
        assert(0 <= b <= 255) by (nonlinear_arith)
            requires
                0x1_0000 * (2 * (b * x) - 510 * n) <= 0x1_0003 * x,
                0x1_0000 * (510 * n - 2 * (b * x)) <= 0x1_0003 * x,
                1 <= n <= x,
        ;
        assert(crate::color::alpha::restored_channel(c, a) == b);
        assert(2 * b * x == 2 * (b * x)) by (nonlinear_arith);
    } else {
        assert(2 * 0 * a == 0) by (nonlinear_arith);
    }
}

/// A colour none of whose channels exceeds its alpha comes back exactly when its
/// premultiplication is undone and done again.
pub proof fn unpremultiplying_can_be_undone(c: Color)
    requires
        c.r <= c.a,
        c.g <= c.a,
        c.b <= c.a,
    ensures
        crate::color::alpha::premultiplied(crate::color::alpha::unpremultiplied(c)) == c,
{
    if 0 < c.a < 255 {
        channel_survives(c.r, c.a);
        channel_survives(c.g, c.a);
        channel_survives(c.b, c.a);
    }
}

/// A hue that lies a third of a circle on has the same parts, each one channel on:
/// what red had, green has, and what blue had, red has. A hue as far to the other
/// side of red has green and blue exchanged. Near red, red has the most and blue
/// nothing.
pub proof fn hues_turn_the_channels(sector: int, m: crate::color::hsl::Mix)
    requires
        0 <= sector < 6,
    ensures
        ({
            let (r, g, b) = crate::color::hsl::placed(sector, m);
            let on = if sector < 4 {
                sector + 2
            } else {
                sector - 4
            };
            &&& crate::color::hsl::placed(on, m) == (b, r, g)
            &&& crate::color::hsl::placed(5 - sector, m) == (r, b, g)
            &&& sector == 0 ==> r == m.full && g == m.partial && b == 0
        }),
{
}

/// Between two hues the middle part goes up and down: it is nothing at an even number
/// of sectors and whole at an odd one, and it is the same two sectors on.
pub proof fn middle_parts_go_up_and_down(sectors: int, pairs: int)
    ensures
        crate::color::hsl::ramp(sectors + pairs * (2 * crate::color::double::one()))
            == crate::color::hsl::ramp(sectors),
        crate::color::hsl::ramp(pairs * (2 * crate::color::double::one())) == 0,
        crate::color::hsl::ramp(
            pairs * (2 * crate::color::double::one()) + crate::color::double::one(),
        ) == crate::color::double::one(),
{
    let w = crate::color::double::one();
    let pair = 2 * w;
    crate::number::pow2_grows(0, 1074);
    assert(pairs * pair == pair * pairs) by (nonlinear_arith);
    vstd::arithmetic::div_mod::lemma_mod_multiples_vanish(pairs, sectors, pair);
    vstd::arithmetic::div_mod::lemma_mod_multiples_vanish(pairs, 0, pair);
    vstd::arithmetic::div_mod::lemma_mod_multiples_vanish(pairs, w, pair);
    vstd::arithmetic::div_mod::lemma_small_mod(0, pair as nat);
    vstd::arithmetic::div_mod::lemma_small_mod(w as nat, pair as nat);
    assert((-1) * w * 1 == -w && 1 * w * 1 == w && (-1) * w == -w && 1 * w == w)
        by (nonlinear_arith);
    crate::color::double::doubles_fit(-1, 1074, 1);
    crate::color::double::doubles_fit(1, 1074, 1);
    crate::color::double::fit_keeps_the_sign(0, 1);
}

/// A colour and its counterpart that is as light as the first is dark are as colourful
/// as each other. Half light, a colour is as colourful as it is saturated.
pub proof fn middle_lightness_is_most_colourful(s: int, l: int)
    ensures
        crate::color::hsl::chroma(s, crate::color::double::one() - l) == crate::color::hsl::chroma(
            s,
            l,
        ),
        2 * l == crate::color::double::one() && crate::color::double::fit(s, 1) == s
            ==> crate::color::hsl::chroma(s, l) == s,
{
    let w = crate::color::double::one();
    crate::number::pow2_grows(0, 1074);
    assert(2 * (w - l) - w == -(2 * l - w));
    if 2 * l == w && crate::color::double::fit(s, 1) == s {
        crate::color::double::fit_keeps_the_sign(0, 1);
        assert(1 * w * 1 == w && 1 * w == w) by (nonlinear_arith);
        crate::color::double::doubles_fit(1, 1074, 1);
        let a = crate::color::double::magnitude(s);
        crate::color::double::mantissas_are_short(a, 1);
        let k = crate::color::double::excess(a, 1);
        let m = crate::color::quantise::rounded(a, crate::bignat::pow2(k) as int);
        assert(1 * crate::bignat::pow2(k) == crate::bignat::pow2(k)) by (nonlinear_arith);
        assert(a == m * crate::bignat::pow2(k));
        let j = if s < 0 {
            -m
        } else {
            m
        };
        assert(s == j * crate::bignat::pow2(k)) by (nonlinear_arith)
            requires
                a == m * crate::bignat::pow2(k),
                s == a && j == m || s == -a && j == -m,
        ;
        crate::color::double::doubles_fit(j, k, w);
        assert(j * crate::bignat::pow2(k) * w == w * s) by (nonlinear_arith)
            requires
                s == j * crate::bignat::pow2(k),
        ;
    }
}

/// A premultiplied channel is the integer nearest to its share of the alpha, the larger
/// one of two that are as near. The alpha stays.
pub proof fn premultiplied_channels_are_nearest(c: Color)
    ensures
        ({
            let p = crate::color::alpha::premultiplied(c);
            &&& p.a == c.a
            &&& 510 * p.r - 255 <= 2 * (c.r * c.a) < 510 * p.r + 255
            &&& 510 * p.g - 255 <= 2 * (c.g * c.a) < 510 * p.g + 255
            &&& 510 * p.b - 255 <= 2 * (c.b * c.a) < 510 * p.b + 255
        }),
{
    scaled_channels_are_nearest(c.r, c.a);
    scaled_channels_are_nearest(c.g, c.a);
    scaled_channels_are_nearest(c.b, c.a);
    assert(c.r * 255 == 255 * c.r && c.g * 255 == 255 * c.g && c.b * 255 == 255 * c.b && c.r * 0
        == 0 && c.g * 0 == 0 && c.b * 0 == 0) by (nonlinear_arith);
}

proof fn scaled_channels_are_nearest(c: u8, a: u8)
    ensures
        ({
            let p = crate::color::alpha::scaled_channel(c, a);
            510 * p - 255 <= 2 * (c * a) < 510 * p + 255
        }),
{
    assert(0 <= c * a <= 255 * 255) by (nonlinear_arith)
        requires
            0 <= c <= 255,
            0 <= a <= 255,
    ;
    assert(2 * c * a == 2 * (c * a)) by (nonlinear_arith);
    let x = 2 * (c * a) + 255;
    assert(0 <= x / 510 <= 255);
}

/// A channel is the integer nearest to what it stands for, the even one of two that are
/// as near.
pub proof fn rounding_goes_to_the_nearest(top: int, bottom: int)
    requires
        bottom > 0,
    ensures
        ({
            let q = crate::color::quantise::rounded(top, bottom);
            &&& -bottom <= 2 * (top - q * bottom) <= bottom
            &&& 2 * (top - q * bottom) == bottom || 2 * (q * bottom - top) == bottom ==> q % 2 == 0
        }),
{
    let below = top / bottom;
    vstd::arithmetic::div_mod::lemma_fundamental_div_mod(top, bottom);
    vstd::arithmetic::div_mod::lemma_mod_bound(top, bottom);
    assert(bottom * below == below * bottom && (below + 1) * bottom == below * bottom + bottom)
        by (nonlinear_arith);
}

} // verus!
