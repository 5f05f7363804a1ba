//! Colours as they are written.

use vstd::prelude::*;

use crate::color::{Color, ColorFault, ColorOrKeyword};

verus! {

/// The digit for `d` in base sixteen.
pub open spec fn digit16(d: int, capital: bool) -> char {
    if d < 10 {
        ('0' as int + d) as char
    } else if capital {
        ('A' as int + d - 10) as char
    } else {
        ('a' as int + d - 10) as char
    }
}

/// The two digits of a byte in base sixteen, the more significant one first.
pub open spec fn numeral16(n: u8, capital: bool) -> Seq<char> {
    seq![digit16(n as int / 16, capital), digit16(n as int % 16, capital)]
}

proof fn digits_read_back(d: int, capital: bool)
    requires
        0 <= d < 16,
    ensures
        crate::color::parse::is_hex(digit16(d, capital)),
        crate::color::parse::hex_value(digit16(d, capital)) == d,
        !crate::text::is_white_space(digit16(d, capital)),
{
}

/// Text that begins with a number sign is its digits.
proof fn number_sign_begins_digits(digits: Seq<char>)
    requires
        digits.len() > 0,
        !crate::text::is_white_space(digits.last()),
    ensures
        crate::color::parse::color_outcome(seq!['#'] + digits)
            == crate::color::parse::concrete(crate::color::parse::hex_outcome(digits)),
{
    let s = seq!['#'] + digits;
    let l = crate::text::lowered(s);
    assert(crate::text::trimmed(s) == s);
    assert(s.skip(1) =~= digits);
    reveal_strlit("transparent");
    reveal_strlit("currentcolor");
    assert(l[0] == '#');
    assert("transparent"@[0] == 't' && "currentcolor"@[0] == 'c');
}

/// A colour that is written as its channels in base sixteen, two digits each in
/// upper or lower case, is read as that colour. Without the digits of the alpha
/// it is opaque.
pub proof fn written_colors_read_back(c: Color, capital: bool)
    ensures
        ({
            let rgb = seq!['#'] + numeral16(c.r, capital) + numeral16(c.g, capital) + numeral16(
                c.b,
                capital,
            );
            &&& crate::color::parse::color_outcome(rgb + numeral16(c.a, capital)) == Ok::<
                ColorOrKeyword,
                ColorFault,
            >(ColorOrKeyword::Color(c))
            &&& crate::color::parse::plain_outcome(rgb + numeral16(c.a, capital)) == Ok::<
                Color,
                ColorFault,
            >(c)
            &&& crate::color::parse::plain_outcome(rgb) == Ok::<Color, ColorFault>(
                Color { a: 255, ..c },
            )
        }),
{
    let digits = numeral16(c.r, capital) + numeral16(c.g, capital) + numeral16(c.b, capital);
    let all = digits + numeral16(c.a, capital);
    let rgb = seq!['#'] + numeral16(c.r, capital) + numeral16(c.g, capital) + numeral16(
        c.b,
        capital,
    );
    assert(rgb =~= seq!['#'] + digits);
    assert(rgb + numeral16(c.a, capital) =~= seq!['#'] + all);
    digits_read_back(c.r as int / 16, capital);
    digits_read_back(c.r as int % 16, capital);
    digits_read_back(c.g as int / 16, capital);
    digits_read_back(c.g as int % 16, capital);
    digits_read_back(c.b as int / 16, capital);
    digits_read_back(c.b as int % 16, capital);
    digits_read_back(c.a as int / 16, capital);
    digits_read_back(c.a as int % 16, capital);
    assert(all.len() == 8 && digits.len() == 6);
    assert(forall|i: int| 0 <= i < 8 ==> crate::color::parse::is_hex(#[trigger] all[i]));
    assert(forall|i: int| 0 <= i < 6 ==> crate::color::parse::is_hex(#[trigger] digits[i]));
    number_sign_begins_digits(all);
    number_sign_begins_digits(digits);
    assert(crate::color::parse::hex_color(all) == Some(c));
    assert(crate::color::parse::hex_color(digits) == Some(Color { a: 255, ..c }));
}

/// One digit in base sixteen for each channel is seventeen times its value: none
/// is zero, and the largest is full. Without the digit of the alpha the colour
/// is opaque.
pub proof fn short_colors_read_back(r: int, g: int, b: int, a: int, capital: bool)
    requires
        0 <= r < 16,
        0 <= g < 16,
        0 <= b < 16,
        0 <= a < 16,
    ensures
        ({
            let c = Color { r: (17 * r) as u8, g: (17 * g) as u8, b: (17 * b) as u8, a: 255 };
            let rgb = seq!['#', digit16(r, capital), digit16(g, capital), digit16(b, capital)];
            &&& crate::color::parse::plain_outcome(rgb.push(digit16(a, capital))) == Ok::<
                Color,
                ColorFault,
            >(Color { a: (17 * a) as u8, ..c })
            &&& crate::color::parse::plain_outcome(rgb) == Ok::<Color, ColorFault>(c)
        }),
{
    let digits = seq![digit16(r, capital), digit16(g, capital), digit16(b, capital)];
    let all = digits.push(digit16(a, capital));
    let rgb = seq!['#', digit16(r, capital), digit16(g, capital), digit16(b, capital)];
    assert(rgb =~= seq!['#'] + digits);
    assert(rgb.push(digit16(a, capital)) =~= seq!['#'] + all);
    digits_read_back(r, capital);
    digits_read_back(g, capital);
    digits_read_back(b, capital);
    digits_read_back(a, capital);
    assert(forall|i: int| 0 <= i < 4 ==> crate::color::parse::is_hex(#[trigger] all[i]));
    assert(forall|i: int| 0 <= i < 3 ==> crate::color::parse::is_hex(#[trigger] digits[i]));
    number_sign_begins_digits(all);
    number_sign_begins_digits(digits);
}

/// Behind a number sign only three, four, six or eight digits in base sixteen are
/// a colour.
pub proof fn only_digits_are_colors(digits: Seq<char>)
    requires
        digits.len() > 0,
        !crate::text::is_white_space(digits.last()),
    ensures
        crate::color::parse::plain_outcome(seq!['#'] + digits) is Ok <==> ((digits.len() == 3
            || digits.len() == 4 || digits.len() == 6 || digits.len() == 8) && forall|i: int|
            0 <= i < digits.len() ==> '0' <= #[trigger] digits[i] <= '9' || 'a' <= digits[i] <= 'f'
                || 'A' <= digits[i] <= 'F'),
        crate::color::parse::plain_outcome(seq!['#'] + digits) matches Err(e) ==> e
            == ColorFault::InvalidHex(seq!['#'] + digits),
{
    number_sign_begins_digits(digits);
    let good = forall|i: int| 0 <= i < digits.len() ==> crate::color::parse::is_hex(
        #[trigger] digits[i],
    );
    assert(good <==> forall|i: int|
        0 <= i < digits.len() ==> '0' <= #[trigger] digits[i] <= '9' || 'a' <= digits[i] <= 'f'
            || 'A' <= digits[i] <= 'F') by {
        if !good {
            let k = choose|i: int| 0 <= i < digits.len() && !crate::color::parse::is_hex(
                #[trigger] digits[i],
            );
            assert(!('0' <= digits[k] <= '9' || 'a' <= digits[k] <= 'f' || 'A' <= digits[k]
                <= 'F'));
        } else {
            assert(forall|i: int| 0 <= i < digits.len() ==> crate::color::parse::is_hex(
                #[trigger] digits[i],
            ));
        }
    }
}

/// `n` brought into the range of a byte.
pub open spec fn in_gamut(n: int) -> u8 {
    if n < 0 {
        0
    } else if n > 255 {
        255
    } else {
        n as u8
    }
}

/// An integer is the channel that it is, or the nearest one there is.
proof fn whole_channels(n: int)
    requires
        -0x20_0000_0000_0000 < n < 0x20_0000_0000_0000,
    ensures
        crate::color::parse::rgb_component(crate::text::integer_text(n)) == Ok::<u8, ColorFault>(
            in_gamut(n),
        ),
{
    let s = crate::text::integer_text(n);
    crate::color::hues::integer_is_bare(n);
    crate::number::integers_read_back(n);
    assert(crate::color::parse::percentage(s) is None);
    let x = crate::number::Precision::Double.reading(s)->Some_0;
    assert(crate::bignat::pow10(0) == 1);
    let digits: nat = if n < 0 {
        (-n) as nat
    } else {
        n as nat
    };
    assert(digits * 1 == digits) by (nonlinear_arith);
    assert(x.top() == n);
    assert(x.bottom() == 1);
    crate::color::laws::channels_are_clamped(x, n);
}

/// The arguments of a colour function, with commas between them.
spec fn three_arguments(a: Seq<char>, b: Seq<char>, c: Seq<char>) -> Seq<char> {
    a + ", "@ + b + ", "@ + c
}

proof fn arguments_are_three(a: Seq<char>, b: Seq<char>, c: Seq<char>)
    requires
        a.len() > 0,
        b.len() > 0,
        c.len() > 0,
        crate::color::hues::bare(a),
        crate::color::hues::bare(b),
        crate::color::hues::bare(c),
    ensures
        crate::color::parse::arguments(three_arguments(a, b, c)) == (
        crate::color::parse::ArgumentsView { channels: seq![a, b, c], alpha: None }),
        crate::text::trimmed(three_arguments(a, b, c)) == three_arguments(a, b, c),
        forall|i: int|
            0 <= i < three_arguments(a, b, c).len() ==> !('A' <= #[trigger] three_arguments(
                a,
                b,
                c,
            )[i] <= 'Z'),
{
    let args = three_arguments(a, b, c);
    reveal_strlit(", ");
    assert(args[0] == a[0] && args.last() == c[c.len() - 1]);
    crate::color::hues::trimming_keeps(args);
    assert forall|i: int| 0 <= i < args.len() implies #[trigger] args[i] != '/' && !('A' <= args[i]
        <= 'Z') by {
        crate::color::hues::args_chars(a, b, c, i);
    }
    crate::color::hues::no_slash_is_found(args);
    crate::color::hues::three_items(a, b, c);
}

/// A call of a colour function in lower case.
proof fn calls_are_taken_apart(name: Seq<char>, args: Seq<char>)
    requires
        name == "rgb"@ || name == "hsl"@,
        args.len() > 0,
        crate::text::trimmed(args) == args,
        forall|i: int| 0 <= i < args.len() ==> !('A' <= #[trigger] args[i] <= 'Z'),
    ensures
        ({
            let s = name + "("@ + args + ")"@;
            crate::color::parse::color_outcome(s) == if name == "rgb"@ {
                crate::color::parse::concrete(crate::color::parse::rgb_outcome(args))
            } else {
                crate::color::parse::concrete(crate::color::parse::hsl_outcome(args))
            }
        }),
{
    reveal_strlit("rgb");
    reveal_strlit("rgba");
    reveal_strlit("hsl");
    reveal_strlit("(");
    reveal_strlit(")");
    reveal_strlit("transparent");
    reveal_strlit("currentcolor");
    let s = name + "("@ + args + ")"@;
    assert(s[0] == name[0] && s.last() == ')');
    crate::color::hues::trimming_keeps(s);
    let l = crate::text::lowered(s);
    assert forall|i: int| 0 <= i < s.len() implies !('A' <= #[trigger] s[i] <= 'Z') by {
        if i < 3 {
            assert(s[i] == name[i]);
        } else if 4 <= i < s.len() - 1 {
            assert(s[i] == args[i - 4]);
        }
    }
    assert(l =~= s);
    assert(s[3] == '(');
    assert("transparent"@[3] == 'n' && "currentcolor"@[3] == 'r');
    assert(s.take(4) =~= name.push('('));
    assert(s.skip(4) =~= args.push(')'));
    assert(args.push(')').drop_last() =~= args);
    assert(crate::color::parse::call_arguments(s, name) == Some(args));
    if name == "hsl"@ {
        assert(s.take(4)[0] == 'h' && "rgb"@.push('(')[0] == 'r');
        if s.len() >= 5 {
            assert(s.take(5)[0] == 'h' && "rgba"@.push('(')[0] == 'r');
        }
    }
}

/// Three channels without an alpha make an opaque colour.
proof fn channels_make_a_color(args: Seq<char>, x: Seq<char>, y: Seq<char>, z: Seq<char>)
    requires
        crate::color::parse::arguments(args) == (crate::color::parse::ArgumentsView {
            channels: seq![x, y, z],
            alpha: None,
        }),
        crate::color::parse::rgb_component(x) is Ok,
        crate::color::parse::rgb_component(y) is Ok,
        crate::color::parse::rgb_component(z) is Ok,
    ensures
        crate::color::parse::rgb_outcome(args) == Ok::<Color, ColorFault>(
            Color {
                r: crate::color::parse::rgb_component(x)->Ok_0,
                g: crate::color::parse::rgb_component(y)->Ok_0,
                b: crate::color::parse::rgb_component(z)->Ok_0,
                a: 255,
            },
        ),
{
}

/// A call of `rgb()` with three bare channels is the colour that they make.
proof fn three_channels_read_back(x: Seq<char>, y: Seq<char>, z: Seq<char>)
    requires
        x.len() > 0,
        y.len() > 0,
        z.len() > 0,
        crate::color::hues::bare(x),
        crate::color::hues::bare(y),
        crate::color::hues::bare(z),
        crate::color::parse::rgb_component(x) is Ok,
        crate::color::parse::rgb_component(y) is Ok,
        crate::color::parse::rgb_component(z) is Ok,
    ensures
        crate::color::parse::plain_outcome("rgb"@ + "("@ + three_arguments(x, y, z) + ")"@) == Ok::<
            Color,
            ColorFault,
        >(
            Color {
                r: crate::color::parse::rgb_component(x)->Ok_0,
                g: crate::color::parse::rgb_component(y)->Ok_0,
                b: crate::color::parse::rgb_component(z)->Ok_0,
                a: 255,
            },
        ),
{
    let args = three_arguments(x, y, z);
    arguments_are_three(x, y, z);
    channels_make_a_color(args, x, y, z);
    assert(args.len() > 0);
    calls_are_taken_apart("rgb"@, args);
}

/// Three integers in a call of `rgb()` are the red, the green and the blue of an
/// opaque colour; what lies outside the range of a channel is brought into it.
#[verifier::spinoff_prover]
#[verifier::rlimit(60)]
pub proof fn rgb_calls_read_back(r: int, g: int, b: int)
    requires
        -0x20_0000_0000_0000 < r < 0x20_0000_0000_0000,
        -0x20_0000_0000_0000 < g < 0x20_0000_0000_0000,
        -0x20_0000_0000_0000 < b < 0x20_0000_0000_0000,
    ensures
        crate::color::parse::plain_outcome(
            "rgb"@ + "("@ + (crate::text::integer_text(r) + ", "@ + crate::text::integer_text(g)
                + ", "@ + crate::text::integer_text(b)) + ")"@,
        ) == Ok::<Color, ColorFault>(
            Color { r: in_gamut(r), g: in_gamut(g), b: in_gamut(b), a: 255 },
        ),
{
    let (x, y, z) = (
        crate::text::integer_text(r),
        crate::text::integer_text(g),
        crate::text::integer_text(b),
    );
    crate::color::hues::integer_is_bare(r);
    crate::color::hues::integer_is_bare(g);
    crate::color::hues::integer_is_bare(b);
    whole_channels(r);
    whole_channels(g);
    whole_channels(b);
    three_channels_read_back(x, y, z);
}

} // verus!
