//! Hues as they are written.

use vstd::prelude::*;

use crate::number::NumeralView;
use crate::scan::{Scan, Separator};

verus! {

/// A call of `hsl()` with a whole number of degrees and two percentages.
pub open spec fn hsl_text(degrees: int, saturation: Seq<char>, lightness: Seq<char>) -> Seq<char> {
    "hsl("@ + crate::text::integer_text(degrees) + ", "@ + saturation + "%, "@ + lightness
        + "%)"@
}

/// A text that stands as one item in a list: it holds neither white space nor a
/// comma nor a slash. Nor does it hold a capital letter.
pub open spec fn bare(s: Seq<char>) -> bool {
    forall|i: int| 0 <= i < s.len() ==> bare_char(#[trigger] s[i])
}

/// A character of a [`bare`] text.
pub open spec fn bare_char(c: char) -> bool {
    !crate::text::is_white_space(c) && c != ',' && c != '/' && !('A' <= c <= 'Z')
}

/// A text that white space does not surround stays as it is.
pub(crate) proof fn trimming_keeps(s: Seq<char>)
    requires
        s.len() > 0,
        !crate::text::is_white_space(s[0]),
        !crate::text::is_white_space(s.last()),
    ensures
        crate::text::trimmed(s) == s,
{
}

/// A space in front is trimmed.
pub(crate) proof fn trimming_drops_a_space(s: Seq<char>)
    requires
        s.len() > 0,
        !crate::text::is_white_space(s[0]),
        !crate::text::is_white_space(s.last()),
    ensures
        crate::text::trimmed(seq![' '] + s) == s,
{
    let t = seq![' '] + s;
    assert(t.subrange(1, t.len() as int) =~= s);
    assert(crate::text::trim_start(t) == crate::text::trim_start(s));
    trimming_keeps(s);
}

pub(crate) proof fn no_slash_is_found(s: Seq<char>)
    requires
        forall|i: int| 0 <= i < s.len() ==> #[trigger] s[i] != '/',
    ensures
        crate::scan::find_text(s, "/"@) is None,
    decreases s.len(),
{
    reveal_strlit("/");
    if s.len() > 0 {
        assert(s.take(1)[0] == s[0]);
        assert forall|i: int| 0 <= i < s.skip(1).len() implies #[trigger] s.skip(1)[i] != '/' by {
            assert(s.skip(1)[i] == s[i + 1]);
        }
        no_slash_is_found(s.skip(1));
    }
}

/// Text without a comma joins the open item.
proof fn item_grows(s: Seq<char>, t: Seq<char>)
    requires
        forall|i: int| 0 <= i < t.len() ==> #[trigger] t[i] != ',',
    ensures
        ({
            let before = crate::scan::word_scan(s, Separator::Comma);
            crate::scan::word_scan(s + t, Separator::Comma) == (Scan {
                done: before.done,
                open: before.open + t,
            })
        }),
    decreases t.len(),
{
    let before = crate::scan::word_scan(s, Separator::Comma);
    if t.len() == 0 {
        assert(s + t =~= s);
        assert(before.open + t =~= before.open);
    } else {
        item_grows(s, t.drop_last());
        assert((s + t).drop_last() =~= s + t.drop_last());
        assert((before.open + t.drop_last()).push(t.last()) =~= before.open + t);
    }
}

/// Three items between commas, each but the first behind a space.
pub(crate) proof fn three_items(a: Seq<char>, b: Seq<char>, c: Seq<char>)
    requires
        a.len() > 0,
        b.len() > 0,
        c.len() > 0,
        bare(a),
        bare(b),
        bare(c),
    ensures
        crate::color::parse::listed_channels(a + ", "@ + b + ", "@ + c) == seq![a, b, c],
{
    reveal_strlit(", ");
    let body = a + ", "@ + b + ", "@ + c;
    let sb = seq![' '] + b;
    let sc = seq![' '] + c;
    let empty = Seq::<char>::empty();
    assert(body[a.len() as int] == ',');
    let s1 = empty + a;
    let s2 = s1.push(',');
    let s3 = s2 + sb;
    let s4 = s3.push(',');
    let s5 = s4 + sc;
    assert(body =~= s5);
    item_grows(empty, a);
    assert(empty + a =~= a);
    assert(s2.drop_last() =~= s1);
    assert(crate::scan::word_scan(s2, Separator::Comma).done =~= seq![a]);
    assert(crate::scan::word_scan(s2, Separator::Comma).open =~= empty);
    item_grows(s2, sb);
    assert(empty + sb =~= sb);
    assert(s4.drop_last() =~= s3);
    assert(crate::scan::word_scan(s4, Separator::Comma).done =~= seq![a, sb]);
    assert(crate::scan::word_scan(s4, Separator::Comma).open =~= empty);
    item_grows(s4, sc);
    assert(empty + sc =~= sc);
    let items = crate::scan::words(body, Separator::Comma);
    assert(items =~= seq![a, sb, sc]);
    trimming_keeps(a);
    trimming_drops_a_space(b);
    trimming_drops_a_space(c);
    reveal_with_fuel(crate::scan::trimmed_items, 4);
    assert(items.drop_last() =~= seq![a, sb]);
    assert(items.drop_last().drop_last() =~= seq![a]);
    assert(items.drop_last().drop_last().drop_last() =~= Seq::<Seq<char>>::empty());
    assert(crate::scan::trimmed_items(items) =~= seq![a, b, c]);
}

/// A whole number of degrees is a hue.
proof fn whole_degrees(degrees: int)
    requires
        -0x20_0000_0000_0000 < degrees < 0x20_0000_0000_0000,
    ensures
        crate::color::parse::hue_component(crate::text::integer_text(degrees)) == Ok::<
            Option<int>,
            crate::color::ColorFault,
        >(Some((degrees % 360) * crate::color::double::one())),
{
    let s = crate::text::integer_text(degrees);
    integer_is_bare(degrees);
    crate::number::integers_read_back(degrees);
    let l = crate::text::lowered(s);
    assert(l =~= s);
    reveal_strlit("deg");
    reveal_strlit("grad");
    reveal_strlit("rad");
    reveal_strlit("turn");
    assert(l.last() == s.last());
    assert(!crate::scan::finishes(l, "deg"@)) by {
        if l.len() >= 3 {
            assert(l.skip(l.len() - 3)[2] == l.last());
        }
    }
    assert(!crate::scan::finishes(l, "grad"@)) by {
        if l.len() >= 4 {
            assert(l.skip(l.len() - 4)[3] == l.last());
        }
    }
    assert(!crate::scan::finishes(l, "rad"@)) by {
        if l.len() >= 3 {
            assert(l.skip(l.len() - 3)[2] == l.last());
        }
    }
    assert(!crate::scan::finishes(l, "turn"@)) by {
        if l.len() >= 4 {
            assert(l.skip(l.len() - 4)[3] == l.last());
        }
    }
    trimming_keeps(s);
    let n = crate::number::Precision::Double.reading(s)->Some_0;
    let digits: nat = if degrees < 0 {
        (-degrees) as nat
    } else {
        degrees as nat
    };
    assert(crate::bignat::pow10(0) == 1);
    assert(digits * 1 == digits) by (nonlinear_arith);
    assert(n.top() == degrees);
    assert(n.bottom() == 1);
    whole_hues(n, degrees);
}

/// A whole number of degrees, brought into a circle.
proof fn whole_hues(n: NumeralView, degrees: int)
    requires
        -0x20_0000_0000_0000 < degrees < 0x20_0000_0000_0000,
        n is Finite,
        n.top() == degrees,
        n.bottom() == 1,
    ensures
        crate::color::quantise::hue(n, 1, 1) == Some(
            (degrees % 360) * crate::color::double::one(),
        ),
{
    let w = crate::color::double::one();
    let circle = 360 * w;
    let rest = degrees % 360;
    let turns = degrees / 360;
    let angle = degrees * w;
    crate::number::pow2_grows(0, 1074);
    assert(degrees * w * 1 == angle && rest * w * 1 == rest * w) by (nonlinear_arith)
        requires
            angle == degrees * w,
    ;
    crate::color::double::doubles_fit(degrees, 1074, 1);
    crate::color::double::doubles_fit(rest, 1074, 1);
    assert(crate::color::double::magnitude(angle) < crate::bignat::pow2(2098)) by {
        crate::color::double::mantissa_bits();
        crate::number::pow2_sum(53, 1074);
        crate::number::pow2_grows(1127, 2098);
        assert(-(0x20_0000_0000_0000 * w) < angle < 0x20_0000_0000_0000 * w) by (nonlinear_arith)
            requires
                angle == degrees * w,
                -0x20_0000_0000_0000 < degrees < 0x20_0000_0000_0000,
                w > 0,
        ;
    }
    assert(0 <= rest * w < circle) by (nonlinear_arith)
        requires
            0 <= rest < 360,
            circle == 360 * w,
            w > 0,
    ;
    assert(angle == rest * w + turns * circle) by (nonlinear_arith)
        requires
            degrees == 360 * turns + rest,
            circle == 360 * w,
            angle == degrees * w,
    ;
    crate::color::laws::hues_wrap(rest * w, turns);
    vstd::arithmetic::div_mod::lemma_small_mod((rest * w) as nat, circle as nat);
}

/// An integer is a bare text that ends in a digit.
pub(crate) proof fn integer_is_bare(n: int)
    ensures
        ({
            let s = crate::text::integer_text(n);
            &&& s.len() > 0
            &&& bare(s)
            &&& crate::number::is_digit(s.last())
        }),
{
    let s = crate::text::integer_text(n);
    reveal_strlit("-");
    if n < 0 {
        crate::number::decimals_read_back((-n) as nat);
        let d = crate::text::decimal_text((-n) as nat);
        assert forall|i: int| 0 <= i < s.len() implies bare_char(#[trigger] s[i]) by {
            if i > 0 {
                assert(crate::number::is_digit(d[i - 1]));
            }
        }
        assert(s.last() == d[d.len() - 1]);
    } else {
        crate::number::decimals_read_back(n as nat);
        assert forall|i: int| 0 <= i < s.len() implies bare_char(#[trigger] s[i]) by {
            assert(crate::number::is_digit(s[i]));
        }
    }
}

/// The arguments of a call of `hsl()`.
spec fn hsl_args(degrees: int, saturation: Seq<char>, lightness: Seq<char>) -> Seq<char> {
    crate::text::integer_text(degrees) + ", "@ + saturation.push('%') + ", "@ + lightness.push('%')
}

/// The arguments of a call of `hsl()` begin and end without white space and hold
/// neither a slash nor a capital letter.
proof fn args_are_plain(degrees: int, saturation: Seq<char>, lightness: Seq<char>)
    requires
        bare(saturation),
        bare(lightness),
    ensures
        ({
            let args = hsl_args(degrees, saturation, lightness);
            &&& args.len() > 0
            &&& !crate::text::is_white_space(args[0])
            &&& args.last() == '%'
            &&& forall|i: int|
                0 <= i < args.len() ==> #[trigger] args[i] != '/' && !('A' <= args[i] <= 'Z')
        }),
{
    let a = crate::text::integer_text(degrees);
    let b = saturation.push('%');
    let c = lightness.push('%');
    let args = hsl_args(degrees, saturation, lightness);
    integer_is_bare(degrees);
    assert(bare(b) && bare(c));
    assert(args[0] == a[0]);
    assert forall|i: int| 0 <= i < args.len() implies #[trigger] args[i] != '/' && !('A' <= args[i]
        <= 'Z') by {
        args_chars(a, b, c, i);
    }
}

/// How the arguments of a call of `hsl()` are taken apart.
proof fn args_are_three(degrees: int, saturation: Seq<char>, lightness: Seq<char>)
    requires
        bare(saturation),
        bare(lightness),
    ensures
        crate::color::parse::arguments(hsl_args(degrees, saturation, lightness)) == (
        crate::color::parse::ArgumentsView {
            channels: seq![
                crate::text::integer_text(degrees),
                saturation.push('%'),
                lightness.push('%'),
            ],
            alpha: None,
        }),
{
    let args = hsl_args(degrees, saturation, lightness);
    args_are_plain(degrees, saturation, lightness);
    trimming_keeps(args);
    no_slash_is_found(args);
    integer_is_bare(degrees);
    three_items(
        crate::text::integer_text(degrees),
        saturation.push('%'),
        lightness.push('%'),
    );
}

/// The text of a call of `hsl()` is in its normal form.
proof fn call_is_plain(degrees: int, saturation: Seq<char>, lightness: Seq<char>)
    requires
        bare(saturation),
        bare(lightness),
    ensures
        ({
            let input = hsl_text(degrees, saturation, lightness);
            &&& crate::text::trimmed(input) == input
            &&& crate::text::lowered(input) == input
            &&& input == "hsl"@.push('(') + hsl_args(degrees, saturation, lightness).push(')')
        }),
{
    let input = hsl_text(degrees, saturation, lightness);
    let args = hsl_args(degrees, saturation, lightness);
    reveal_strlit("hsl(");
    reveal_strlit(", ");
    reveal_strlit("%, ");
    reveal_strlit("%)");
    reveal_strlit("hsl");
    let opening = "hsl"@.push('(');
    assert(opening =~= "hsl("@);
    assert(", "@ =~= seq![',', ' ']);
    assert("%, "@ =~= seq!['%'] + ", "@);
    assert("%)"@ =~= seq!['%', ')']);
    assert(input =~= opening + args.push(')'));
    args_are_plain(degrees, saturation, lightness);
    assert(input[0] == 'h');
    assert(input.last() == ')');
    trimming_keeps(input);
    assert forall|i: int| 0 <= i < input.len() implies !('A' <= #[trigger] input[i] <= 'Z') by {
        if i < 4 {
            assert(input[i] == opening[i]);
        } else if i < input.len() - 1 {
            assert(input[i] == args[i - 4]);
        }
    }
    assert(crate::text::lowered(input) =~= input);
}

/// What a call of `hsl()` with a whole number of degrees parses to.
proof fn hsl_reads(degrees: int, saturation: Seq<char>, lightness: Seq<char>)
    requires
        bare(saturation),
        bare(lightness),
    ensures
        crate::color::parse::color_outcome(hsl_text(degrees, saturation, lightness))
            == crate::color::parse::concrete(
            crate::color::parse::hsl_outcome(hsl_args(degrees, saturation, lightness)),
        ),
{
    let input = hsl_text(degrees, saturation, lightness);
    let args = hsl_args(degrees, saturation, lightness);
    call_is_plain(degrees, saturation, lightness);
    args_are_plain(degrees, saturation, lightness);
    trimming_keeps(args);
    reveal_strlit("hsl");
    reveal_strlit("rgb");
    reveal_strlit("rgba");
    reveal_strlit("transparent");
    reveal_strlit("currentcolor");
    assert(input[0] == 'h');
    assert(crate::color::parse::call_arguments(input, "rgb"@) is None) by {
        assert(input.take(4)[0] == 'h');
        assert("rgb"@.push('(')[0] == 'r');
    }
    assert(crate::color::parse::call_arguments(input, "rgba"@) is None) by {
        if input.len() >= 5 {
            assert(input.take(5)[0] == 'h');
        }
        assert("rgba"@.push('(')[0] == 'r');
    }
    assert(input.take(4) =~= "hsl"@.push('('));
    assert(input.skip(4) =~= args.push(')'));
    assert(args.push(')').drop_last() =~= args);
    assert(crate::color::parse::call_arguments(input, "hsl"@) == Some(args));
}

/// Arguments whose hues mean the same give the same colour.
proof fn hues_decide(x: Seq<char>, y: Seq<char>)
    requires
        ({
            let a = crate::color::parse::arguments(x);
            let b = crate::color::parse::arguments(y);
            &&& a.channels.len() == 3
            &&& b.channels.len() == 3
            &&& crate::color::parse::hue_component(a.channels[0])
                == crate::color::parse::hue_component(b.channels[0])
            &&& a.channels[1] == b.channels[1]
            &&& a.channels[2] == b.channels[2]
            &&& a.alpha == b.alpha
        }),
    ensures
        crate::color::parse::hsl_outcome(x) == crate::color::parse::hsl_outcome(y),
{
}

/// Neither a capital letter nor a slash stands among bare items.
pub(crate) proof fn args_chars(a: Seq<char>, b: Seq<char>, c: Seq<char>, i: int)
    requires
        bare(a),
        bare(b),
        bare(c),
        0 <= i < (a + ", "@ + b + ", "@ + c).len(),
    ensures
        ({
            let x = (a + ", "@ + b + ", "@ + c)[i];
            x != '/' && !('A' <= x <= 'Z')
        }),
{
    reveal_strlit(", ");
    let args = a + ", "@ + b + ", "@ + c;
    let j = a.len() + 2;
    let k = j + b.len() + 2;
    if i < a.len() {
        assert(args[i] == a[i]);
    } else if i < j {
        assert(args[i] == ", "@[i - a.len()]);
    } else if i < j + b.len() {
        assert(args[i] == b[i - j]);
    } else if i < k {
        assert(args[i] == ", "@[i - j - b.len()]);
    } else {
        assert(args[i] == c[i - k]);
    }
}

/// A whole number of degrees and some full turns more are the same hue.
proof fn turned_hues(degrees: int, turns: int)
    requires
        -0x20_0000_0000_0000 < degrees < 0x20_0000_0000_0000,
        -0x20_0000_0000_0000 < degrees + 360 * turns < 0x20_0000_0000_0000,
    ensures
        crate::color::parse::hue_component(crate::text::integer_text(degrees + 360 * turns))
            == crate::color::parse::hue_component(crate::text::integer_text(degrees)),
{
    whole_degrees(degrees);
    whole_degrees(degrees + 360 * turns);
    assert((degrees + 360 * turns) % 360 == degrees % 360);
}

/// Arguments whose hues differ by full turns give the same colour.
proof fn turned_arguments(
    degrees: int,
    turns: int,
    saturation: Seq<char>,
    lightness: Seq<char>,
)
    requires
        -0x20_0000_0000_0000 < degrees < 0x20_0000_0000_0000,
        -0x20_0000_0000_0000 < degrees + 360 * turns < 0x20_0000_0000_0000,
        bare(saturation),
        bare(lightness),
    ensures
        crate::color::parse::hsl_outcome(hsl_args(degrees + 360 * turns, saturation, lightness))
            == crate::color::parse::hsl_outcome(hsl_args(degrees, saturation, lightness)),
{
    let more = degrees + 360 * turns;
    args_are_three(degrees, saturation, lightness);
    args_are_three(more, saturation, lightness);
    turned_hues(degrees, turns);
    hues_decide(
        hsl_args(more, saturation, lightness),
        hsl_args(degrees, saturation, lightness),
    );
}

/// Full turns do not change a colour: `hsl()` with a hue of `degrees` and with
/// that many degrees and some full turns parse to the same, whatever the
/// saturation and the lightness are. The hues are integers that a double holds.
pub proof fn full_turns_do_not_matter(
    degrees: int,
    turns: int,
    saturation: Seq<char>,
    lightness: Seq<char>,
)
    requires
        -0x20_0000_0000_0000 < degrees < 0x20_0000_0000_0000,
        -0x20_0000_0000_0000 < degrees + 360 * turns < 0x20_0000_0000_0000,
        bare(saturation),
        bare(lightness),
    ensures
        crate::color::parse::color_outcome(hsl_text(degrees + 360 * turns, saturation, lightness))
            == crate::color::parse::color_outcome(hsl_text(degrees, saturation, lightness)),
        crate::color::parse::plain_outcome(hsl_text(degrees + 360 * turns, saturation, lightness))
            == crate::color::parse::plain_outcome(hsl_text(degrees, saturation, lightness)),
{
    hsl_reads(degrees, saturation, lightness);
    hsl_reads(degrees + 360 * turns, saturation, lightness);
    turned_arguments(degrees, turns, saturation, lightness);
}

} // verus!
