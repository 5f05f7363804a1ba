//! The colours that names stand for.

use vstd::prelude::*;

use crate::color::Color;

verus! {

/// The opaque colour whose red, green and blue are the three bytes of `n`, red the
/// most significant.
pub open spec fn of_bytes(n: int) -> Option<Color> {
    Some(
        Color {
            r: (n / 0x1_0000) as u8,
            g: (n / 0x100 % 0x100) as u8,
            b: (n % 0x100) as u8,
            a: 255,
        },
    )
}

proof fn letters_of_names_a_to_c(n: Seq<char>)
    ensures
        crate::color::named::names_a_to_c(n) is Some ==> n.len() > 0 && 'a' <= n[0] <= 'c',
{
    reveal_strlit("aliceblue");
    reveal_strlit("antiquewhite");
    reveal_strlit("aqua");
    reveal_strlit("aquamarine");
    reveal_strlit("azure");
    reveal_strlit("beige");
    reveal_strlit("bisque");
    reveal_strlit("black");
    reveal_strlit("blanchedalmond");
    reveal_strlit("blue");
    reveal_strlit("blueviolet");
    reveal_strlit("brown");
    reveal_strlit("burlywood");
    reveal_strlit("cadetblue");
    reveal_strlit("chartreuse");
    reveal_strlit("chocolate");
    reveal_strlit("coral");
    reveal_strlit("cornflowerblue");
    reveal_strlit("cornsilk");
    reveal_strlit("crimson");
    reveal_strlit("cyan");
    assert("aliceblue"@.len() == 9 && "aliceblue"@[0] == 'a');
    assert("antiquewhite"@.len() == 12 && "antiquewhite"@[0] == 'a');
    assert("aqua"@.len() == 4 && "aqua"@[0] == 'a');
    assert("aquamarine"@.len() == 10 && "aquamarine"@[0] == 'a');
    assert("azure"@.len() == 5 && "azure"@[0] == 'a');
    assert("beige"@.len() == 5 && "beige"@[0] == 'b');
    assert("bisque"@.len() == 6 && "bisque"@[0] == 'b');
    assert("black"@.len() == 5 && "black"@[0] == 'b');
    assert("blanchedalmond"@.len() == 14 && "blanchedalmond"@[0] == 'b');
    assert("blue"@.len() == 4 && "blue"@[0] == 'b');
    assert("blueviolet"@.len() == 10 && "blueviolet"@[0] == 'b');
    assert("brown"@.len() == 5 && "brown"@[0] == 'b');
    assert("burlywood"@.len() == 9 && "burlywood"@[0] == 'b');
    assert("cadetblue"@.len() == 9 && "cadetblue"@[0] == 'c');
    assert("chartreuse"@.len() == 10 && "chartreuse"@[0] == 'c');
    assert("chocolate"@.len() == 9 && "chocolate"@[0] == 'c');
    assert("coral"@.len() == 5 && "coral"@[0] == 'c');
    assert("cornflowerblue"@.len() == 14 && "cornflowerblue"@[0] == 'c');
    assert("cornsilk"@.len() == 8 && "cornsilk"@[0] == 'c');
    assert("crimson"@.len() == 7 && "crimson"@[0] == 'c');
    assert("cyan"@.len() == 4 && "cyan"@[0] == 'c');
}

proof fn letters_of_names_d(n: Seq<char>)
    ensures
        crate::color::named::names_d(n) is Some ==> n.len() > 0 && 'd' <= n[0] <= 'd',
{
    reveal_strlit("darkblue");
    reveal_strlit("darkcyan");
    reveal_strlit("darkgoldenrod");
    reveal_strlit("darkgray");
    reveal_strlit("darkgreen");
    reveal_strlit("darkgrey");
    reveal_strlit("darkkhaki");
    reveal_strlit("darkmagenta");
    reveal_strlit("darkolivegreen");
    reveal_strlit("darkorange");
    reveal_strlit("darkorchid");
    reveal_strlit("darkred");
    reveal_strlit("darksalmon");
    reveal_strlit("darkseagreen");
    reveal_strlit("darkslateblue");
    reveal_strlit("darkslategray");
    reveal_strlit("darkslategrey");
    reveal_strlit("darkturquoise");
    reveal_strlit("darkviolet");
    reveal_strlit("deeppink");
    reveal_strlit("deepskyblue");
    reveal_strlit("dimgray");
    reveal_strlit("dimgrey");
    reveal_strlit("dodgerblue");
    assert("darkblue"@.len() == 8 && "darkblue"@[0] == 'd');
    assert("darkcyan"@.len() == 8 && "darkcyan"@[0] == 'd');
    assert("darkgoldenrod"@.len() == 13 && "darkgoldenrod"@[0] == 'd');
    assert("darkgray"@.len() == 8 && "darkgray"@[0] == 'd');
    assert("darkgreen"@.len() == 9 && "darkgreen"@[0] == 'd');
    assert("darkgrey"@.len() == 8 && "darkgrey"@[0] == 'd');
    assert("darkkhaki"@.len() == 9 && "darkkhaki"@[0] == 'd');
    assert("darkmagenta"@.len() == 11 && "darkmagenta"@[0] == 'd');
    assert("darkolivegreen"@.len() == 14 && "darkolivegreen"@[0] == 'd');
    assert("darkorange"@.len() == 10 && "darkorange"@[0] == 'd');
    assert("darkorchid"@.len() == 10 && "darkorchid"@[0] == 'd');
    assert("darkred"@.len() == 7 && "darkred"@[0] == 'd');
    assert("darksalmon"@.len() == 10 && "darksalmon"@[0] == 'd');
    assert("darkseagreen"@.len() == 12 && "darkseagreen"@[0] == 'd');
    assert("darkslateblue"@.len() == 13 && "darkslateblue"@[0] == 'd');
    assert("darkslategray"@.len() == 13 && "darkslategray"@[0] == 'd');
    assert("darkslategrey"@.len() == 13 && "darkslategrey"@[0] == 'd');
    assert("darkturquoise"@.len() == 13 && "darkturquoise"@[0] == 'd');
    assert("darkviolet"@.len() == 10 && "darkviolet"@[0] == 'd');
    assert("deeppink"@.len() == 8 && "deeppink"@[0] == 'd');
    assert("deepskyblue"@.len() == 11 && "deepskyblue"@[0] == 'd');
    assert("dimgray"@.len() == 7 && "dimgray"@[0] == 'd');
    assert("dimgrey"@.len() == 7 && "dimgrey"@[0] == 'd');
    assert("dodgerblue"@.len() == 10 && "dodgerblue"@[0] == 'd');
}

proof fn letters_of_names_e_to_k(n: Seq<char>)
    ensures
        crate::color::named::names_e_to_k(n) is Some ==> n.len() > 0 && 'e' <= n[0] <= 'k',
{
    reveal_strlit("firebrick");
    reveal_strlit("floralwhite");
    reveal_strlit("forestgreen");
    reveal_strlit("fuchsia");
    reveal_strlit("gainsboro");
    reveal_strlit("ghostwhite");
    reveal_strlit("gold");
    reveal_strlit("goldenrod");
    reveal_strlit("gray");
    reveal_strlit("green");
    reveal_strlit("greenyellow");
    reveal_strlit("grey");
    reveal_strlit("honeydew");
    reveal_strlit("hotpink");
    reveal_strlit("indianred");
    reveal_strlit("indigo");
    reveal_strlit("ivory");
    reveal_strlit("khaki");
    assert("firebrick"@.len() == 9 && "firebrick"@[0] == 'f');
    assert("floralwhite"@.len() == 11 && "floralwhite"@[0] == 'f');
    assert("forestgreen"@.len() == 11 && "forestgreen"@[0] == 'f');
    assert("fuchsia"@.len() == 7 && "fuchsia"@[0] == 'f');
    assert("gainsboro"@.len() == 9 && "gainsboro"@[0] == 'g');
    assert("ghostwhite"@.len() == 10 && "ghostwhite"@[0] == 'g');
    assert("gold"@.len() == 4 && "gold"@[0] == 'g');
    assert("goldenrod"@.len() == 9 && "goldenrod"@[0] == 'g');
    assert("gray"@.len() == 4 && "gray"@[0] == 'g');
    assert("green"@.len() == 5 && "green"@[0] == 'g');
    assert("greenyellow"@.len() == 11 && "greenyellow"@[0] == 'g');
    assert("grey"@.len() == 4 && "grey"@[0] == 'g');
    assert("honeydew"@.len() == 8 && "honeydew"@[0] == 'h');
    assert("hotpink"@.len() == 7 && "hotpink"@[0] == 'h');
    assert("indianred"@.len() == 9 && "indianred"@[0] == 'i');
    assert("indigo"@.len() == 6 && "indigo"@[0] == 'i');
    assert("ivory"@.len() == 5 && "ivory"@[0] == 'i');
    assert("khaki"@.len() == 5 && "khaki"@[0] == 'k');
}

proof fn letters_of_names_l(n: Seq<char>)
    ensures
        crate::color::named::names_l(n) is Some ==> n.len() > 0 && 'l' <= n[0] <= 'l',
{
    reveal_strlit("lavender");
    reveal_strlit("lavenderblush");
    reveal_strlit("lawngreen");
    reveal_strlit("lemonchiffon");
    reveal_strlit("lightblue");
    reveal_strlit("lightcoral");
    reveal_strlit("lightcyan");
    reveal_strlit("lightgoldenrodyellow");
    reveal_strlit("lightgray");
    reveal_strlit("lightgreen");
    reveal_strlit("lightgrey");
    reveal_strlit("lightpink");
    reveal_strlit("lightsalmon");
    reveal_strlit("lightseagreen");
    reveal_strlit("lightskyblue");
    reveal_strlit("lightslategray");
    reveal_strlit("lightslategrey");
    reveal_strlit("lightsteelblue");
    reveal_strlit("lightyellow");
    reveal_strlit("lime");
    reveal_strlit("limegreen");
    reveal_strlit("linen");
    assert("lavender"@.len() == 8 && "lavender"@[0] == 'l');
    assert("lavenderblush"@.len() == 13 && "lavenderblush"@[0] == 'l');
    assert("lawngreen"@.len() == 9 && "lawngreen"@[0] == 'l');
    assert("lemonchiffon"@.len() == 12 && "lemonchiffon"@[0] == 'l');
    assert("lightblue"@.len() == 9 && "lightblue"@[0] == 'l');
    assert("lightcoral"@.len() == 10 && "lightcoral"@[0] == 'l');
    assert("lightcyan"@.len() == 9 && "lightcyan"@[0] == 'l');
    assert("lightgoldenrodyellow"@.len() == 20 && "lightgoldenrodyellow"@[0] == 'l');
    assert("lightgray"@.len() == 9 && "lightgray"@[0] == 'l');
    assert("lightgreen"@.len() == 10 && "lightgreen"@[0] == 'l');
    assert("lightgrey"@.len() == 9 && "lightgrey"@[0] == 'l');
    assert("lightpink"@.len() == 9 && "lightpink"@[0] == 'l');
    assert("lightsalmon"@.len() == 11 && "lightsalmon"@[0] == 'l');
    assert("lightseagreen"@.len() == 13 && "lightseagreen"@[0] == 'l');
    assert("lightskyblue"@.len() == 12 && "lightskyblue"@[0] == 'l');
    assert("lightslategray"@.len() == 14 && "lightslategray"@[0] == 'l');
    assert("lightslategrey"@.len() == 14 && "lightslategrey"@[0] == 'l');
    assert("lightsteelblue"@.len() == 14 && "lightsteelblue"@[0] == 'l');
    assert("lightyellow"@.len() == 11 && "lightyellow"@[0] == 'l');
    assert("lime"@.len() == 4 && "lime"@[0] == 'l');
    assert("limegreen"@.len() == 9 && "limegreen"@[0] == 'l');
    assert("linen"@.len() == 5 && "linen"@[0] == 'l');
}

proof fn letters_of_names_m_to_n(n: Seq<char>)
    ensures
        crate::color::named::names_m_to_n(n) is Some ==> n.len() > 0 && 'm' <= n[0] <= 'n',
{
    reveal_strlit("magenta");
    reveal_strlit("maroon");
    reveal_strlit("mediumaquamarine");
    reveal_strlit("mediumblue");
    reveal_strlit("mediumorchid");
    reveal_strlit("mediumpurple");
    reveal_strlit("mediumseagreen");
    reveal_strlit("mediumslateblue");
    reveal_strlit("mediumspringgreen");
    reveal_strlit("mediumturquoise");
    reveal_strlit("mediumvioletred");
    reveal_strlit("midnightblue");
    reveal_strlit("mintcream");
    reveal_strlit("mistyrose");
    reveal_strlit("moccasin");
    reveal_strlit("navajowhite");
    reveal_strlit("navy");
    assert("magenta"@.len() == 7 && "magenta"@[0] == 'm');
    assert("maroon"@.len() == 6 && "maroon"@[0] == 'm');
    assert("mediumaquamarine"@.len() == 16 && "mediumaquamarine"@[0] == 'm');
    assert("mediumblue"@.len() == 10 && "mediumblue"@[0] == 'm');
    assert("mediumorchid"@.len() == 12 && "mediumorchid"@[0] == 'm');
    assert("mediumpurple"@.len() == 12 && "mediumpurple"@[0] == 'm');
    assert("mediumseagreen"@.len() == 14 && "mediumseagreen"@[0] == 'm');
    assert("mediumslateblue"@.len() == 15 && "mediumslateblue"@[0] == 'm');
    assert("mediumspringgreen"@.len() == 17 && "mediumspringgreen"@[0] == 'm');
    assert("mediumturquoise"@.len() == 15 && "mediumturquoise"@[0] == 'm');
    assert("mediumvioletred"@.len() == 15 && "mediumvioletred"@[0] == 'm');
    assert("midnightblue"@.len() == 12 && "midnightblue"@[0] == 'm');
    assert("mintcream"@.len() == 9 && "mintcream"@[0] == 'm');
    assert("mistyrose"@.len() == 9 && "mistyrose"@[0] == 'm');
    assert("moccasin"@.len() == 8 && "moccasin"@[0] == 'm');
    assert("navajowhite"@.len() == 11 && "navajowhite"@[0] == 'n');
    assert("navy"@.len() == 4 && "navy"@[0] == 'n');
}

proof fn letters_of_names_o_to_r(n: Seq<char>)
    ensures
        crate::color::named::names_o_to_r(n) is Some ==> n.len() > 0 && 'o' <= n[0] <= 'r',
{
    reveal_strlit("oldlace");
    reveal_strlit("olive");
    reveal_strlit("olivedrab");
    reveal_strlit("orange");
    reveal_strlit("orangered");
    reveal_strlit("orchid");
    reveal_strlit("palegoldenrod");
    reveal_strlit("palegreen");
    reveal_strlit("paleturquoise");
    reveal_strlit("palevioletred");
    reveal_strlit("papayawhip");
    reveal_strlit("peachpuff");
    reveal_strlit("peru");
    reveal_strlit("pink");
    reveal_strlit("plum");
    reveal_strlit("powderblue");
    reveal_strlit("purple");
    reveal_strlit("rebeccapurple");
    reveal_strlit("red");
    reveal_strlit("rosybrown");
    reveal_strlit("royalblue");
    assert("oldlace"@.len() == 7 && "oldlace"@[0] == 'o');
    assert("olive"@.len() == 5 && "olive"@[0] == 'o');
    assert("olivedrab"@.len() == 9 && "olivedrab"@[0] == 'o');
    assert("orange"@.len() == 6 && "orange"@[0] == 'o');
    assert("orangered"@.len() == 9 && "orangered"@[0] == 'o');
    assert("orchid"@.len() == 6 && "orchid"@[0] == 'o');
    assert("palegoldenrod"@.len() == 13 && "palegoldenrod"@[0] == 'p');
    assert("palegreen"@.len() == 9 && "palegreen"@[0] == 'p');
    assert("paleturquoise"@.len() == 13 && "paleturquoise"@[0] == 'p');
    assert("palevioletred"@.len() == 13 && "palevioletred"@[0] == 'p');
    assert("papayawhip"@.len() == 10 && "papayawhip"@[0] == 'p');
    assert("peachpuff"@.len() == 9 && "peachpuff"@[0] == 'p');
    assert("peru"@.len() == 4 && "peru"@[0] == 'p');
    assert("pink"@.len() == 4 && "pink"@[0] == 'p');
    assert("plum"@.len() == 4 && "plum"@[0] == 'p');
    assert("powderblue"@.len() == 10 && "powderblue"@[0] == 'p');
    assert("purple"@.len() == 6 && "purple"@[0] == 'p');
    assert("rebeccapurple"@.len() == 13 && "rebeccapurple"@[0] == 'r');
    assert("red"@.len() == 3 && "red"@[0] == 'r');
    assert("rosybrown"@.len() == 9 && "rosybrown"@[0] == 'r');
    assert("royalblue"@.len() == 9 && "royalblue"@[0] == 'r');
}

proof fn letters_of_names_s_to_z(n: Seq<char>)
    ensures
        crate::color::named::names_s_to_z(n) is Some ==> n.len() > 0 && 's' <= n[0] <= 'z',
{
    reveal_strlit("saddlebrown");
    reveal_strlit("salmon");
    reveal_strlit("sandybrown");
    reveal_strlit("seagreen");
    reveal_strlit("seashell");
    reveal_strlit("sienna");
    reveal_strlit("silver");
    reveal_strlit("skyblue");
    reveal_strlit("slateblue");
    reveal_strlit("slategray");
    reveal_strlit("slategrey");
    reveal_strlit("snow");
    reveal_strlit("springgreen");
    reveal_strlit("steelblue");
    reveal_strlit("tan");
    reveal_strlit("teal");
    reveal_strlit("thistle");
    reveal_strlit("tomato");
    reveal_strlit("turquoise");
    reveal_strlit("violet");
    reveal_strlit("wheat");
    reveal_strlit("white");
    reveal_strlit("whitesmoke");
    reveal_strlit("yellow");
    reveal_strlit("yellowgreen");
    assert("saddlebrown"@.len() == 11 && "saddlebrown"@[0] == 's');
    assert("salmon"@.len() == 6 && "salmon"@[0] == 's');
    assert("sandybrown"@.len() == 10 && "sandybrown"@[0] == 's');
    assert("seagreen"@.len() == 8 && "seagreen"@[0] == 's');
    assert("seashell"@.len() == 8 && "seashell"@[0] == 's');
    assert("sienna"@.len() == 6 && "sienna"@[0] == 's');
    assert("silver"@.len() == 6 && "silver"@[0] == 's');
    assert("skyblue"@.len() == 7 && "skyblue"@[0] == 's');
    assert("slateblue"@.len() == 9 && "slateblue"@[0] == 's');
    assert("slategray"@.len() == 9 && "slategray"@[0] == 's');
    assert("slategrey"@.len() == 9 && "slategrey"@[0] == 's');
    assert("snow"@.len() == 4 && "snow"@[0] == 's');
    assert("springgreen"@.len() == 11 && "springgreen"@[0] == 's');
    assert("steelblue"@.len() == 9 && "steelblue"@[0] == 's');
    assert("tan"@.len() == 3 && "tan"@[0] == 't');
    assert("teal"@.len() == 4 && "teal"@[0] == 't');
    assert("thistle"@.len() == 7 && "thistle"@[0] == 't');
    assert("tomato"@.len() == 6 && "tomato"@[0] == 't');
    assert("turquoise"@.len() == 9 && "turquoise"@[0] == 't');
    assert("violet"@.len() == 6 && "violet"@[0] == 'v');
    assert("wheat"@.len() == 5 && "wheat"@[0] == 'w');
    assert("white"@.len() == 5 && "white"@[0] == 'w');
    assert("whitesmoke"@.len() == 10 && "whitesmoke"@[0] == 'w');
    assert("yellow"@.len() == 6 && "yellow"@[0] == 'y');
    assert("yellowgreen"@.len() == 11 && "yellowgreen"@[0] == 'y');
}

/// The colours whose names begin with `a` to `c` are these, and there are no others.
pub proof fn colors_of_names_a_to_c(n: Seq<char>)
    ensures
        n == "aliceblue"@ ==> crate::color::named::named(n) == of_bytes(0xF0_F8FF),
        n == "antiquewhite"@ ==> crate::color::named::named(n) == of_bytes(0xFA_EBD7),
        n == "aqua"@ ==> crate::color::named::named(n) == of_bytes(0x00_FFFF),
        n == "aquamarine"@ ==> crate::color::named::named(n) == of_bytes(0x7F_FFD4),
        n == "azure"@ ==> crate::color::named::named(n) == of_bytes(0xF0_FFFF),
        n == "beige"@ ==> crate::color::named::named(n) == of_bytes(0xF5_F5DC),
        n == "bisque"@ ==> crate::color::named::named(n) == of_bytes(0xFF_E4C4),
        n == "black"@ ==> crate::color::named::named(n) == of_bytes(0x00_0000),
        n == "blanchedalmond"@ ==> crate::color::named::named(n) == of_bytes(0xFF_EBCD),
        n == "blue"@ ==> crate::color::named::named(n) == of_bytes(0x00_00FF),
        n == "blueviolet"@ ==> crate::color::named::named(n) == of_bytes(0x8A_2BE2),
        n == "brown"@ ==> crate::color::named::named(n) == of_bytes(0xA5_2A2A),
        n == "burlywood"@ ==> crate::color::named::named(n) == of_bytes(0xDE_B887),
        n == "cadetblue"@ ==> crate::color::named::named(n) == of_bytes(0x5F_9EA0),
        n == "chartreuse"@ ==> crate::color::named::named(n) == of_bytes(0x7F_FF00),
        n == "chocolate"@ ==> crate::color::named::named(n) == of_bytes(0xD2_691E),
        n == "coral"@ ==> crate::color::named::named(n) == of_bytes(0xFF_7F50),
        n == "cornflowerblue"@ ==> crate::color::named::named(n) == of_bytes(0x64_95ED),
        n == "cornsilk"@ ==> crate::color::named::named(n) == of_bytes(0xFF_F8DC),
        n == "crimson"@ ==> crate::color::named::named(n) == of_bytes(0xDC_143C),
        n == "cyan"@ ==> crate::color::named::named(n) == of_bytes(0x00_FFFF),
        crate::color::named::named(n) is Some && 'a' <= n[0] <= 'c' ==> (n == "aliceblue"@ || n == "antiquewhite"@ || n == "aqua"@ || n == "aquamarine"@ || n == "azure"@ || n == "beige"@ || n == "bisque"@ || n == "black"@ || n == "blanchedalmond"@ || n == "blue"@ || n == "blueviolet"@ || n == "brown"@ || n == "burlywood"@ || n == "cadetblue"@ || n == "chartreuse"@ || n == "chocolate"@ || n == "coral"@ || n == "cornflowerblue"@ || n == "cornsilk"@ || n == "crimson"@ || n == "cyan"@),
{
    reveal_strlit("aliceblue");
    reveal_strlit("antiquewhite");
    reveal_strlit("aqua");
    reveal_strlit("aquamarine");
    reveal_strlit("azure");
    reveal_strlit("beige");
    reveal_strlit("bisque");
    reveal_strlit("black");
    reveal_strlit("blanchedalmond");
    reveal_strlit("blue");
    reveal_strlit("blueviolet");
    reveal_strlit("brown");
    reveal_strlit("burlywood");
    reveal_strlit("cadetblue");
    reveal_strlit("chartreuse");
    reveal_strlit("chocolate");
    reveal_strlit("coral");
    reveal_strlit("cornflowerblue");
    reveal_strlit("cornsilk");
    reveal_strlit("crimson");
    reveal_strlit("cyan");
    assert("aliceblue"@.len() == 9);
    assert("antiquewhite"@.len() == 12);
    assert("aqua"@.len() == 4);
    assert("aquamarine"@.len() == 10);
    assert("azure"@.len() == 5);
    assert("beige"@.len() == 5);
    assert("bisque"@.len() == 6);
    assert("black"@.len() == 5);
    assert("blanchedalmond"@.len() == 14);
    assert("blue"@.len() == 4);
    assert("blueviolet"@.len() == 10);
    assert("brown"@.len() == 5);
    assert("burlywood"@.len() == 9);
    assert("cadetblue"@.len() == 9);
    assert("chartreuse"@.len() == 10);
    assert("chocolate"@.len() == 9);
    assert("coral"@.len() == 5);
    assert("cornflowerblue"@.len() == 14);
    assert("cornsilk"@.len() == 8);
    assert("crimson"@.len() == 7);
    assert("cyan"@.len() == 4);
    assert("aliceblue"@[0] == 'a' && "burlywood"@[0] == 'b');
    assert("aliceblue"@[0] == 'a' && "cadetblue"@[0] == 'c');
    assert("aliceblue"@[0] == 'a' && "chocolate"@[0] == 'c');
    assert("aqua"@[0] == 'a' && "blue"@[0] == 'b');
    assert("aqua"@[0] == 'a' && "cyan"@[0] == 'c');
    assert("aquamarine"@[0] == 'a' && "blueviolet"@[0] == 'b');
    assert("aquamarine"@[0] == 'a' && "chartreuse"@[0] == 'c');
    assert("azure"@[0] == 'a' && "beige"@[0] == 'b');
    assert("azure"@[0] == 'a' && "black"@[0] == 'b');
    assert("azure"@[0] == 'a' && "brown"@[0] == 'b');
    assert("azure"@[0] == 'a' && "coral"@[0] == 'c');
    assert("beige"@[1] == 'e' && "black"@[1] == 'l');
    assert("beige"@[1] == 'e' && "brown"@[1] == 'r');
    assert("beige"@[0] == 'b' && "coral"@[0] == 'c');
    assert("black"@[1] == 'l' && "brown"@[1] == 'r');
    assert("black"@[0] == 'b' && "coral"@[0] == 'c');
    assert("blanchedalmond"@[0] == 'b' && "cornflowerblue"@[0] == 'c');
    assert("blue"@[0] == 'b' && "cyan"@[0] == 'c');
    assert("blueviolet"@[0] == 'b' && "chartreuse"@[0] == 'c');
    assert("brown"@[0] == 'b' && "coral"@[0] == 'c');
    assert("burlywood"@[0] == 'b' && "cadetblue"@[0] == 'c');
    assert("burlywood"@[0] == 'b' && "chocolate"@[0] == 'c');
    assert("cadetblue"@[1] == 'a' && "chocolate"@[1] == 'h');
    assert("aliceblue"@[0] == 'a');
    assert("antiquewhite"@[0] == 'a');
    assert("aqua"@[0] == 'a');
    assert("aquamarine"@[0] == 'a');
    assert("azure"@[0] == 'a');
    assert("beige"@[0] == 'b');
    assert("bisque"@[0] == 'b');
    assert("black"@[0] == 'b');
    assert("blanchedalmond"@[0] == 'b');
    assert("blue"@[0] == 'b');
    assert("blueviolet"@[0] == 'b');
    assert("brown"@[0] == 'b');
    assert("burlywood"@[0] == 'b');
    assert("cadetblue"@[0] == 'c');
    assert("chartreuse"@[0] == 'c');
    assert("chocolate"@[0] == 'c');
    assert("coral"@[0] == 'c');
    assert("cornflowerblue"@[0] == 'c');
    assert("cornsilk"@[0] == 'c');
    assert("crimson"@[0] == 'c');
    assert("cyan"@[0] == 'c');
    letters_of_names_a_to_c(n);
    letters_of_names_d(n);
    letters_of_names_e_to_k(n);
    letters_of_names_l(n);
    letters_of_names_m_to_n(n);
    letters_of_names_o_to_r(n);
    letters_of_names_s_to_z(n);
}

/// The colours whose names begin with `d` are these, and there are no others.
pub proof fn colors_of_names_d(n: Seq<char>)
    ensures
        n == "darkblue"@ ==> crate::color::named::named(n) == of_bytes(0x00_008B),
        n == "darkcyan"@ ==> crate::color::named::named(n) == of_bytes(0x00_8B8B),
        n == "darkgoldenrod"@ ==> crate::color::named::named(n) == of_bytes(0xB8_860B),
        n == "darkgray"@ ==> crate::color::named::named(n) == of_bytes(0xA9_A9A9),
        n == "darkgreen"@ ==> crate::color::named::named(n) == of_bytes(0x00_6400),
        n == "darkgrey"@ ==> crate::color::named::named(n) == of_bytes(0xA9_A9A9),
        n == "darkkhaki"@ ==> crate::color::named::named(n) == of_bytes(0xBD_B76B),
        n == "darkmagenta"@ ==> crate::color::named::named(n) == of_bytes(0x8B_008B),
        n == "darkolivegreen"@ ==> crate::color::named::named(n) == of_bytes(0x55_6B2F),
        n == "darkorange"@ ==> crate::color::named::named(n) == of_bytes(0xFF_8C00),
        n == "darkorchid"@ ==> crate::color::named::named(n) == of_bytes(0x99_32CC),
        n == "darkred"@ ==> crate::color::named::named(n) == of_bytes(0x8B_0000),
        n == "darksalmon"@ ==> crate::color::named::named(n) == of_bytes(0xE9_967A),
        n == "darkseagreen"@ ==> crate::color::named::named(n) == of_bytes(0x8F_BC8F),
        n == "darkslateblue"@ ==> crate::color::named::named(n) == of_bytes(0x48_3D8B),
        n == "darkslategray"@ ==> crate::color::named::named(n) == of_bytes(0x2F_4F4F),
        n == "darkslategrey"@ ==> crate::color::named::named(n) == of_bytes(0x2F_4F4F),
        n == "darkturquoise"@ ==> crate::color::named::named(n) == of_bytes(0x00_CED1),
        n == "darkviolet"@ ==> crate::color::named::named(n) == of_bytes(0x94_00D3),
        n == "deeppink"@ ==> crate::color::named::named(n) == of_bytes(0xFF_1493),
        n == "deepskyblue"@ ==> crate::color::named::named(n) == of_bytes(0x00_BFFF),
        n == "dimgray"@ ==> crate::color::named::named(n) == of_bytes(0x69_6969),
        n == "dimgrey"@ ==> crate::color::named::named(n) == of_bytes(0x69_6969),
        n == "dodgerblue"@ ==> crate::color::named::named(n) == of_bytes(0x1E_90FF),
        crate::color::named::named(n) is Some && 'd' <= n[0] <= 'd' ==> (n == "darkblue"@ || n == "darkcyan"@ || n == "darkgoldenrod"@ || n == "darkgray"@ || n == "darkgreen"@ || n == "darkgrey"@ || n == "darkkhaki"@ || n == "darkmagenta"@ || n == "darkolivegreen"@ || n == "darkorange"@ || n == "darkorchid"@ || n == "darkred"@ || n == "darksalmon"@ || n == "darkseagreen"@ || n == "darkslateblue"@ || n == "darkslategray"@ || n == "darkslategrey"@ || n == "darkturquoise"@ || n == "darkviolet"@ || n == "deeppink"@ || n == "deepskyblue"@ || n == "dimgray"@ || n == "dimgrey"@ || n == "dodgerblue"@),
{
    reveal_strlit("darkblue");
    reveal_strlit("darkcyan");
    reveal_strlit("darkgoldenrod");
    reveal_strlit("darkgray");
    reveal_strlit("darkgreen");
    reveal_strlit("darkgrey");
    reveal_strlit("darkkhaki");
    reveal_strlit("darkmagenta");
    reveal_strlit("darkolivegreen");
    reveal_strlit("darkorange");
    reveal_strlit("darkorchid");
    reveal_strlit("darkred");
    reveal_strlit("darksalmon");
    reveal_strlit("darkseagreen");
    reveal_strlit("darkslateblue");
    reveal_strlit("darkslategray");
    reveal_strlit("darkslategrey");
    reveal_strlit("darkturquoise");
    reveal_strlit("darkviolet");
    reveal_strlit("deeppink");
    reveal_strlit("deepskyblue");
    reveal_strlit("dimgray");
    reveal_strlit("dimgrey");
    reveal_strlit("dodgerblue");
    assert("darkblue"@.len() == 8);
    assert("darkcyan"@.len() == 8);
    assert("darkgoldenrod"@.len() == 13);
    assert("darkgray"@.len() == 8);
    assert("darkgreen"@.len() == 9);
    assert("darkgrey"@.len() == 8);
    assert("darkkhaki"@.len() == 9);
    assert("darkmagenta"@.len() == 11);
    assert("darkolivegreen"@.len() == 14);
    assert("darkorange"@.len() == 10);
    assert("darkorchid"@.len() == 10);
    assert("darkred"@.len() == 7);
    assert("darksalmon"@.len() == 10);
    assert("darkseagreen"@.len() == 12);
    assert("darkslateblue"@.len() == 13);
    assert("darkslategray"@.len() == 13);
    assert("darkslategrey"@.len() == 13);
    assert("darkturquoise"@.len() == 13);
    assert("darkviolet"@.len() == 10);
    assert("deeppink"@.len() == 8);
    assert("deepskyblue"@.len() == 11);
    assert("dimgray"@.len() == 7);
    assert("dimgrey"@.len() == 7);
    assert("dodgerblue"@.len() == 10);
    assert("darkblue"@[4] == 'b' && "darkcyan"@[4] == 'c');
    assert("darkblue"@[4] == 'b' && "darkgray"@[4] == 'g');
    assert("darkblue"@[4] == 'b' && "darkgrey"@[4] == 'g');
    assert("darkblue"@[1] == 'a' && "deeppink"@[1] == 'e');
    assert("darkcyan"@[4] == 'c' && "darkgray"@[4] == 'g');
    assert("darkcyan"@[4] == 'c' && "darkgrey"@[4] == 'g');
    assert("darkcyan"@[1] == 'a' && "deeppink"@[1] == 'e');
    assert("darkgoldenrod"@[4] == 'g' && "darkslateblue"@[4] == 's');
    assert("darkgoldenrod"@[4] == 'g' && "darkslategray"@[4] == 's');
    assert("darkgoldenrod"@[4] == 'g' && "darkslategrey"@[4] == 's');
    assert("darkgoldenrod"@[4] == 'g' && "darkturquoise"@[4] == 't');
    assert("darkgray"@[6] == 'a' && "darkgrey"@[6] == 'e');
    assert("darkgray"@[1] == 'a' && "deeppink"@[1] == 'e');
    assert("darkgreen"@[4] == 'g' && "darkkhaki"@[4] == 'k');
    assert("darkgrey"@[1] == 'a' && "deeppink"@[1] == 'e');
    assert("darkmagenta"@[1] == 'a' && "deepskyblue"@[1] == 'e');
    assert("darkorange"@[6] == 'a' && "darkorchid"@[6] == 'c');
    assert("darkorange"@[4] == 'o' && "darksalmon"@[4] == 's');
    assert("darkorange"@[4] == 'o' && "darkviolet"@[4] == 'v');
    assert("darkorange"@[1] == 'a' && "dodgerblue"@[1] == 'o');
    assert("darkorchid"@[4] == 'o' && "darksalmon"@[4] == 's');
    assert("darkorchid"@[4] == 'o' && "darkviolet"@[4] == 'v');
    assert("darkorchid"@[1] == 'a' && "dodgerblue"@[1] == 'o');
    assert("darkred"@[1] == 'a' && "dimgray"@[1] == 'i');
    assert("darkred"@[1] == 'a' && "dimgrey"@[1] == 'i');
    assert("darksalmon"@[4] == 's' && "darkviolet"@[4] == 'v');
    assert("darksalmon"@[1] == 'a' && "dodgerblue"@[1] == 'o');
    assert("darkslateblue"@[9] == 'b' && "darkslategray"@[9] == 'g');
    assert("darkslateblue"@[9] == 'b' && "darkslategrey"@[9] == 'g');
    assert("darkslateblue"@[4] == 's' && "darkturquoise"@[4] == 't');
    assert("darkslategray"@[11] == 'a' && "darkslategrey"@[11] == 'e');
    assert("darkslategray"@[4] == 's' && "darkturquoise"@[4] == 't');
    assert("darkslategrey"@[4] == 's' && "darkturquoise"@[4] == 't');
    assert("darkviolet"@[1] == 'a' && "dodgerblue"@[1] == 'o');
    assert("dimgray"@[5] == 'a' && "dimgrey"@[5] == 'e');
    assert("darkblue"@[0] == 'd');
    assert("darkcyan"@[0] == 'd');
    assert("darkgoldenrod"@[0] == 'd');
    assert("darkgray"@[0] == 'd');
    assert("darkgreen"@[0] == 'd');
    assert("darkgrey"@[0] == 'd');
    assert("darkkhaki"@[0] == 'd');
    assert("darkmagenta"@[0] == 'd');
    assert("darkolivegreen"@[0] == 'd');
    assert("darkorange"@[0] == 'd');
    assert("darkorchid"@[0] == 'd');
    assert("darkred"@[0] == 'd');
    assert("darksalmon"@[0] == 'd');
    assert("darkseagreen"@[0] == 'd');
    assert("darkslateblue"@[0] == 'd');
    assert("darkslategray"@[0] == 'd');
    assert("darkslategrey"@[0] == 'd');
    assert("darkturquoise"@[0] == 'd');
    assert("darkviolet"@[0] == 'd');
    assert("deeppink"@[0] == 'd');
    assert("deepskyblue"@[0] == 'd');
    assert("dimgray"@[0] == 'd');
    assert("dimgrey"@[0] == 'd');
    assert("dodgerblue"@[0] == 'd');
    letters_of_names_a_to_c(n);
    letters_of_names_d(n);
    letters_of_names_e_to_k(n);
    letters_of_names_l(n);
    letters_of_names_m_to_n(n);
    letters_of_names_o_to_r(n);
    letters_of_names_s_to_z(n);
}

/// The colours whose names begin with `e` to `k` are these, and there are no others.
pub proof fn colors_of_names_e_to_k(n: Seq<char>)
    ensures
        n == "firebrick"@ ==> crate::color::named::named(n) == of_bytes(0xB2_2222),
        n == "floralwhite"@ ==> crate::color::named::named(n) == of_bytes(0xFF_FAF0),
        n == "forestgreen"@ ==> crate::color::named::named(n) == of_bytes(0x22_8B22),
        n == "fuchsia"@ ==> crate::color::named::named(n) == of_bytes(0xFF_00FF),
        n == "gainsboro"@ ==> crate::color::named::named(n) == of_bytes(0xDC_DCDC),
        n == "ghostwhite"@ ==> crate::color::named::named(n) == of_bytes(0xF8_F8FF),
        n == "gold"@ ==> crate::color::named::named(n) == of_bytes(0xFF_D700),
        n == "goldenrod"@ ==> crate::color::named::named(n) == of_bytes(0xDA_A520),
        n == "gray"@ ==> crate::color::named::named(n) == of_bytes(0x80_8080),
        n == "green"@ ==> crate::color::named::named(n) == of_bytes(0x00_8000),
        n == "greenyellow"@ ==> crate::color::named::named(n) == of_bytes(0xAD_FF2F),
        n == "grey"@ ==> crate::color::named::named(n) == of_bytes(0x80_8080),
        n == "honeydew"@ ==> crate::color::named::named(n) == of_bytes(0xF0_FFF0),
        n == "hotpink"@ ==> crate::color::named::named(n) == of_bytes(0xFF_69B4),
        n == "indianred"@ ==> crate::color::named::named(n) == of_bytes(0xCD_5C5C),
        n == "indigo"@ ==> crate::color::named::named(n) == of_bytes(0x4B_0082),
        n == "ivory"@ ==> crate::color::named::named(n) == of_bytes(0xFF_FFF0),
        n == "khaki"@ ==> crate::color::named::named(n) == of_bytes(0xF0_E68C),
        crate::color::named::named(n) is Some && 'e' <= n[0] <= 'k' ==> (n == "firebrick"@ || n == "floralwhite"@ || n == "forestgreen"@ || n == "fuchsia"@ || n == "gainsboro"@ || n == "ghostwhite"@ || n == "gold"@ || n == "goldenrod"@ || n == "gray"@ || n == "green"@ || n == "greenyellow"@ || n == "grey"@ || n == "honeydew"@ || n == "hotpink"@ || n == "indianred"@ || n == "indigo"@ || n == "ivory"@ || n == "khaki"@),
{
    reveal_strlit("firebrick");
    reveal_strlit("floralwhite");
    reveal_strlit("forestgreen");
    reveal_strlit("fuchsia");
    reveal_strlit("gainsboro");
    reveal_strlit("ghostwhite");
    reveal_strlit("gold");
    reveal_strlit("goldenrod");
    reveal_strlit("gray");
    reveal_strlit("green");
    reveal_strlit("greenyellow");
    reveal_strlit("grey");
    reveal_strlit("honeydew");
    reveal_strlit("hotpink");
    reveal_strlit("indianred");
    reveal_strlit("indigo");
    reveal_strlit("ivory");
    reveal_strlit("khaki");
    assert("firebrick"@.len() == 9);
    assert("floralwhite"@.len() == 11);
    assert("forestgreen"@.len() == 11);
    assert("fuchsia"@.len() == 7);
    assert("gainsboro"@.len() == 9);
    assert("ghostwhite"@.len() == 10);
    assert("gold"@.len() == 4);
    assert("goldenrod"@.len() == 9);
    assert("gray"@.len() == 4);
    assert("green"@.len() == 5);
    assert("greenyellow"@.len() == 11);
    assert("grey"@.len() == 4);
    assert("honeydew"@.len() == 8);
    assert("hotpink"@.len() == 7);
    assert("indianred"@.len() == 9);
    assert("indigo"@.len() == 6);
    assert("ivory"@.len() == 5);
    assert("khaki"@.len() == 5);
    assert("firebrick"@[0] == 'f' && "gainsboro"@[0] == 'g');
    assert("firebrick"@[0] == 'f' && "goldenrod"@[0] == 'g');
    assert("firebrick"@[0] == 'f' && "indianred"@[0] == 'i');
    assert("floralwhite"@[1] == 'l' && "forestgreen"@[1] == 'o');
    assert("floralwhite"@[0] == 'f' && "greenyellow"@[0] == 'g');
    assert("forestgreen"@[0] == 'f' && "greenyellow"@[0] == 'g');
    assert("fuchsia"@[0] == 'f' && "hotpink"@[0] == 'h');
    assert("gainsboro"@[1] == 'a' && "goldenrod"@[1] == 'o');
    assert("gainsboro"@[0] == 'g' && "indianred"@[0] == 'i');
    assert("gold"@[1] == 'o' && "gray"@[1] == 'r');
    assert("gold"@[1] == 'o' && "grey"@[1] == 'r');
    assert("goldenrod"@[0] == 'g' && "indianred"@[0] == 'i');
    assert("gray"@[2] == 'a' && "grey"@[2] == 'e');
    assert("green"@[0] == 'g' && "ivory"@[0] == 'i');
    assert("green"@[0] == 'g' && "khaki"@[0] == 'k');
    assert("ivory"@[0] == 'i' && "khaki"@[0] == 'k');
    assert("firebrick"@[0] == 'f');
    assert("floralwhite"@[0] == 'f');
    assert("forestgreen"@[0] == 'f');
    assert("fuchsia"@[0] == 'f');
    assert("gainsboro"@[0] == 'g');
    assert("ghostwhite"@[0] == 'g');
    assert("gold"@[0] == 'g');
    assert("goldenrod"@[0] == 'g');
    assert("gray"@[0] == 'g');
    assert("green"@[0] == 'g');
    assert("greenyellow"@[0] == 'g');
    assert("grey"@[0] == 'g');
    assert("honeydew"@[0] == 'h');
    assert("hotpink"@[0] == 'h');
    assert("indianred"@[0] == 'i');
    assert("indigo"@[0] == 'i');
    assert("ivory"@[0] == 'i');
    assert("khaki"@[0] == 'k');
    letters_of_names_a_to_c(n);
    letters_of_names_d(n);
    letters_of_names_e_to_k(n);
    letters_of_names_l(n);
    letters_of_names_m_to_n(n);
    letters_of_names_o_to_r(n);
    letters_of_names_s_to_z(n);
}

/// The colours whose names begin with `l` are these, and there are no others.
pub proof fn colors_of_names_l(n: Seq<char>)
    ensures
        n == "lavender"@ ==> crate::color::named::named(n) == of_bytes(0xE6_E6FA),
        n == "lavenderblush"@ ==> crate::color::named::named(n) == of_bytes(0xFF_F0F5),
        n == "lawngreen"@ ==> crate::color::named::named(n) == of_bytes(0x7C_FC00),
        n == "lemonchiffon"@ ==> crate::color::named::named(n) == of_bytes(0xFF_FACD),
        n == "lightblue"@ ==> crate::color::named::named(n) == of_bytes(0xAD_D8E6),
        n == "lightcoral"@ ==> crate::color::named::named(n) == of_bytes(0xF0_8080),
        n == "lightcyan"@ ==> crate::color::named::named(n) == of_bytes(0xE0_FFFF),
        n == "lightgoldenrodyellow"@ ==> crate::color::named::named(n) == of_bytes(0xFA_FAD2),
        n == "lightgray"@ ==> crate::color::named::named(n) == of_bytes(0xD3_D3D3),
        n == "lightgreen"@ ==> crate::color::named::named(n) == of_bytes(0x90_EE90),
        n == "lightgrey"@ ==> crate::color::named::named(n) == of_bytes(0xD3_D3D3),
        n == "lightpink"@ ==> crate::color::named::named(n) == of_bytes(0xFF_B6C1),
        n == "lightsalmon"@ ==> crate::color::named::named(n) == of_bytes(0xFF_A07A),
        n == "lightseagreen"@ ==> crate::color::named::named(n) == of_bytes(0x20_B2AA),
        n == "lightskyblue"@ ==> crate::color::named::named(n) == of_bytes(0x87_CEFA),
        n == "lightslategray"@ ==> crate::color::named::named(n) == of_bytes(0x77_8899),
        n == "lightslategrey"@ ==> crate::color::named::named(n) == of_bytes(0x77_8899),
        n == "lightsteelblue"@ ==> crate::color::named::named(n) == of_bytes(0xB0_C4DE),
        n == "lightyellow"@ ==> crate::color::named::named(n) == of_bytes(0xFF_FFE0),
        n == "lime"@ ==> crate::color::named::named(n) == of_bytes(0x00_FF00),
        n == "limegreen"@ ==> crate::color::named::named(n) == of_bytes(0x32_CD32),
        n == "linen"@ ==> crate::color::named::named(n) == of_bytes(0xFA_F0E6),
        crate::color::named::named(n) is Some && 'l' <= n[0] <= 'l' ==> (n == "lavender"@ || n == "lavenderblush"@ || n == "lawngreen"@ || n == "lemonchiffon"@ || n == "lightblue"@ || n == "lightcoral"@ || n == "lightcyan"@ || n == "lightgoldenrodyellow"@ || n == "lightgray"@ || n == "lightgreen"@ || n == "lightgrey"@ || n == "lightpink"@ || n == "lightsalmon"@ || n == "lightseagreen"@ || n == "lightskyblue"@ || n == "lightslategray"@ || n == "lightslategrey"@ || n == "lightsteelblue"@ || n == "lightyellow"@ || n == "lime"@ || n == "limegreen"@ || n == "linen"@),
{
    reveal_strlit("lavender");
    reveal_strlit("lavenderblush");
    reveal_strlit("lawngreen");
    reveal_strlit("lemonchiffon");
    reveal_strlit("lightblue");
    reveal_strlit("lightcoral");
    reveal_strlit("lightcyan");
    reveal_strlit("lightgoldenrodyellow");
    reveal_strlit("lightgray");
    reveal_strlit("lightgreen");
    reveal_strlit("lightgrey");
    reveal_strlit("lightpink");
    reveal_strlit("lightsalmon");
    reveal_strlit("lightseagreen");
    reveal_strlit("lightskyblue");
    reveal_strlit("lightslategray");
    reveal_strlit("lightslategrey");
    reveal_strlit("lightsteelblue");
    reveal_strlit("lightyellow");
    reveal_strlit("lime");
    reveal_strlit("limegreen");
    reveal_strlit("linen");
    assert("lavender"@.len() == 8);
    assert("lavenderblush"@.len() == 13);
    assert("lawngreen"@.len() == 9);
    assert("lemonchiffon"@.len() == 12);
    assert("lightblue"@.len() == 9);
    assert("lightcoral"@.len() == 10);
    assert("lightcyan"@.len() == 9);
    assert("lightgoldenrodyellow"@.len() == 20);
    assert("lightgray"@.len() == 9);
    assert("lightgreen"@.len() == 10);
    assert("lightgrey"@.len() == 9);
    assert("lightpink"@.len() == 9);
    assert("lightsalmon"@.len() == 11);
    assert("lightseagreen"@.len() == 13);
    assert("lightskyblue"@.len() == 12);
    assert("lightslategray"@.len() == 14);
    assert("lightslategrey"@.len() == 14);
    assert("lightsteelblue"@.len() == 14);
    assert("lightyellow"@.len() == 11);
    assert("lime"@.len() == 4);
    assert("limegreen"@.len() == 9);
    assert("linen"@.len() == 5);
    assert("lavenderblush"@[1] == 'a' && "lightseagreen"@[1] == 'i');
    assert("lawngreen"@[1] == 'a' && "lightblue"@[1] == 'i');
    assert("lawngreen"@[1] == 'a' && "lightcyan"@[1] == 'i');
    assert("lawngreen"@[1] == 'a' && "lightgray"@[1] == 'i');
    assert("lawngreen"@[1] == 'a' && "lightgrey"@[1] == 'i');
    assert("lawngreen"@[1] == 'a' && "lightpink"@[1] == 'i');
    assert("lawngreen"@[1] == 'a' && "limegreen"@[1] == 'i');
    assert("lemonchiffon"@[1] == 'e' && "lightskyblue"@[1] == 'i');
    assert("lightblue"@[5] == 'b' && "lightcyan"@[5] == 'c');
    assert("lightblue"@[5] == 'b' && "lightgray"@[5] == 'g');
    assert("lightblue"@[5] == 'b' && "lightgrey"@[5] == 'g');
    assert("lightblue"@[5] == 'b' && "lightpink"@[5] == 'p');
    assert("lightblue"@[2] == 'g' && "limegreen"@[2] == 'm');
    assert("lightcoral"@[5] == 'c' && "lightgreen"@[5] == 'g');
    assert("lightcyan"@[5] == 'c' && "lightgray"@[5] == 'g');
    assert("lightcyan"@[5] == 'c' && "lightgrey"@[5] == 'g');
    assert("lightcyan"@[5] == 'c' && "lightpink"@[5] == 'p');
    assert("lightcyan"@[2] == 'g' && "limegreen"@[2] == 'm');
    assert("lightgray"@[7] == 'a' && "lightgrey"@[7] == 'e');
    assert("lightgray"@[5] == 'g' && "lightpink"@[5] == 'p');
    assert("lightgray"@[2] == 'g' && "limegreen"@[2] == 'm');
    assert("lightgrey"@[5] == 'g' && "lightpink"@[5] == 'p');
    assert("lightgrey"@[2] == 'g' && "limegreen"@[2] == 'm');
    assert("lightpink"@[2] == 'g' && "limegreen"@[2] == 'm');
    assert("lightsalmon"@[5] == 's' && "lightyellow"@[5] == 'y');
    assert("lightslategray"@[12] == 'a' && "lightslategrey"@[12] == 'e');
    assert("lightslategray"@[6] == 'l' && "lightsteelblue"@[6] == 't');
    assert("lightslategrey"@[6] == 'l' && "lightsteelblue"@[6] == 't');
    assert("lavender"@[0] == 'l');
    assert("lavenderblush"@[0] == 'l');
    assert("lawngreen"@[0] == 'l');
    assert("lemonchiffon"@[0] == 'l');
    assert("lightblue"@[0] == 'l');
    assert("lightcoral"@[0] == 'l');
    assert("lightcyan"@[0] == 'l');
    assert("lightgoldenrodyellow"@[0] == 'l');
    assert("lightgray"@[0] == 'l');
    assert("lightgreen"@[0] == 'l');
    assert("lightgrey"@[0] == 'l');
    assert("lightpink"@[0] == 'l');
    assert("lightsalmon"@[0] == 'l');
    assert("lightseagreen"@[0] == 'l');
    assert("lightskyblue"@[0] == 'l');
    assert("lightslategray"@[0] == 'l');
    assert("lightslategrey"@[0] == 'l');
    assert("lightsteelblue"@[0] == 'l');
    assert("lightyellow"@[0] == 'l');
    assert("lime"@[0] == 'l');
    assert("limegreen"@[0] == 'l');
    assert("linen"@[0] == 'l');
    letters_of_names_a_to_c(n);
    letters_of_names_d(n);
    letters_of_names_e_to_k(n);
    letters_of_names_l(n);
    letters_of_names_m_to_n(n);
    letters_of_names_o_to_r(n);
    letters_of_names_s_to_z(n);
}

/// The colours whose names begin with `m` to `n` are these, and there are no others.
pub proof fn colors_of_names_m_to_n(n: Seq<char>)
    ensures
        n == "magenta"@ ==> crate::color::named::named(n) == of_bytes(0xFF_00FF),
        n == "maroon"@ ==> crate::color::named::named(n) == of_bytes(0x80_0000),
        n == "mediumaquamarine"@ ==> crate::color::named::named(n) == of_bytes(0x66_CDAA),
        n == "mediumblue"@ ==> crate::color::named::named(n) == of_bytes(0x00_00CD),
        n == "mediumorchid"@ ==> crate::color::named::named(n) == of_bytes(0xBA_55D3),
        n == "mediumpurple"@ ==> crate::color::named::named(n) == of_bytes(0x93_70DB),
        n == "mediumseagreen"@ ==> crate::color::named::named(n) == of_bytes(0x3C_B371),
        n == "mediumslateblue"@ ==> crate::color::named::named(n) == of_bytes(0x7B_68EE),
        n == "mediumspringgreen"@ ==> crate::color::named::named(n) == of_bytes(0x00_FA9A),
        n == "mediumturquoise"@ ==> crate::color::named::named(n) == of_bytes(0x48_D1CC),
        n == "mediumvioletred"@ ==> crate::color::named::named(n) == of_bytes(0xC7_1585),
        n == "midnightblue"@ ==> crate::color::named::named(n) == of_bytes(0x19_1970),
        n == "mintcream"@ ==> crate::color::named::named(n) == of_bytes(0xF5_FFFA),
        n == "mistyrose"@ ==> crate::color::named::named(n) == of_bytes(0xFF_E4E1),
        n == "moccasin"@ ==> crate::color::named::named(n) == of_bytes(0xFF_E4B5),
        n == "navajowhite"@ ==> crate::color::named::named(n) == of_bytes(0xFF_DEAD),
        n == "navy"@ ==> crate::color::named::named(n) == of_bytes(0x00_0080),
        crate::color::named::named(n) is Some && 'm' <= n[0] <= 'n' ==> (n == "magenta"@ || n == "maroon"@ || n == "mediumaquamarine"@ || n == "mediumblue"@ || n == "mediumorchid"@ || n == "mediumpurple"@ || n == "mediumseagreen"@ || n == "mediumslateblue"@ || n == "mediumspringgreen"@ || n == "mediumturquoise"@ || n == "mediumvioletred"@ || n == "midnightblue"@ || n == "mintcream"@ || n == "mistyrose"@ || n == "moccasin"@ || n == "navajowhite"@ || n == "navy"@),
{
    reveal_strlit("magenta");
    reveal_strlit("maroon");
    reveal_strlit("mediumaquamarine");
    reveal_strlit("mediumblue");
    reveal_strlit("mediumorchid");
    reveal_strlit("mediumpurple");
    reveal_strlit("mediumseagreen");
    reveal_strlit("mediumslateblue");
    reveal_strlit("mediumspringgreen");
    reveal_strlit("mediumturquoise");
    reveal_strlit("mediumvioletred");
    reveal_strlit("midnightblue");
    reveal_strlit("mintcream");
    reveal_strlit("mistyrose");
    reveal_strlit("moccasin");
    reveal_strlit("navajowhite");
    reveal_strlit("navy");
    assert("magenta"@.len() == 7);
    assert("maroon"@.len() == 6);
    assert("mediumaquamarine"@.len() == 16);
    assert("mediumblue"@.len() == 10);
    assert("mediumorchid"@.len() == 12);
    assert("mediumpurple"@.len() == 12);
    assert("mediumseagreen"@.len() == 14);
    assert("mediumslateblue"@.len() == 15);
    assert("mediumspringgreen"@.len() == 17);
    assert("mediumturquoise"@.len() == 15);
    assert("mediumvioletred"@.len() == 15);
    assert("midnightblue"@.len() == 12);
    assert("mintcream"@.len() == 9);
    assert("mistyrose"@.len() == 9);
    assert("moccasin"@.len() == 8);
    assert("navajowhite"@.len() == 11);
    assert("navy"@.len() == 4);
    assert("mediumorchid"@[6] == 'o' && "mediumpurple"@[6] == 'p');
    assert("mediumorchid"@[1] == 'e' && "midnightblue"@[1] == 'i');
    assert("mediumpurple"@[1] == 'e' && "midnightblue"@[1] == 'i');
    assert("mediumslateblue"@[6] == 's' && "mediumturquoise"@[6] == 't');
    assert("mediumslateblue"@[6] == 's' && "mediumvioletred"@[6] == 'v');
    assert("mediumturquoise"@[6] == 't' && "mediumvioletred"@[6] == 'v');
    assert("mintcream"@[2] == 'n' && "mistyrose"@[2] == 's');
    assert("magenta"@[0] == 'm');
    assert("maroon"@[0] == 'm');
    assert("mediumaquamarine"@[0] == 'm');
    assert("mediumblue"@[0] == 'm');
    assert("mediumorchid"@[0] == 'm');
    assert("mediumpurple"@[0] == 'm');
    assert("mediumseagreen"@[0] == 'm');
    assert("mediumslateblue"@[0] == 'm');
    assert("mediumspringgreen"@[0] == 'm');
    assert("mediumturquoise"@[0] == 'm');
    assert("mediumvioletred"@[0] == 'm');
    assert("midnightblue"@[0] == 'm');
    assert("mintcream"@[0] == 'm');
    assert("mistyrose"@[0] == 'm');
    assert("moccasin"@[0] == 'm');
    assert("navajowhite"@[0] == 'n');
    assert("navy"@[0] == 'n');
    letters_of_names_a_to_c(n);
    letters_of_names_d(n);
    letters_of_names_e_to_k(n);
    letters_of_names_l(n);
    letters_of_names_m_to_n(n);
    letters_of_names_o_to_r(n);
    letters_of_names_s_to_z(n);
}

/// The colours whose names begin with `o` to `r` are these, and there are no others.
pub proof fn colors_of_names_o_to_r(n: Seq<char>)
    ensures
        n == "oldlace"@ ==> crate::color::named::named(n) == of_bytes(0xFD_F5E6),
        n == "olive"@ ==> crate::color::named::named(n) == of_bytes(0x80_8000),
        n == "olivedrab"@ ==> crate::color::named::named(n) == of_bytes(0x6B_8E23),
        n == "orange"@ ==> crate::color::named::named(n) == of_bytes(0xFF_A500),
        n == "orangered"@ ==> crate::color::named::named(n) == of_bytes(0xFF_4500),
        n == "orchid"@ ==> crate::color::named::named(n) == of_bytes(0xDA_70D6),
        n == "palegoldenrod"@ ==> crate::color::named::named(n) == of_bytes(0xEE_E8AA),
        n == "palegreen"@ ==> crate::color::named::named(n) == of_bytes(0x98_FB98),
        n == "paleturquoise"@ ==> crate::color::named::named(n) == of_bytes(0xAF_EEEE),
        n == "palevioletred"@ ==> crate::color::named::named(n) == of_bytes(0xDB_7093),
        n == "papayawhip"@ ==> crate::color::named::named(n) == of_bytes(0xFF_EFD5),
        n == "peachpuff"@ ==> crate::color::named::named(n) == of_bytes(0xFF_DAB9),
        n == "peru"@ ==> crate::color::named::named(n) == of_bytes(0xCD_853F),
        n == "pink"@ ==> crate::color::named::named(n) == of_bytes(0xFF_C0CB),
        n == "plum"@ ==> crate::color::named::named(n) == of_bytes(0xDD_A0DD),
        n == "powderblue"@ ==> crate::color::named::named(n) == of_bytes(0xB0_E0E6),
        n == "purple"@ ==> crate::color::named::named(n) == of_bytes(0x80_0080),
        n == "rebeccapurple"@ ==> crate::color::named::named(n) == of_bytes(0x66_3399),
        n == "red"@ ==> crate::color::named::named(n) == of_bytes(0xFF_0000),
        n == "rosybrown"@ ==> crate::color::named::named(n) == of_bytes(0xBC_8F8F),
        n == "royalblue"@ ==> crate::color::named::named(n) == of_bytes(0x41_69E1),
        crate::color::named::named(n) is Some && 'o' <= n[0] <= 'r' ==> (n == "oldlace"@ || n == "olive"@ || n == "olivedrab"@ || n == "orange"@ || n == "orangered"@ || n == "orchid"@ || n == "palegoldenrod"@ || n == "palegreen"@ || n == "paleturquoise"@ || n == "palevioletred"@ || n == "papayawhip"@ || n == "peachpuff"@ || n == "peru"@ || n == "pink"@ || n == "plum"@ || n == "powderblue"@ || n == "purple"@ || n == "rebeccapurple"@ || n == "red"@ || n == "rosybrown"@ || n == "royalblue"@),
{
    reveal_strlit("oldlace");
    reveal_strlit("olive");
    reveal_strlit("olivedrab");
    reveal_strlit("orange");
    reveal_strlit("orangered");
    reveal_strlit("orchid");
    reveal_strlit("palegoldenrod");
    reveal_strlit("palegreen");
    reveal_strlit("paleturquoise");
    reveal_strlit("palevioletred");
    reveal_strlit("papayawhip");
    reveal_strlit("peachpuff");
    reveal_strlit("peru");
    reveal_strlit("pink");
    reveal_strlit("plum");
    reveal_strlit("powderblue");
    reveal_strlit("purple");
    reveal_strlit("rebeccapurple");
    reveal_strlit("red");
    reveal_strlit("rosybrown");
    reveal_strlit("royalblue");
    assert("oldlace"@.len() == 7);
    assert("olive"@.len() == 5);
    assert("olivedrab"@.len() == 9);
    assert("orange"@.len() == 6);
    assert("orangered"@.len() == 9);
    assert("orchid"@.len() == 6);
    assert("palegoldenrod"@.len() == 13);
    assert("palegreen"@.len() == 9);
    assert("paleturquoise"@.len() == 13);
    assert("palevioletred"@.len() == 13);
    assert("papayawhip"@.len() == 10);
    assert("peachpuff"@.len() == 9);
    assert("peru"@.len() == 4);
    assert("pink"@.len() == 4);
    assert("plum"@.len() == 4);
    assert("powderblue"@.len() == 10);
    assert("purple"@.len() == 6);
    assert("rebeccapurple"@.len() == 13);
    assert("red"@.len() == 3);
    assert("rosybrown"@.len() == 9);
    assert("royalblue"@.len() == 9);
    assert("olivedrab"@[1] == 'l' && "orangered"@[1] == 'r');
    assert("olivedrab"@[0] == 'o' && "palegreen"@[0] == 'p');
    assert("olivedrab"@[0] == 'o' && "peachpuff"@[0] == 'p');
    assert("olivedrab"@[0] == 'o' && "rosybrown"@[0] == 'r');
    assert("olivedrab"@[0] == 'o' && "royalblue"@[0] == 'r');
    assert("orange"@[2] == 'a' && "orchid"@[2] == 'c');
    assert("orange"@[0] == 'o' && "purple"@[0] == 'p');
    assert("orangered"@[0] == 'o' && "palegreen"@[0] == 'p');
    assert("orangered"@[0] == 'o' && "peachpuff"@[0] == 'p');
    assert("orangered"@[0] == 'o' && "rosybrown"@[0] == 'r');
    assert("orangered"@[0] == 'o' && "royalblue"@[0] == 'r');
    assert("orchid"@[0] == 'o' && "purple"@[0] == 'p');
    assert("palegoldenrod"@[4] == 'g' && "paleturquoise"@[4] == 't');
    assert("palegoldenrod"@[4] == 'g' && "palevioletred"@[4] == 'v');
    assert("palegoldenrod"@[0] == 'p' && "rebeccapurple"@[0] == 'r');
    assert("palegreen"@[1] == 'a' && "peachpuff"@[1] == 'e');
    assert("palegreen"@[0] == 'p' && "rosybrown"@[0] == 'r');
    assert("palegreen"@[0] == 'p' && "royalblue"@[0] == 'r');
    assert("paleturquoise"@[4] == 't' && "palevioletred"@[4] == 'v');
    assert("paleturquoise"@[0] == 'p' && "rebeccapurple"@[0] == 'r');
    assert("palevioletred"@[0] == 'p' && "rebeccapurple"@[0] == 'r');
    assert("papayawhip"@[1] == 'a' && "powderblue"@[1] == 'o');
    assert("peachpuff"@[0] == 'p' && "rosybrown"@[0] == 'r');
    assert("peachpuff"@[0] == 'p' && "royalblue"@[0] == 'r');
    assert("peru"@[1] == 'e' && "pink"@[1] == 'i');
    assert("peru"@[1] == 'e' && "plum"@[1] == 'l');
    assert("pink"@[1] == 'i' && "plum"@[1] == 'l');
    assert("rosybrown"@[2] == 's' && "royalblue"@[2] == 'y');
    assert("oldlace"@[0] == 'o');
    assert("olive"@[0] == 'o');
    assert("olivedrab"@[0] == 'o');
    assert("orange"@[0] == 'o');
    assert("orangered"@[0] == 'o');
    assert("orchid"@[0] == 'o');
    assert("palegoldenrod"@[0] == 'p');
    assert("palegreen"@[0] == 'p');
    assert("paleturquoise"@[0] == 'p');
    assert("palevioletred"@[0] == 'p');
    assert("papayawhip"@[0] == 'p');
    assert("peachpuff"@[0] == 'p');
    assert("peru"@[0] == 'p');
    assert("pink"@[0] == 'p');
    assert("plum"@[0] == 'p');
    assert("powderblue"@[0] == 'p');
    assert("purple"@[0] == 'p');
    assert("rebeccapurple"@[0] == 'r');
    assert("red"@[0] == 'r');
    assert("rosybrown"@[0] == 'r');
    assert("royalblue"@[0] == 'r');
    letters_of_names_a_to_c(n);
    letters_of_names_d(n);
    letters_of_names_e_to_k(n);
    letters_of_names_l(n);
    letters_of_names_m_to_n(n);
    letters_of_names_o_to_r(n);
    letters_of_names_s_to_z(n);
}

/// The colours whose names begin with `s` to `z` are these, and there are no others.
pub proof fn colors_of_names_s_to_z(n: Seq<char>)
    ensures
        n == "saddlebrown"@ ==> crate::color::named::named(n) == of_bytes(0x8B_4513),
        n == "salmon"@ ==> crate::color::named::named(n) == of_bytes(0xFA_8072),
        n == "sandybrown"@ ==> crate::color::named::named(n) == of_bytes(0xF4_A460),
        n == "seagreen"@ ==> crate::color::named::named(n) == of_bytes(0x2E_8B57),
        n == "seashell"@ ==> crate::color::named::named(n) == of_bytes(0xFF_F5EE),
        n == "sienna"@ ==> crate::color::named::named(n) == of_bytes(0xA0_522D),
        n == "silver"@ ==> crate::color::named::named(n) == of_bytes(0xC0_C0C0),
        n == "skyblue"@ ==> crate::color::named::named(n) == of_bytes(0x87_CEEB),
        n == "slateblue"@ ==> crate::color::named::named(n) == of_bytes(0x6A_5ACD),
        n == "slategray"@ ==> crate::color::named::named(n) == of_bytes(0x70_8090),
        n == "slategrey"@ ==> crate::color::named::named(n) == of_bytes(0x70_8090),
        n == "snow"@ ==> crate::color::named::named(n) == of_bytes(0xFF_FAFA),
        n == "springgreen"@ ==> crate::color::named::named(n) == of_bytes(0x00_FF7F),
        n == "steelblue"@ ==> crate::color::named::named(n) == of_bytes(0x46_82B4),
        n == "tan"@ ==> crate::color::named::named(n) == of_bytes(0xD2_B48C),
        n == "teal"@ ==> crate::color::named::named(n) == of_bytes(0x00_8080),
        n == "thistle"@ ==> crate::color::named::named(n) == of_bytes(0xD8_BFD8),
        n == "tomato"@ ==> crate::color::named::named(n) == of_bytes(0xFF_6347),
        n == "turquoise"@ ==> crate::color::named::named(n) == of_bytes(0x40_E0D0),
        n == "violet"@ ==> crate::color::named::named(n) == of_bytes(0xEE_82EE),
        n == "wheat"@ ==> crate::color::named::named(n) == of_bytes(0xF5_DEB3),
        n == "white"@ ==> crate::color::named::named(n) == of_bytes(0xFF_FFFF),
        n == "whitesmoke"@ ==> crate::color::named::named(n) == of_bytes(0xF5_F5F5),
        n == "yellow"@ ==> crate::color::named::named(n) == of_bytes(0xFF_FF00),
        n == "yellowgreen"@ ==> crate::color::named::named(n) == of_bytes(0x9A_CD32),
        crate::color::named::named(n) is Some && 's' <= n[0] <= 'z' ==> (n == "saddlebrown"@ || n == "salmon"@ || n == "sandybrown"@ || n == "seagreen"@ || n == "seashell"@ || n == "sienna"@ || n == "silver"@ || n == "skyblue"@ || n == "slateblue"@ || n == "slategray"@ || n == "slategrey"@ || n == "snow"@ || n == "springgreen"@ || n == "steelblue"@ || n == "tan"@ || n == "teal"@ || n == "thistle"@ || n == "tomato"@ || n == "turquoise"@ || n == "violet"@ || n == "wheat"@ || n == "white"@ || n == "whitesmoke"@ || n == "yellow"@ || n == "yellowgreen"@),
{
    reveal_strlit("saddlebrown");
    reveal_strlit("salmon");
    reveal_strlit("sandybrown");
    reveal_strlit("seagreen");
    reveal_strlit("seashell");
    reveal_strlit("sienna");
    reveal_strlit("silver");
    reveal_strlit("skyblue");
    reveal_strlit("slateblue");
    reveal_strlit("slategray");
    reveal_strlit("slategrey");
    reveal_strlit("snow");
    reveal_strlit("springgreen");
    reveal_strlit("steelblue");
    reveal_strlit("tan");
    reveal_strlit("teal");
    reveal_strlit("thistle");
    reveal_strlit("tomato");
    reveal_strlit("turquoise");
    reveal_strlit("violet");
    reveal_strlit("wheat");
    reveal_strlit("white");
    reveal_strlit("whitesmoke");
    reveal_strlit("yellow");
    reveal_strlit("yellowgreen");
    assert("saddlebrown"@.len() == 11);
    assert("salmon"@.len() == 6);
    assert("sandybrown"@.len() == 10);
    assert("seagreen"@.len() == 8);
    assert("seashell"@.len() == 8);
    assert("sienna"@.len() == 6);
    assert("silver"@.len() == 6);
    assert("skyblue"@.len() == 7);
    assert("slateblue"@.len() == 9);
    assert("slategray"@.len() == 9);
    assert("slategrey"@.len() == 9);
    assert("snow"@.len() == 4);
    assert("springgreen"@.len() == 11);
    assert("steelblue"@.len() == 9);
    assert("tan"@.len() == 3);
    assert("teal"@.len() == 4);
    assert("thistle"@.len() == 7);
    assert("tomato"@.len() == 6);
    assert("turquoise"@.len() == 9);
    assert("violet"@.len() == 6);
    assert("wheat"@.len() == 5);
    assert("white"@.len() == 5);
    assert("whitesmoke"@.len() == 10);
    assert("yellow"@.len() == 6);
    assert("yellowgreen"@.len() == 11);
    assert("saddlebrown"@[1] == 'a' && "springgreen"@[1] == 'p');
    assert("saddlebrown"@[0] == 's' && "yellowgreen"@[0] == 'y');
    assert("salmon"@[1] == 'a' && "sienna"@[1] == 'i');
    assert("salmon"@[1] == 'a' && "silver"@[1] == 'i');
    assert("salmon"@[0] == 's' && "tomato"@[0] == 't');
    assert("salmon"@[0] == 's' && "violet"@[0] == 'v');
    assert("salmon"@[0] == 's' && "yellow"@[0] == 'y');
    assert("sandybrown"@[0] == 's' && "whitesmoke"@[0] == 'w');
    assert("seagreen"@[3] == 'g' && "seashell"@[3] == 's');
    assert("sienna"@[2] == 'e' && "silver"@[2] == 'l');
    assert("sienna"@[0] == 's' && "tomato"@[0] == 't');
    assert("sienna"@[0] == 's' && "violet"@[0] == 'v');
    assert("sienna"@[0] == 's' && "yellow"@[0] == 'y');
    assert("silver"@[0] == 's' && "tomato"@[0] == 't');
    assert("silver"@[0] == 's' && "violet"@[0] == 'v');
    assert("silver"@[0] == 's' && "yellow"@[0] == 'y');
    assert("skyblue"@[0] == 's' && "thistle"@[0] == 't');
    assert("slateblue"@[5] == 'b' && "slategray"@[5] == 'g');
    assert("slateblue"@[5] == 'b' && "slategrey"@[5] == 'g');
    assert("slateblue"@[1] == 'l' && "steelblue"@[1] == 't');
    assert("slateblue"@[0] == 's' && "turquoise"@[0] == 't');
    assert("slategray"@[7] == 'a' && "slategrey"@[7] == 'e');
    assert("slategray"@[1] == 'l' && "steelblue"@[1] == 't');
    assert("slategray"@[0] == 's' && "turquoise"@[0] == 't');
    assert("slategrey"@[1] == 'l' && "steelblue"@[1] == 't');
    assert("slategrey"@[0] == 's' && "turquoise"@[0] == 't');
    assert("snow"@[0] == 's' && "teal"@[0] == 't');
    assert("springgreen"@[0] == 's' && "yellowgreen"@[0] == 'y');
    assert("steelblue"@[0] == 's' && "turquoise"@[0] == 't');
    assert("tomato"@[0] == 't' && "violet"@[0] == 'v');
    assert("tomato"@[0] == 't' && "yellow"@[0] == 'y');
    assert("violet"@[0] == 'v' && "yellow"@[0] == 'y');
    assert("wheat"@[2] == 'e' && "white"@[2] == 'i');
    assert("saddlebrown"@[0] == 's');
    assert("salmon"@[0] == 's');
    assert("sandybrown"@[0] == 's');
    assert("seagreen"@[0] == 's');
    assert("seashell"@[0] == 's');
    assert("sienna"@[0] == 's');
    assert("silver"@[0] == 's');
    assert("skyblue"@[0] == 's');
    assert("slateblue"@[0] == 's');
    assert("slategray"@[0] == 's');
    assert("slategrey"@[0] == 's');
    assert("snow"@[0] == 's');
    assert("springgreen"@[0] == 's');
    assert("steelblue"@[0] == 's');
    assert("tan"@[0] == 't');
    assert("teal"@[0] == 't');
    assert("thistle"@[0] == 't');
    assert("tomato"@[0] == 't');
    assert("turquoise"@[0] == 't');
    assert("violet"@[0] == 'v');
    assert("wheat"@[0] == 'w');
    assert("white"@[0] == 'w');
    assert("whitesmoke"@[0] == 'w');
    assert("yellow"@[0] == 'y');
    assert("yellowgreen"@[0] == 'y');
    letters_of_names_a_to_c(n);
    letters_of_names_d(n);
    letters_of_names_e_to_k(n);
    letters_of_names_l(n);
    letters_of_names_m_to_n(n);
    letters_of_names_o_to_r(n);
    letters_of_names_s_to_z(n);
}

} // verus!
