//! The named colours of CSS.

use vstd::prelude::*;

use crate::color::Color;
use crate::text::{chars_of, spells};

verus! {

/// The opaque colour with these channels.
pub open spec fn opaque(r: u8, g: u8, b: u8) -> Option<Color> {
    Some(Color { r, g, b, a: 255 })
}

fn found(r: u8, g: u8, b: u8) -> (c: Option<Color>)
    ensures
        c == opaque(r, g, b),
{
    Some(Color { r, g, b, a: 255 })
}

/// The colours whose names begin with `a` to `c`.
pub open spec fn names_a_to_c(n: Seq<char>) -> Option<Color> {
    if n == "aliceblue"@ {
        opaque(240, 248, 255)
    } else if n == "antiquewhite"@ {
        opaque(250, 235, 215)
    } else if n == "aqua"@ {
        opaque(0, 255, 255)
    } else if n == "aquamarine"@ {
        opaque(127, 255, 212)
    } else if n == "azure"@ {
        opaque(240, 255, 255)
    } else if n == "beige"@ {
        opaque(245, 245, 220)
    } else if n == "bisque"@ {
        opaque(255, 228, 196)
    } else if n == "black"@ {
        opaque(0, 0, 0)
    } else if n == "blanchedalmond"@ {
        opaque(255, 235, 205)
    } else if n == "blue"@ {
        opaque(0, 0, 255)
    } else if n == "blueviolet"@ {
        opaque(138, 43, 226)
    } else if n == "brown"@ {
        opaque(165, 42, 42)
    } else if n == "burlywood"@ {
        opaque(222, 184, 135)
    } else if n == "cadetblue"@ {
        opaque(95, 158, 160)
    } else if n == "chartreuse"@ {
        opaque(127, 255, 0)
    } else if n == "chocolate"@ {
        opaque(210, 105, 30)
    } else if n == "coral"@ {
        opaque(255, 127, 80)
    } else if n == "cornflowerblue"@ {
        opaque(100, 149, 237)
    } else if n == "cornsilk"@ {
        opaque(255, 248, 220)
    } else if n == "crimson"@ {
        opaque(220, 20, 60)
    } else if n == "cyan"@ {
        opaque(0, 255, 255)
    } else {
        None
    }
}

/// The colours whose names begin with `d`.
pub open spec fn names_d(n: Seq<char>) -> Option<Color> {
    if n == "darkblue"@ {
        opaque(0, 0, 139)
    } else if n == "darkcyan"@ {
        opaque(0, 139, 139)
    } else if n == "darkgoldenrod"@ {
        opaque(184, 134, 11)
    } else if n == "darkgray"@ {
        opaque(169, 169, 169)
    } else if n == "darkgreen"@ {
        opaque(0, 100, 0)
    } else if n == "darkgrey"@ {
        opaque(169, 169, 169)
    } else if n == "darkkhaki"@ {
        opaque(189, 183, 107)
    } else if n == "darkmagenta"@ {
        opaque(139, 0, 139)
    } else if n == "darkolivegreen"@ {
        opaque(85, 107, 47)
    } else if n == "darkorange"@ {
        opaque(255, 140, 0)
    } else if n == "darkorchid"@ {
        opaque(153, 50, 204)
    } else if n == "darkred"@ {
        opaque(139, 0, 0)
    } else if n == "darksalmon"@ {
        opaque(233, 150, 122)
    } else if n == "darkseagreen"@ {
        opaque(143, 188, 143)
    } else if n == "darkslateblue"@ {
        opaque(72, 61, 139)
    } else if n == "darkslategray"@ {
        opaque(47, 79, 79)
    } else if n == "darkslategrey"@ {
        opaque(47, 79, 79)
    } else if n == "darkturquoise"@ {
        opaque(0, 206, 209)
    } else if n == "darkviolet"@ {
        opaque(148, 0, 211)
    } else if n == "deeppink"@ {
        opaque(255, 20, 147)
    } else if n == "deepskyblue"@ {
        opaque(0, 191, 255)
    } else if n == "dimgray"@ {
        opaque(105, 105, 105)
    } else if n == "dimgrey"@ {
        opaque(105, 105, 105)
    } else if n == "dodgerblue"@ {
        opaque(30, 144, 255)
    } else {
        None
    }
}

/// The colours whose names begin with `e` to `k`.
pub open spec fn names_e_to_k(n: Seq<char>) -> Option<Color> {
    if n == "firebrick"@ {
        opaque(178, 34, 34)
    } else if n == "floralwhite"@ {
        opaque(255, 250, 240)
    } else if n == "forestgreen"@ {
        opaque(34, 139, 34)
    } else if n == "fuchsia"@ {
        opaque(255, 0, 255)
    } else if n == "gainsboro"@ {
        opaque(220, 220, 220)
    } else if n == "ghostwhite"@ {
        opaque(248, 248, 255)
    } else if n == "gold"@ {
        opaque(255, 215, 0)
    } else if n == "goldenrod"@ {
        opaque(218, 165, 32)
    } else if n == "gray"@ {
        opaque(128, 128, 128)
    } else if n == "green"@ {
        opaque(0, 128, 0)
    } else if n == "greenyellow"@ {
        opaque(173, 255, 47)
    } else if n == "grey"@ {
        opaque(128, 128, 128)
    } else if n == "honeydew"@ {
        opaque(240, 255, 240)
    } else if n == "hotpink"@ {
        opaque(255, 105, 180)
    } else if n == "indianred"@ {
        opaque(205, 92, 92)
    } else if n == "indigo"@ {
        opaque(75, 0, 130)
    } else if n == "ivory"@ {
        opaque(255, 255, 240)
    } else if n == "khaki"@ {
        opaque(240, 230, 140)
    } else {
        None
    }
}

/// The colours whose names begin with `l`.
pub open spec fn names_l(n: Seq<char>) -> Option<Color> {
    if n == "lavender"@ {
        opaque(230, 230, 250)
    } else if n == "lavenderblush"@ {
        opaque(255, 240, 245)
    } else if n == "lawngreen"@ {
        opaque(124, 252, 0)
    } else if n == "lemonchiffon"@ {
        opaque(255, 250, 205)
    } else if n == "lightblue"@ {
        opaque(173, 216, 230)
    } else if n == "lightcoral"@ {
        opaque(240, 128, 128)
    } else if n == "lightcyan"@ {
        opaque(224, 255, 255)
    } else if n == "lightgoldenrodyellow"@ {
        opaque(250, 250, 210)
    } else if n == "lightgray"@ {
        opaque(211, 211, 211)
    } else if n == "lightgreen"@ {
        opaque(144, 238, 144)
    } else if n == "lightgrey"@ {
        opaque(211, 211, 211)
    } else if n == "lightpink"@ {
        opaque(255, 182, 193)
    } else if n == "lightsalmon"@ {
        opaque(255, 160, 122)
    } else if n == "lightseagreen"@ {
        opaque(32, 178, 170)
    } else if n == "lightskyblue"@ {
        opaque(135, 206, 250)
    } else if n == "lightslategray"@ {
        opaque(119, 136, 153)
    } else if n == "lightslategrey"@ {
        opaque(119, 136, 153)
    } else if n == "lightsteelblue"@ {
        opaque(176, 196, 222)
    } else if n == "lightyellow"@ {
        opaque(255, 255, 224)
    } else if n == "lime"@ {
        opaque(0, 255, 0)
    } else if n == "limegreen"@ {
        opaque(50, 205, 50)
    } else if n == "linen"@ {
        opaque(250, 240, 230)
    } else {
        None
    }
}

/// The colours whose names begin with `m` to `n`.
pub open spec fn names_m_to_n(n: Seq<char>) -> Option<Color> {
    if n == "magenta"@ {
        opaque(255, 0, 255)
    } else if n == "maroon"@ {
        opaque(128, 0, 0)
    } else if n == "mediumaquamarine"@ {
        opaque(102, 205, 170)
    } else if n == "mediumblue"@ {
        opaque(0, 0, 205)
    } else if n == "mediumorchid"@ {
        opaque(186, 85, 211)
    } else if n == "mediumpurple"@ {
        opaque(147, 112, 219)
    } else if n == "mediumseagreen"@ {
        opaque(60, 179, 113)
    } else if n == "mediumslateblue"@ {
        opaque(123, 104, 238)
    } else if n == "mediumspringgreen"@ {
        opaque(0, 250, 154)
    } else if n == "mediumturquoise"@ {
        opaque(72, 209, 204)
    } else if n == "mediumvioletred"@ {
        opaque(199, 21, 133)
    } else if n == "midnightblue"@ {
        opaque(25, 25, 112)
    } else if n == "mintcream"@ {
        opaque(245, 255, 250)
    } else if n == "mistyrose"@ {
        opaque(255, 228, 225)
    } else if n == "moccasin"@ {
        opaque(255, 228, 181)
    } else if n == "navajowhite"@ {
        opaque(255, 222, 173)
    } else if n == "navy"@ {
        opaque(0, 0, 128)
    } else {
        None
    }
}

/// The colours whose names begin with `o` to `r`.
pub open spec fn names_o_to_r(n: Seq<char>) -> Option<Color> {
    if n == "oldlace"@ {
        opaque(253, 245, 230)
    } else if n == "olive"@ {
        opaque(128, 128, 0)
    } else if n == "olivedrab"@ {
        opaque(107, 142, 35)
    } else if n == "orange"@ {
        opaque(255, 165, 0)
    } else if n == "orangered"@ {
        opaque(255, 69, 0)
    } else if n == "orchid"@ {
        opaque(218, 112, 214)
    } else if n == "palegoldenrod"@ {
        opaque(238, 232, 170)
    } else if n == "palegreen"@ {
        opaque(152, 251, 152)
    } else if n == "paleturquoise"@ {
        opaque(175, 238, 238)
    } else if n == "palevioletred"@ {
        opaque(219, 112, 147)
    } else if n == "papayawhip"@ {
        opaque(255, 239, 213)
    } else if n == "peachpuff"@ {
        opaque(255, 218, 185)
    } else if n == "peru"@ {
        opaque(205, 133, 63)
    } else if n == "pink"@ {
        opaque(255, 192, 203)
    } else if n == "plum"@ {
        opaque(221, 160, 221)
    } else if n == "powderblue"@ {
        opaque(176, 224, 230)
    } else if n == "purple"@ {
        opaque(128, 0, 128)
    } else if n == "rebeccapurple"@ {
        opaque(102, 51, 153)
    } else if n == "red"@ {
        opaque(255, 0, 0)
    } else if n == "rosybrown"@ {
        opaque(188, 143, 143)
    } else if n == "royalblue"@ {
        opaque(65, 105, 225)
    } else {
        None
    }
}

/// The colours whose names begin with `s` to `z`.
pub open spec fn names_s_to_z(n: Seq<char>) -> Option<Color> {
    if n == "saddlebrown"@ {
        opaque(139, 69, 19)
    } else if n == "salmon"@ {
        opaque(250, 128, 114)
    } else if n == "sandybrown"@ {
        opaque(244, 164, 96)
    } else if n == "seagreen"@ {
        opaque(46, 139, 87)
    } else if n == "seashell"@ {
        opaque(255, 245, 238)
    } else if n == "sienna"@ {
        opaque(160, 82, 45)
    } else if n == "silver"@ {
        opaque(192, 192, 192)
    } else if n == "skyblue"@ {
        opaque(135, 206, 235)
    } else if n == "slateblue"@ {
        opaque(106, 90, 205)
    } else if n == "slategray"@ {
        opaque(112, 128, 144)
    } else if n == "slategrey"@ {
        opaque(112, 128, 144)
    } else if n == "snow"@ {
        opaque(255, 250, 250)
    } else if n == "springgreen"@ {
        opaque(0, 255, 127)
    } else if n == "steelblue"@ {
        opaque(70, 130, 180)
    } else if n == "tan"@ {
        opaque(210, 180, 140)
    } else if n == "teal"@ {
        opaque(0, 128, 128)
    } else if n == "thistle"@ {
        opaque(216, 191, 216)
    } else if n == "tomato"@ {
        opaque(255, 99, 71)
    } else if n == "turquoise"@ {
        opaque(64, 224, 208)
    } else if n == "violet"@ {
        opaque(238, 130, 238)
    } else if n == "wheat"@ {
        opaque(245, 222, 179)
    } else if n == "white"@ {
        opaque(255, 255, 255)
    } else if n == "whitesmoke"@ {
        opaque(245, 245, 245)
    } else if n == "yellow"@ {
        opaque(255, 255, 0)
    } else if n == "yellowgreen"@ {
        opaque(154, 205, 50)
    } else {
        None
    }
}

/// The colour that CSS gives the name `n`.
pub open spec fn named(n: Seq<char>) -> Option<Color> {
    if names_a_to_c(n) is Some {
        names_a_to_c(n)
    } else if names_d(n) is Some {
        names_d(n)
    } else if names_e_to_k(n) is Some {
        names_e_to_k(n)
    } else if names_l(n) is Some {
        names_l(n)
    } else if names_m_to_n(n) is Some {
        names_m_to_n(n)
    } else if names_o_to_r(n) is Some {
        names_o_to_r(n)
    } else {
        names_s_to_z(n)
    }
}

fn find_a_to_c(v: &[char]) -> (c: Option<Color>)
    ensures
        c == names_a_to_c(v@),
{
    if spells(v, "aliceblue") {
        found(240, 248, 255)
    } else if spells(v, "antiquewhite") {
        found(250, 235, 215)
    } else if spells(v, "aqua") {
        found(0, 255, 255)
    } else if spells(v, "aquamarine") {
        found(127, 255, 212)
    } else if spells(v, "azure") {
        found(240, 255, 255)
    } else if spells(v, "beige") {
        found(245, 245, 220)
    } else if spells(v, "bisque") {
        found(255, 228, 196)
    } else if spells(v, "black") {
        found(0, 0, 0)
    } else if spells(v, "blanchedalmond") {
        found(255, 235, 205)
    } else if spells(v, "blue") {
        found(0, 0, 255)
    } else if spells(v, "blueviolet") {
        found(138, 43, 226)
    } else if spells(v, "brown") {
        found(165, 42, 42)
    } else if spells(v, "burlywood") {
        found(222, 184, 135)
    } else if spells(v, "cadetblue") {
        found(95, 158, 160)
    } else if spells(v, "chartreuse") {
        found(127, 255, 0)
    } else if spells(v, "chocolate") {
        found(210, 105, 30)
    } else if spells(v, "coral") {
        found(255, 127, 80)
    } else if spells(v, "cornflowerblue") {
        found(100, 149, 237)
    } else if spells(v, "cornsilk") {
        found(255, 248, 220)
    } else if spells(v, "crimson") {
        found(220, 20, 60)
    } else if spells(v, "cyan") {
        found(0, 255, 255)
    } else {
        None
    }
}

fn find_d(v: &[char]) -> (c: Option<Color>)
    ensures
        c == names_d(v@),
{
    if spells(v, "darkblue") {
        found(0, 0, 139)
    } else if spells(v, "darkcyan") {
        found(0, 139, 139)
    } else if spells(v, "darkgoldenrod") {
        found(184, 134, 11)
    } else if spells(v, "darkgray") {
        found(169, 169, 169)
    } else if spells(v, "darkgreen") {
        found(0, 100, 0)
    } else if spells(v, "darkgrey") {
        found(169, 169, 169)
    } else if spells(v, "darkkhaki") {
        found(189, 183, 107)
    } else if spells(v, "darkmagenta") {
        found(139, 0, 139)
    } else if spells(v, "darkolivegreen") {
        found(85, 107, 47)
    } else if spells(v, "darkorange") {
        found(255, 140, 0)
    } else if spells(v, "darkorchid") {
        found(153, 50, 204)
    } else if spells(v, "darkred") {
        found(139, 0, 0)
    } else if spells(v, "darksalmon") {
        found(233, 150, 122)
    } else if spells(v, "darkseagreen") {
        found(143, 188, 143)
    } else if spells(v, "darkslateblue") {
        found(72, 61, 139)
    } else if spells(v, "darkslategray") {
        found(47, 79, 79)
    } else if spells(v, "darkslategrey") {
        found(47, 79, 79)
    } else if spells(v, "darkturquoise") {
        found(0, 206, 209)
    } else if spells(v, "darkviolet") {
        found(148, 0, 211)
    } else if spells(v, "deeppink") {
        found(255, 20, 147)
    } else if spells(v, "deepskyblue") {
        found(0, 191, 255)
    } else if spells(v, "dimgray") {
        found(105, 105, 105)
    } else if spells(v, "dimgrey") {
        found(105, 105, 105)
    } else if spells(v, "dodgerblue") {
        found(30, 144, 255)
    } else {
        None
    }
}

fn find_e_to_k(v: &[char]) -> (c: Option<Color>)
    ensures
        c == names_e_to_k(v@),
{
    if spells(v, "firebrick") {
        found(178, 34, 34)
    } else if spells(v, "floralwhite") {
        found(255, 250, 240)
    } else if spells(v, "forestgreen") {
        found(34, 139, 34)
    } else if spells(v, "fuchsia") {
        found(255, 0, 255)
    } else if spells(v, "gainsboro") {
        found(220, 220, 220)
    } else if spells(v, "ghostwhite") {
        found(248, 248, 255)
    } else if spells(v, "gold") {
        found(255, 215, 0)
    } else if spells(v, "goldenrod") {
        found(218, 165, 32)
    } else if spells(v, "gray") {
        found(128, 128, 128)
    } else if spells(v, "green") {
        found(0, 128, 0)
    } else if spells(v, "greenyellow") {
        found(173, 255, 47)
    } else if spells(v, "grey") {
        found(128, 128, 128)
    } else if spells(v, "honeydew") {
        found(240, 255, 240)
    } else if spells(v, "hotpink") {
        found(255, 105, 180)
    } else if spells(v, "indianred") {
        found(205, 92, 92)
    } else if spells(v, "indigo") {
        found(75, 0, 130)
    } else if spells(v, "ivory") {
        found(255, 255, 240)
    } else if spells(v, "khaki") {
        found(240, 230, 140)
    } else {
        None
    }
}

fn find_l(v: &[char]) -> (c: Option<Color>)
    ensures
        c == names_l(v@),
{
    if spells(v, "lavender") {
        found(230, 230, 250)
    } else if spells(v, "lavenderblush") {
        found(255, 240, 245)
    } else if spells(v, "lawngreen") {
        found(124, 252, 0)
    } else if spells(v, "lemonchiffon") {
        found(255, 250, 205)
    } else if spells(v, "lightblue") {
        found(173, 216, 230)
    } else if spells(v, "lightcoral") {
        found(240, 128, 128)
    } else if spells(v, "lightcyan") {
        found(224, 255, 255)
    } else if spells(v, "lightgoldenrodyellow") {
        found(250, 250, 210)
    } else if spells(v, "lightgray") {
        found(211, 211, 211)
    } else if spells(v, "lightgreen") {
        found(144, 238, 144)
    } else if spells(v, "lightgrey") {
        found(211, 211, 211)
    } else if spells(v, "lightpink") {
        found(255, 182, 193)
    } else if spells(v, "lightsalmon") {
        found(255, 160, 122)
    } else if spells(v, "lightseagreen") {
        found(32, 178, 170)
    } else if spells(v, "lightskyblue") {
        found(135, 206, 250)
    } else if spells(v, "lightslategray") {
        found(119, 136, 153)
    } else if spells(v, "lightslategrey") {
        found(119, 136, 153)
    } else if spells(v, "lightsteelblue") {
        found(176, 196, 222)
    } else if spells(v, "lightyellow") {
        found(255, 255, 224)
    } else if spells(v, "lime") {
        found(0, 255, 0)
    } else if spells(v, "limegreen") {
        found(50, 205, 50)
    } else if spells(v, "linen") {
        found(250, 240, 230)
    } else {
        None
    }
}

fn find_m_to_n(v: &[char]) -> (c: Option<Color>)
    ensures
        c == names_m_to_n(v@),
{
    if spells(v, "magenta") {
        found(255, 0, 255)
    } else if spells(v, "maroon") {
        found(128, 0, 0)
    } else if spells(v, "mediumaquamarine") {
        found(102, 205, 170)
    } else if spells(v, "mediumblue") {
        found(0, 0, 205)
    } else if spells(v, "mediumorchid") {
        found(186, 85, 211)
    } else if spells(v, "mediumpurple") {
        found(147, 112, 219)
    } else if spells(v, "mediumseagreen") {
        found(60, 179, 113)
    } else if spells(v, "mediumslateblue") {
        found(123, 104, 238)
    } else if spells(v, "mediumspringgreen") {
        found(0, 250, 154)
    } else if spells(v, "mediumturquoise") {
        found(72, 209, 204)
    } else if spells(v, "mediumvioletred") {
        found(199, 21, 133)
    } else if spells(v, "midnightblue") {
        found(25, 25, 112)
    } else if spells(v, "mintcream") {
        found(245, 255, 250)
    } else if spells(v, "mistyrose") {
        found(255, 228, 225)
    } else if spells(v, "moccasin") {
        found(255, 228, 181)
    } else if spells(v, "navajowhite") {
        found(255, 222, 173)
    } else if spells(v, "navy") {
        found(0, 0, 128)
    } else {
        None
    }
}

fn find_o_to_r(v: &[char]) -> (c: Option<Color>)
    ensures
        c == names_o_to_r(v@),
{
    if spells(v, "oldlace") {
        found(253, 245, 230)
    } else if spells(v, "olive") {
        found(128, 128, 0)
    } else if spells(v, "olivedrab") {
        found(107, 142, 35)
    } else if spells(v, "orange") {
        found(255, 165, 0)
    } else if spells(v, "orangered") {
        found(255, 69, 0)
    } else if spells(v, "orchid") {
        found(218, 112, 214)
    } else if spells(v, "palegoldenrod") {
        found(238, 232, 170)
    } else if spells(v, "palegreen") {
        found(152, 251, 152)
    } else if spells(v, "paleturquoise") {
        found(175, 238, 238)
    } else if spells(v, "palevioletred") {
        found(219, 112, 147)
    } else if spells(v, "papayawhip") {
        found(255, 239, 213)
    } else if spells(v, "peachpuff") {
        found(255, 218, 185)
    } else if spells(v, "peru") {
        found(205, 133, 63)
    } else if spells(v, "pink") {
        found(255, 192, 203)
    } else if spells(v, "plum") {
        found(221, 160, 221)
    } else if spells(v, "powderblue") {
        found(176, 224, 230)
    } else if spells(v, "purple") {
        found(128, 0, 128)
    } else if spells(v, "rebeccapurple") {
        found(102, 51, 153)
    } else if spells(v, "red") {
        found(255, 0, 0)
    } else if spells(v, "rosybrown") {
        found(188, 143, 143)
    } else if spells(v, "royalblue") {
        found(65, 105, 225)
    } else {
        None
    }
}

fn find_s_to_z(v: &[char]) -> (c: Option<Color>)
    ensures
        c == names_s_to_z(v@),
{
    if spells(v, "saddlebrown") {
        found(139, 69, 19)
    } else if spells(v, "salmon") {
        found(250, 128, 114)
    } else if spells(v, "sandybrown") {
        found(244, 164, 96)
    } else if spells(v, "seagreen") {
        found(46, 139, 87)
    } else if spells(v, "seashell") {
        found(255, 245, 238)
    } else if spells(v, "sienna") {
        found(160, 82, 45)
    } else if spells(v, "silver") {
        found(192, 192, 192)
    } else if spells(v, "skyblue") {
        found(135, 206, 235)
    } else if spells(v, "slateblue") {
        found(106, 90, 205)
    } else if spells(v, "slategray") {
        found(112, 128, 144)
    } else if spells(v, "slategrey") {
        found(112, 128, 144)
    } else if spells(v, "snow") {
        found(255, 250, 250)
    } else if spells(v, "springgreen") {
        found(0, 255, 127)
    } else if spells(v, "steelblue") {
        found(70, 130, 180)
    } else if spells(v, "tan") {
        found(210, 180, 140)
    } else if spells(v, "teal") {
        found(0, 128, 128)
    } else if spells(v, "thistle") {
        found(216, 191, 216)
    } else if spells(v, "tomato") {
        found(255, 99, 71)
    } else if spells(v, "turquoise") {
        found(64, 224, 208)
    } else if spells(v, "violet") {
        found(238, 130, 238)
    } else if spells(v, "wheat") {
        found(245, 222, 179)
    } else if spells(v, "white") {
        found(255, 255, 255)
    } else if spells(v, "whitesmoke") {
        found(245, 245, 245)
    } else if spells(v, "yellow") {
        found(255, 255, 0)
    } else if spells(v, "yellowgreen") {
        found(154, 205, 50)
    } else {
        None
    }
}

/// Looks up the colour of the name `v`.
pub fn find_name(v: &[char]) -> (c: Option<Color>)
    ensures
        c == named(v@),
{
    let c = find_a_to_c(v);
    if c.is_some() {
        return c;
    }
    let c = find_d(v);
    if c.is_some() {
        return c;
    }
    let c = find_e_to_k(v);
    if c.is_some() {
        return c;
    }
    let c = find_l(v);
    if c.is_some() {
        return c;
    }
    let c = find_m_to_n(v);
    if c.is_some() {
        return c;
    }
    let c = find_o_to_r(v);
    if c.is_some() {
        return c;
    }
    find_s_to_z(v)
}

/// Looks up the colour that CSS gives `name`; names are in lower case.
pub fn named_color(name: &str) -> (c: Option<Color>)
    ensures
        c == named(name@),
{
    let v = chars_of(name);
    find_name(v.as_slice())
}

/// Every named colour is opaque.
pub proof fn names_are_opaque(n: Seq<char>)
    ensures
        named(n) matches Some(c) ==> c.a == 255,
{
}

} // verus!
