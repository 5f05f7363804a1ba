//! The grammar of colours.

use vstd::prelude::*;

use crate::color::hsl::hsl_to_rgb_u8;
use crate::color::named::find_name;
use crate::color::double::Double;
use crate::color::quantise::{hue_of, quantise, share_of};
use crate::color::{Color, ColorFault, ColorOrKeyword, ColorParseError};
use crate::number::{read_number, Precision};
use crate::scan::{
    ends_with, holds, position_of, split_words, starts_with, trim_items, Separator,
};
use crate::text::{chars_of, lower, part, spells, string_of, trim};

verus! {

/// The arguments of the call of `name` that `s` writes, trimmed.
pub open spec fn call_arguments(s: Seq<char>, name: Seq<char>) -> Option<Seq<char>> {
    let opening = name.push('(');
    let inner = s.skip(opening.len() as int);
    if crate::scan::begins(s, opening) && inner.len() > 0 && inner.last() == ')' {
        Some(crate::text::trimmed(inner.drop_last()))
    } else {
        None
    }
}

/// The arguments of the call of `name` that `s` writes.
pub fn strip_fn(s: &[char], name: &str) -> (r: Option<Vec<char>>)
    ensures
        crate::outcome::seen(r) == call_arguments(s@, name@),
{
    let mut opening = chars_of(name);
    opening.push('(');
    if !crate::scan::starts_with_chars(s, opening.as_slice()) {
        return None;
    }
    let inner = part(s, opening.len(), s.len());
    assert(inner@ =~= s@.skip(opening@.len() as int));
    let n: usize = inner.len();
    if n == 0 || inner[n - 1] != ')' {
        return None;
    }
    let arguments = part(inner.as_slice(), 0, n - 1);
    assert(arguments@ =~= inner@.drop_last());
    Some(trim(arguments.as_slice()))
}

/// A hexadecimal digit.
pub open spec fn is_hex(c: char) -> bool {
    '0' <= c <= '9' || 'a' <= c <= 'f' || 'A' <= c <= 'F'
}

/// The value of a hexadecimal digit.
pub open spec fn hex_value(c: char) -> int {
    if c <= '9' {
        c as int - '0' as int
    } else if c <= 'F' {
        c as int - 'A' as int + 10
    } else {
        c as int - 'a' as int + 10
    }
}

/// The byte that two hexadecimal digits write.
pub open spec fn hex_pair(a: char, b: char) -> u8 {
    (hex_value(a) * 16 + hex_value(b)) as u8
}

/// The colour that the hexadecimal digits `s` write: one or two digits per
/// channel, with or without alpha.
pub open spec fn hex_color(s: Seq<char>) -> Option<Color> {
    if !(forall|i: int| 0 <= i < s.len() ==> is_hex(#[trigger] s[i])) {
        None
    } else if s.len() == 3 {
        Some(
            Color {
                r: hex_pair(s[0], s[0]),
                g: hex_pair(s[1], s[1]),
                b: hex_pair(s[2], s[2]),
                a: 255,
            },
        )
    } else if s.len() == 4 {
        Some(
            Color {
                r: hex_pair(s[0], s[0]),
                g: hex_pair(s[1], s[1]),
                b: hex_pair(s[2], s[2]),
                a: hex_pair(s[3], s[3]),
            },
        )
    } else if s.len() == 6 {
        Some(
            Color {
                r: hex_pair(s[0], s[1]),
                g: hex_pair(s[2], s[3]),
                b: hex_pair(s[4], s[5]),
                a: 255,
            },
        )
    } else if s.len() == 8 {
        Some(
            Color {
                r: hex_pair(s[0], s[1]),
                g: hex_pair(s[2], s[3]),
                b: hex_pair(s[4], s[5]),
                a: hex_pair(s[6], s[7]),
            },
        )
    } else {
        None
    }
}

/// What the hexadecimal digits `s` parse to.
pub open spec fn hex_outcome(s: Seq<char>) -> Result<Color, ColorFault> {
    match hex_color(s) {
        Some(c) => Ok(c),
        None => Err(ColorFault::InvalidHex(seq!['#'] + s)),
    }
}

fn read_hex(c: char) -> (r: u8)
    requires
        is_hex(c),
    ensures
        r == hex_value(c),
        r < 16,
{
    let n: u32 = c as u32;
    if n <= 57 {
        (n - 48) as u8
    } else if n <= 70 {
        (n - 65 + 10) as u8
    } else {
        (n - 97 + 10) as u8
    }
}

fn read_pair(a: char, b: char) -> (r: u8)
    requires
        is_hex(a),
        is_hex(b),
    ensures
        r == hex_pair(a, b),
{
    read_hex(a) * 16 + read_hex(b)
}

fn all_hex(s: &[char]) -> (r: bool)
    ensures
        r == (forall|i: int| 0 <= i < s@.len() ==> is_hex(#[trigger] s@[i])),
{
    let mut i: usize = 0;
    while i < s.len()
        invariant
            i <= s@.len(),
            forall|k: int| 0 <= k < i ==> is_hex(#[trigger] s@[k]),
        decreases s@.len() - i,
    {
        let c: char = s[i];
        if !(('0' <= c && c <= '9') || ('a' <= c && c <= 'f') || ('A' <= c && c <= 'F')) {
            assert(!is_hex(s@[i as int]));
            return false;
        }
        i += 1;
    }
    true
}

/// Parses the hexadecimal digits of a colour.
pub fn parse_hex(s: &[char]) -> (r: Result<Color, ColorParseError>)
    ensures
        crate::outcome::judged(r) == hex_outcome(s@),
{
    if all_hex(s) {
        let n: usize = s.len();
        if n == 3 || n == 4 {
            return Ok(
                Color {
                    r: read_pair(s[0], s[0]),
                    g: read_pair(s[1], s[1]),
                    b: read_pair(s[2], s[2]),
                    a: if n == 4 {
                        read_pair(s[3], s[3])
                    } else {
                        255
                    },
                },
            );
        }
        if n == 6 || n == 8 {
            return Ok(
                Color {
                    r: read_pair(s[0], s[1]),
                    g: read_pair(s[2], s[3]),
                    b: read_pair(s[4], s[5]),
                    a: if n == 8 {
                        read_pair(s[6], s[7])
                    } else {
                        255
                    },
                },
            );
        }
    }
    let mut text = "#".to_owned();
    let rest = string_of(s);
    proof {
        reveal_strlit("#");
    }
    text.append(rest.as_str());
    assert(text@ =~= seq!['#'] + s@);
    Err(ColorParseError::InvalidHex(text))
}

/// The arguments of a colour function.
#[verifier::ext_equal]
pub struct ArgumentsView {
    pub channels: Seq<Seq<char>>,
    pub alpha: Option<Seq<char>>,
}

/// The arguments of a colour function.
pub struct Arguments {
    pub channels: Vec<Vec<char>>,
    pub alpha: Option<Vec<char>>,
}

impl View for Arguments {
    type V = ArgumentsView;

    open spec fn view(&self) -> ArgumentsView {
        ArgumentsView {
            channels: crate::scan::texts(self.channels@),
            alpha: crate::outcome::seen(self.alpha),
        }
    }
}

/// The channels that `body` lists, between commas where there are any and
/// between white space otherwise.
pub open spec fn listed_channels(body: Seq<char>) -> Seq<Seq<char>> {
    if body.contains(',') {
        crate::scan::trimmed_items(crate::scan::words(body, Separator::Comma))
    } else {
        crate::scan::words(body, Separator::WhiteSpace)
    }
}

/// The channels and the alpha of a colour function. The alpha stands behind a
/// slash; without one it is the fourth item of a list with commas.
pub open spec fn arguments(args: Seq<char>) -> ArgumentsView {
    let s = crate::text::trimmed(args);
    match crate::scan::find_text(s, "/"@) {
        Some(i) => ArgumentsView {
            channels: listed_channels(crate::text::trimmed(s.take(i))),
            alpha: Some(crate::text::trimmed(s.skip(i + 1))),
        },
        None => {
            let body = crate::text::trimmed(s);
            let channels = listed_channels(body);
            if channels.len() == 4 && body.contains(',') {
                ArgumentsView { channels: channels.take(3), alpha: Some(channels[3]) }
            } else {
                ArgumentsView { channels, alpha: None }
            }
        },
    }
}

fn list_channels(body: &[char]) -> (r: Vec<Vec<char>>)
    ensures
        crate::scan::texts(r@) == listed_channels(body@),
{
    if holds(body, ',') {
        let items = split_words(body, Separator::Comma);
        trim_items(&items)
    } else {
        split_words(body, Separator::WhiteSpace)
    }
}

/// Splits the arguments of a colour function into channels and alpha.
pub fn split_channels_alpha(args: &[char]) -> (r: Arguments)
    ensures
        r@ == arguments(args@),
{
    let s = trim(args);
    proof {
        reveal_strlit("/");
    }
    let n: usize = s.len();
    match position_of(s.as_slice(), "/") {
        Some(i) => {
            let body = part(s.as_slice(), 0, i);
            let rest = part(s.as_slice(), i + 1, n);
            assert(body@ =~= s@.take(i as int));
            assert(rest@ =~= s@.skip(i + 1));
            let channels = list_channels(trim(body.as_slice()).as_slice());
            Arguments { channels, alpha: Some(trim(rest.as_slice())) }
        },
        None => {
            let body = trim(s.as_slice());
            let mut channels = list_channels(body.as_slice());
            let ghost all = crate::scan::texts(channels@);
            if channels.len() == 4 && holds(body.as_slice(), ',') {
                let alpha = channels.pop();
                assert(crate::scan::texts(channels@) =~= all.take(3));
                assert(crate::outcome::seen(alpha) == Some(all[3]));
                Arguments { channels, alpha }
            } else {
                Arguments { channels, alpha: None }
            }
        },
    }
}

/// `s` without a percent sign at its end.
pub open spec fn percentage(s: Seq<char>) -> Option<Seq<char>> {
    if s.len() > 0 && s.last() == '%' {
        Some(s.drop_last())
    } else {
        None
    }
}

fn strip_percent(s: &[char]) -> (r: Option<Vec<char>>)
    ensures
        crate::outcome::seen(r) == percentage(s@),
{
    let n: usize = s.len();
    if n > 0 && s[n - 1] == '%' {
        let rest = part(s, 0, n - 1);
        assert(rest@ =~= s@.drop_last());
        Some(rest)
    } else {
        None
    }
}

/// The channel that the number `s` writes, over `b` and times `a`.
pub open spec fn scaled_number(s: Seq<char>, whole: Seq<char>, a: int, b: int) -> Result<
    u8,
    ColorFault,
> {
    match Precision::Double.reading(s) {
        Some(n) => Ok(crate::color::quantise::channel(n, a, b)),
        None => Err(ColorFault::InvalidNumber(whole)),
    }
}

fn scale_number(s: &[char], whole: &[char], a: u64, b: u64) -> (r: Result<u8, ColorParseError>)
    requires
        b > 0,
    ensures
        crate::outcome::judged(r) == scaled_number(s@, whole@, a as int, b as int),
{
    match read_number(s, Precision::Double) {
        Some(n) => Ok(quantise(&n, a, b)),
        None => Err(ColorParseError::InvalidNumber(string_of(whole))),
    }
}

/// The channel that `s` writes: a number up to 255, or a percentage.
pub open spec fn rgb_component(s: Seq<char>) -> Result<u8, ColorFault> {
    match percentage(s) {
        Some(p) => scaled_number(p, s, 255, 100),
        None => scaled_number(s, s, 1, 1),
    }
}

/// Parses a channel of `rgb()`.
pub fn parse_rgb_component(s: &[char]) -> (r: Result<u8, ColorParseError>)
    ensures
        crate::outcome::judged(r) == rgb_component(s@),
{
    match strip_percent(s) {
        Some(p) => scale_number(p.as_slice(), s, 255, 100),
        None => scale_number(s, s, 1, 1),
    }
}

/// The alpha that `s` writes: a number up to 1, or a percentage. No alpha at
/// all is opaque.
pub open spec fn alpha_component(s: Option<Seq<char>>) -> Result<u8, ColorFault> {
    match s {
        None => Ok(255u8),
        Some(s) => if s.len() == 0 {
            Ok(255u8)
        } else {
            match percentage(s) {
                Some(p) => scaled_number(p, s, 255, 100),
                None => scaled_number(s, s, 255, 1),
            }
        },
    }
}

/// Parses the alpha of a colour function.
pub fn parse_alpha(s: &Option<Vec<char>>) -> (r: Result<u8, ColorParseError>)
    ensures
        crate::outcome::judged(r) == alpha_component(crate::outcome::seen(*s)),
{
    let s = match s {
        Some(s) => s.as_slice(),
        None => {
            return Ok(255);
        },
    };
    if s.len() == 0 {
        return Ok(255);
    }
    match strip_percent(s) {
        Some(p) => scale_number(p.as_slice(), s, 255, 100),
        None => scale_number(s, s, 255, 1),
    }
}

/// The call of `name` with the arguments `args`, as text.
pub open spec fn call_text(name: Seq<char>, args: Seq<char>) -> Seq<char> {
    name + seq!['('] + args + seq![')']
}

fn write_call(name: &str, args: &[char]) -> (r: String)
    ensures
        r@ == call_text(name@, args@),
{
    let mut text = name.to_owned();
    text.push('(');
    let inner = string_of(args);
    text.append(inner.as_str());
    text.push(')');
    assert(text@ =~= call_text(name@, args@));
    text
}

/// What the arguments of `rgb()` parse to.
pub open spec fn rgb_outcome(args: Seq<char>) -> Result<Color, ColorFault> {
    let a = arguments(args);
    if a.channels.len() != 3 {
        Err(ColorFault::InvalidFunction(call_text("rgb"@, args)))
    } else {
        match rgb_component(a.channels[0]) {
            Err(e) => Err(e),
            Ok(r) => match rgb_component(a.channels[1]) {
                Err(e) => Err(e),
                Ok(g) => match rgb_component(a.channels[2]) {
                    Err(e) => Err(e),
                    Ok(b) => match alpha_component(a.alpha) {
                        Err(e) => Err(e),
                        Ok(a) => Ok(Color { r, g, b, a }),
                    },
                },
            },
        }
    }
}

/// Parses the arguments of `rgb()` or `rgba()`.
pub fn parse_rgb(args: &[char]) -> (r: Result<Color, ColorParseError>)
    ensures
        crate::outcome::judged(r) == rgb_outcome(args@),
{
    let a = split_channels_alpha(args);
    if a.channels.len() != 3 {
        return Err(ColorParseError::InvalidFunction(write_call("rgb", args)));
    }
    let r: u8 = match parse_rgb_component(a.channels[0].as_slice()) {
        Ok(x) => x,
        Err(e) => {
            return Err(e);
        },
    };
    let g: u8 = match parse_rgb_component(a.channels[1].as_slice()) {
        Ok(x) => x,
        Err(e) => {
            return Err(e);
        },
    };
    let b: u8 = match parse_rgb_component(a.channels[2].as_slice()) {
        Ok(x) => x,
        Err(e) => {
            return Err(e);
        },
    };
    let alpha: u8 = match parse_alpha(&a.alpha) {
        Ok(x) => x,
        Err(e) => {
            return Err(e);
        },
    };
    Ok(Color { r, g, b, a: alpha })
}

/// The hue that `s` writes: a number and an optional angle unit. The degrees in
/// a gradian and in a radian are the doubles nearest to 9 / 10 and to 180 / pi.
pub open spec fn hue_component(s: Seq<char>) -> Result<Option<int>, ColorFault> {
    let l = crate::text::lowered(s);
    let (n, a, b) = if crate::scan::finishes(l, "deg"@) {
        (crate::scan::cut(l, 3), 1int, 1int)
    } else if crate::scan::finishes(l, "grad"@) {
        (crate::scan::cut(l, 4), 0x1C_CCCC_CCCC_CCCDint, 0x20_0000_0000_0000int)
    } else if crate::scan::finishes(l, "rad"@) {
        (crate::scan::cut(l, 3), 0x1C_A5DC_1A63_C1F8int, 0x8000_0000_0000int)
    } else if crate::scan::finishes(l, "turn"@) {
        (crate::scan::cut(l, 4), 360int, 1int)
    } else {
        (l, 1int, 1int)
    };
    match Precision::Double.reading(crate::text::trimmed(n)) {
        Some(n) => Ok(crate::color::quantise::hue(n, a, b)),
        None => Err(ColorFault::InvalidNumber(s)),
    }
}

/// A number of units as contracts see it.
pub open spec fn hue_view(r: Result<Option<Double>, ColorParseError>) -> Result<
    Option<int>,
    ColorFault,
> {
    match r {
        Ok(f) => Ok(crate::outcome::seen(f)),
        Err(e) => Err(e@),
    }
}

/// Parses a hue into degrees in `[0, 360)`.
pub fn parse_hue_deg(s: &[char]) -> (r: Result<Option<Double>, ColorParseError>)
    ensures
        hue_view(r) == hue_component(s@),
        r matches Ok(Some(f)) ==> f.wf() && 0 <= f@ < 360 * crate::color::double::one(),
{
    let l = lower(s);
    let n: usize = l.len();
    proof {
        reveal_strlit("deg");
        reveal_strlit("grad");
        reveal_strlit("rad");
        reveal_strlit("turn");
    }
    let (end, a, b): (usize, u64, u64) = if ends_with(l.as_slice(), "deg") {
        (n - 3, 1, 1)
    } else if ends_with(l.as_slice(), "grad") {
        (n - 4, 0x1C_CCCC_CCCC_CCCD, 0x20_0000_0000_0000)
    } else if ends_with(l.as_slice(), "rad") {
        (n - 3, 0x1C_A5DC_1A63_C1F8, 0x8000_0000_0000)
    } else if ends_with(l.as_slice(), "turn") {
        (n - 4, 360, 1)
    } else {
        (n, 1, 1)
    };
    let number = part(l.as_slice(), 0, end);
    assert(number@ =~= l@.take(end as int));
    assert(l@.take(n as int) =~= l@);
    match read_number(trim(number.as_slice()).as_slice(), Precision::Double) {
        Some(x) => Ok(hue_of(&x, a, b)),
        None => Err(ColorParseError::InvalidNumber(string_of(s))),
    }
}

/// The share that the percentage `s` writes.
pub open spec fn percent_component(s: Seq<char>) -> Result<Option<int>, ColorFault> {
    match percentage(s) {
        Some(p) => match Precision::Double.reading(p) {
            Some(n) => Ok(crate::color::quantise::share(n)),
            None => Err(ColorFault::InvalidNumber(s)),
        },
        None => Err(ColorFault::InvalidNumber(s)),
    }
}

/// Parses a percentage into a share of one.
pub fn parse_percent(s: &[char]) -> (r: Result<Option<Double>, ColorParseError>)
    ensures
        hue_view(r) == percent_component(s@),
        r matches Ok(Some(f)) ==> f.wf() && 0 <= f@ <= crate::color::double::one(),
{
    if let Some(p) = strip_percent(s) {
        if let Some(n) = read_number(p.as_slice(), Precision::Double) {
            return Ok(share_of(&n));
        }
    }
    Err(ColorParseError::InvalidNumber(string_of(s)))
}

/// What the arguments of `hsl()` parse to.
pub open spec fn hsl_outcome(args: Seq<char>) -> Result<Color, ColorFault> {
    let a = arguments(args);
    if a.channels.len() != 3 {
        Err(ColorFault::InvalidFunction(call_text("hsl"@, args)))
    } else {
        match hue_component(a.channels[0]) {
            Err(e) => Err(e),
            Ok(h) => match percent_component(a.channels[1]) {
                Err(e) => Err(e),
                Ok(s) => match percent_component(a.channels[2]) {
                    Err(e) => Err(e),
                    Ok(l) => match alpha_component(a.alpha) {
                        Err(e) => Err(e),
                        Ok(a) => {
                            let (r, g, b) = crate::color::hsl::converted(h, s, l);
                            Ok(Color { r, g, b, a })
                        },
                    },
                },
            },
        }
    }
}

/// Parses the arguments of `hsl()` or `hsla()`.
pub fn parse_hsl(args: &[char]) -> (r: Result<Color, ColorParseError>)
    ensures
        crate::outcome::judged(r) == hsl_outcome(args@),
{
    let a = split_channels_alpha(args);
    if a.channels.len() != 3 {
        return Err(ColorParseError::InvalidFunction(write_call("hsl", args)));
    }
    let h = match parse_hue_deg(a.channels[0].as_slice()) {
        Ok(x) => x,
        Err(e) => {
            return Err(e);
        },
    };
    let s = match parse_percent(a.channels[1].as_slice()) {
        Ok(x) => x,
        Err(e) => {
            return Err(e);
        },
    };
    let l = match parse_percent(a.channels[2].as_slice()) {
        Ok(x) => x,
        Err(e) => {
            return Err(e);
        },
    };
    let alpha: u8 = match parse_alpha(&a.alpha) {
        Ok(x) => x,
        Err(e) => {
            return Err(e);
        },
    };
    let (r, g, b) = hsl_to_rgb_u8(&h, &s, &l);
    Ok(Color { r, g, b, a: alpha })
}

/// The colour function family of another colour space that `s` calls.
pub open spec fn foreign_family(s: Seq<char>) -> Option<Seq<char>> {
    if crate::scan::begins(s, "oklab("@) {
        Some("oklab"@)
    } else if crate::scan::begins(s, "oklch("@) {
        Some("oklch"@)
    } else if crate::scan::begins(s, "lab("@) {
        Some("lab"@)
    } else if crate::scan::begins(s, "lch("@) {
        Some("lch"@)
    } else if crate::scan::begins(s, "color("@) {
        Some("color"@)
    } else {
        None
    }
}

fn find_family(s: &[char]) -> (r: Option<String>)
    ensures
        crate::outcome::seen(r) == foreign_family(s@),
{
    if starts_with(s, "oklab(") {
        Some("oklab".to_owned())
    } else if starts_with(s, "oklch(") {
        Some("oklch".to_owned())
    } else if starts_with(s, "lab(") {
        Some("lab".to_owned())
    } else if starts_with(s, "lch(") {
        Some("lch".to_owned())
    } else if starts_with(s, "color(") {
        Some("color".to_owned())
    } else {
        None
    }
}

/// The arguments of `name` or of its alias with an `a`.
pub open spec fn either_call(s: Seq<char>, name: Seq<char>, alias: Seq<char>) -> Option<
    Seq<char>,
> {
    match call_arguments(s, name) {
        Some(args) => Some(args),
        None => call_arguments(s, alias),
    }
}

fn strip_either(s: &[char], name: &str, alias: &str) -> (r: Option<Vec<char>>)
    ensures
        crate::outcome::seen(r) == either_call(s@, name@, alias@),
{
    match strip_fn(s, name) {
        Some(args) => Some(args),
        None => strip_fn(s, alias),
    }
}

/// The result of a colour function as a colour value.
pub open spec fn concrete(r: Result<Color, ColorFault>) -> Result<ColorOrKeyword, ColorFault> {
    match r {
        Ok(c) => Ok(ColorOrKeyword::Color(c)),
        Err(e) => Err(e),
    }
}

fn to_value(r: Result<Color, ColorParseError>) -> (v: Result<ColorOrKeyword, ColorParseError>)
    ensures
        crate::outcome::judged(v) == concrete(crate::outcome::judged(r)),
{
    match r {
        Ok(c) => Ok(ColorOrKeyword::Color(c)),
        Err(e) => Err(e),
    }
}

/// What the text `input` parses to as a colour value.
pub open spec fn color_outcome(input: Seq<char>) -> Result<ColorOrKeyword, ColorFault> {
    let s = crate::text::trimmed(input);
    let l = crate::text::lowered(s);
    if s.len() == 0 {
        Err(ColorFault::Empty)
    } else if l == "transparent"@ {
        Ok(ColorOrKeyword::Color(Color { r: 0, g: 0, b: 0, a: 0 }))
    } else if l == "currentcolor"@ {
        Ok(ColorOrKeyword::CurrentColor)
    } else if s[0] == '#' {
        concrete(hex_outcome(s.skip(1)))
    } else {
        match either_call(l, "rgb"@, "rgba"@) {
            Some(args) => concrete(rgb_outcome(args)),
            None => match either_call(l, "hsl"@, "hsla"@) {
                Some(args) => concrete(hsl_outcome(args)),
                None => match crate::color::named::named(l) {
                    Some(c) => Ok(ColorOrKeyword::Color(c)),
                    None => match foreign_family(l) {
                        Some(family) => Err(ColorFault::UnsupportedColorSpace(family)),
                        None => Err(ColorFault::UnknownName(s)),
                    },
                },
            },
        }
    }
}

impl ColorOrKeyword {
    /// Parses a colour value: hexadecimal digits, `rgb()`, `rgba()`, `hsl()`,
    /// `hsla()`, a name, `transparent` or `currentcolor`.
    pub fn parse(input: &str) -> (r: Result<ColorOrKeyword, ColorParseError>)
        ensures
            crate::outcome::judged(r) == color_outcome(input@),
    {
        let v = chars_of(input);
        let s = trim(v.as_slice());
        if s.len() == 0 {
            return Err(ColorParseError::Empty);
        }
        let l = lower(s.as_slice());
        if spells(l.as_slice(), "transparent") {
            return Ok(ColorOrKeyword::Color(Color { r: 0, g: 0, b: 0, a: 0 }));
        }
        if spells(l.as_slice(), "currentcolor") {
            return Ok(ColorOrKeyword::CurrentColor);
        }
        if s[0] == '#' {
            let digits = part(s.as_slice(), 1, s.len());
            assert(digits@ =~= s@.skip(1));
            return to_value(parse_hex(digits.as_slice()));
        }
        if let Some(args) = strip_either(l.as_slice(), "rgb", "rgba") {
            return to_value(parse_rgb(args.as_slice()));
        }
        if let Some(args) = strip_either(l.as_slice(), "hsl", "hsla") {
            return to_value(parse_hsl(args.as_slice()));
        }
        if let Some(c) = find_name(l.as_slice()) {
            return Ok(ColorOrKeyword::Color(c));
        }
        if let Some(family) = find_family(l.as_slice()) {
            return Err(ColorParseError::UnsupportedColorSpace(family));
        }
        Err(ColorParseError::UnknownName(string_of(s.as_slice())))
    }
}

/// What the text `input` parses to as a colour: `currentcolor` is none.
pub open spec fn plain_outcome(input: Seq<char>) -> Result<Color, ColorFault> {
    match color_outcome(input) {
        Ok(ColorOrKeyword::Color(c)) => Ok(c),
        Ok(ColorOrKeyword::CurrentColor) => Err(
            ColorFault::InvalidFunction("currentcolor requires the cascade"@),
        ),
        Err(e) => Err(e),
    }
}

impl Color {
    /// Parses a colour; `currentcolor` is refused, as only the cascade can
    /// resolve it.
    pub fn parse(input: &str) -> (r: Result<Color, ColorParseError>)
        ensures
            crate::outcome::judged(r) == plain_outcome(input@),
    {
        match ColorOrKeyword::parse(input) {
            Ok(ColorOrKeyword::Color(c)) => Ok(c),
            Ok(ColorOrKeyword::CurrentColor) => Err(
                ColorParseError::InvalidFunction("currentcolor requires the cascade".to_owned()),
            ),
            Err(e) => Err(e),
        }
    }
}

} // verus!
