use vixen_engine::color::alpha::{premultiply, unpremultiply};
use vixen_engine::color::named::named_color;
use vixen_engine::color::{Color, ColorOrKeyword, ColorParseError};
use vixen_engine::display_list::Color as DisplayListColor;

fn approx_color(c: Color, r: u8, g: u8, b: u8, a: u8) -> bool {
    (c.r as i16 - r as i16).unsigned_abs() <= 1
        && (c.g as i16 - g as i16).unsigned_abs() <= 1
        && (c.b as i16 - b as i16).unsigned_abs() <= 1
        && c.a == a
}

#[test]
fn parse_hex_widths() {
    assert_eq!(Color::parse("#000").unwrap(), Color::black());
    assert_eq!(Color::parse("#fff").unwrap(), Color::white());
    assert_eq!(Color::parse("#0000").unwrap(), Color::transparent());
    assert_eq!(Color::parse("#ffff").unwrap(), Color::white());
    assert_eq!(Color::parse("#000000").unwrap(), Color::black());
    assert_eq!(Color::parse("#ffffff").unwrap(), Color::white());
    assert_eq!(Color::parse("#ff000080").unwrap(), Color::rgba(255, 0, 0, 128));
}

#[test]
fn parse_hex_uppercase_and_whitespace() {
    assert_eq!(Color::parse("  #FFAABB  ").unwrap(), Color::rgb(255, 170, 187));
    assert_eq!(Color::parse("#FAF").unwrap(), Color::rgb(255, 170, 255));
}

#[test]
fn parse_hex_rejects_bad_width() {
    assert!(Color::parse("#12").is_err());
    assert!(Color::parse("#12345").is_err());
    assert!(Color::parse("#1234567").is_err());
    assert!(Color::parse("#gggggg").is_err());
    assert!(Color::parse("#").is_err());
}

#[test]
fn parse_rgb_legacy_and_modern() {
    assert_eq!(Color::parse("rgb(255, 0, 0)").unwrap(), Color::rgb(255, 0, 0));
    assert_eq!(Color::parse("rgb(255 0 0)").unwrap(), Color::rgb(255, 0, 0));
    assert_eq!(Color::parse("rgb(255 0 0 / 0.5)").unwrap(), Color::rgba(255, 0, 0, 128));
    assert_eq!(Color::parse("rgba(255, 0, 0, 0.5)").unwrap(), Color::rgba(255, 0, 0, 128));
    assert_eq!(Color::parse("rgb(100%, 0%, 0%)").unwrap(), Color::rgb(255, 0, 0));
}

#[test]
fn parse_rgb_clamps_out_of_gamut() {
    let c = Color::parse("rgb(300, -10, 0)").unwrap();
    assert_eq!(c, Color::rgb(255, 0, 0));
}

#[test]
fn parse_rgb_alpha_percentage() {
    assert_eq!(Color::parse("rgba(0, 0, 0, 50%)").unwrap(), Color::rgba(0, 0, 0, 128));
}

#[test]
fn parse_hsl_primaries() {
    assert_eq!(Color::parse("hsl(0, 100%, 50%)").unwrap(), Color::rgb(255, 0, 0));
    assert!(approx_color(Color::parse("hsl(120, 100%, 50%)").unwrap(), 0, 255, 0, 255));
    assert!(approx_color(Color::parse("hsl(240, 100%, 50%)").unwrap(), 0, 0, 255, 255));
}

#[test]
fn parse_hsl_achromatic() {
    assert_eq!(Color::parse("hsl(0, 0%, 50%)").unwrap(), Color::rgb(128, 128, 128));
    assert_eq!(Color::parse("hsl(0, 0%, 0%)").unwrap(), Color::black());
    assert_eq!(Color::parse("hsl(0, 0%, 100%)").unwrap(), Color::white());
}

#[test]
fn parse_hsl_hue_normalisation() {
    let a = Color::parse("hsl(360, 100%, 50%)").unwrap();
    let b = Color::parse("hsl(0, 100%, 50%)").unwrap();
    assert_eq!(a, b);
    let neg = Color::parse("hsl(-120, 100%, 50%)").unwrap();
    let pos = Color::parse("hsl(240, 100%, 50%)").unwrap();
    assert_eq!(neg, pos);
}

#[test]
fn parse_hsla_with_alpha() {
    assert_eq!(Color::parse("hsla(0, 100%, 50%, 0.5)").unwrap(), Color::rgba(255, 0, 0, 128));
}

#[test]
fn parse_named_colours() {
    assert_eq!(Color::parse("red").unwrap(), Color::rgb(255, 0, 0));
    assert_eq!(Color::parse("ReBeccaPurple").unwrap(), Color::rgb(102, 51, 153));
    assert_eq!(Color::parse("CORAL").unwrap(), Color::rgb(255, 127, 80));
    assert_eq!(Color::parse("transparent").unwrap(), Color::transparent());
}

#[test]
fn parse_currentcolor_round_trips_keyword() {
    assert_eq!(ColorOrKeyword::parse("currentColor"), Ok(ColorOrKeyword::CurrentColor));
    assert!(Color::parse("currentcolor").is_err());
}

#[test]
fn parse_unknown_name_fails_closed() {
    assert!(Color::parse("notacolor").is_err());
    assert!(Color::parse("").is_err());
}

#[test]
fn parse_unsupported_color_space_signals_deferred() {
    for s in ["oklch(0.5 0.1 200)", "lab(50% 0 0)", "color(display-p3 1 0 0)"] {
        let e = Color::parse(s).unwrap_err();
        assert!(
            matches!(e, ColorParseError::UnsupportedColorSpace(_)),
            "expected UnsupportedColorSpace for {s}, got {e:?}"
        );
    }
}

#[test]
fn named_table_known_samples() {
    assert_eq!(named_color("red"), Some(Color::rgb(255, 0, 0)));
    assert_eq!(named_color("cornflowerblue"), Some(Color::rgb(100, 149, 237)));
    assert_eq!(named_color("nosuch"), None);
}

#[test]
fn premultiply_unpremultiply_round_trip() {
    for c in [
        Color::rgb(255, 0, 0),
        Color::rgb(123, 45, 67),
        Color::rgba(200, 100, 50, 200),
        Color::rgba(255, 255, 255, 128),
    ] {
        let rt = unpremultiply(premultiply(c));
        assert!(
            (rt.r as i16 - c.r as i16).unsigned_abs() <= 1
                && (rt.g as i16 - c.g as i16).unsigned_abs() <= 1
                && (rt.b as i16 - c.b as i16).unsigned_abs() <= 1
                && rt.a == c.a,
            "round trip {c:?} -> {rt:?}"
        );
    }
    assert_eq!(premultiply(Color::rgb(123, 45, 67)), Color::rgb(123, 45, 67));
    assert_eq!(premultiply(Color::rgba(99, 99, 99, 0)), Color::transparent());
}

#[test]
fn color_converts_to_display_list_color() {
    let c = Color::rgba(1, 2, 3, 4);
    assert_eq!(c.to_display_list(), DisplayListColor::rgba(1, 2, 3, 4));
}

#[test]
fn every_error_of_a_color() {
    assert_eq!(Color::parse("   "), Err(ColorParseError::Empty));
    assert_eq!(Color::parse("#12G"), Err(ColorParseError::InvalidHex("#12G".to_owned())));
    assert_eq!(
        Color::parse("RGB(1, 2)"),
        Err(ColorParseError::InvalidFunction("rgb(1, 2)".to_owned()))
    );
    assert_eq!(
        Color::parse("hsl(1 2% 3% 4%)"),
        Err(ColorParseError::InvalidFunction("hsl(1 2% 3% 4%)".to_owned()))
    );
    assert_eq!(
        Color::parse("rgb(1 x 3)"),
        Err(ColorParseError::InvalidNumber("x".to_owned()))
    );
    assert_eq!(
        Color::parse("hsl(1 2 3%)"),
        Err(ColorParseError::InvalidNumber("2".to_owned()))
    );
    assert_eq!(
        Color::parse("rgb(1 2 3 / y%)"),
        Err(ColorParseError::InvalidNumber("y%".to_owned()))
    );
    assert_eq!(
        Color::parse(" NotAColor "),
        Err(ColorParseError::UnknownName("NotAColor".to_owned()))
    );
    assert_eq!(
        Color::parse("OkLab(1 2 3)"),
        Err(ColorParseError::UnsupportedColorSpace("oklab".to_owned()))
    );
    assert_eq!(
        Color::parse("currentcolor"),
        Err(ColorParseError::InvalidFunction("currentcolor requires the cascade".to_owned()))
    );
}

#[test]
fn halves_round_to_the_even_neighbour() {
    assert_eq!(Color::parse("rgb(0.5 1.5 2.5)").unwrap(), Color::rgb(0, 2, 2));
    assert_eq!(Color::parse("rgb(0.5000000001 1.4999999999 254.5)").unwrap(), Color::rgb(1, 1, 254));
    assert_eq!(Color::parse("rgb(1e2 25e-1 .5e1)").unwrap(), Color::rgb(100, 2, 5));
}

#[test]
fn numbers_at_the_ends_of_their_range() {
    assert_eq!(Color::parse("rgb(1e400 -1e400 1e-400)").unwrap(), Color::rgb(255, 0, 0));
    assert_eq!(Color::parse("rgb(inf -inf nan)").unwrap(), Color::rgb(255, 0, 0));
    assert_eq!(
        Color::parse("rgb(1e99999999999999999999999999 1e-99999999999999999999999999 0e9999999999999999999999999999)")
            .unwrap(),
        Color::rgb(255, 0, 0)
    );
}

#[test]
fn hues_take_every_unit() {
    let green = Color::parse("hsl(120 100% 25%)").unwrap();
    assert_eq!(green, Color::rgb(0, 128, 0));
    assert_eq!(Color::parse("hsl(120deg 100% 25%)").unwrap(), green);
    assert_eq!(Color::parse("hsl(133.33333333333334grad 100% 25%)").unwrap(), green);
    assert_eq!(Color::parse("hsl(2.0943951023931953rad 100% 25%)").unwrap(), green);
    assert_eq!(Color::parse("hsl(0.3333333333333333turn 100% 25%)").unwrap(), green);
    assert_eq!(Color::parse("hsl(480 100% 25%)").unwrap(), green);
    assert_eq!(Color::parse("hsl(-240 100% 25%)").unwrap(), green);
}

#[test]
fn hues_within_a_sector() {
    assert_eq!(Color::parse("hsl(30 100% 50%)").unwrap(), Color::rgb(255, 128, 0));
    assert_eq!(Color::parse("hsl(210 50% 40%)").unwrap(), Color::rgb(51, 102, 153));
    assert_eq!(Color::parse("hsl(300 25% 75%)").unwrap(), Color::rgb(207, 175, 207));
    assert_eq!(Color::parse("hsl(90, 200%, 50%)").unwrap(), Color::rgb(128, 255, 0));
}

#[test]
fn channels_may_leave_out_the_alpha() {
    assert_eq!(Color::parse("rgb(1 2 3 /)").unwrap(), Color::rgb(1, 2, 3));
    assert_eq!(Color::parse("rgb(1,, 2, 3)").unwrap(), Color::rgb(1, 2, 3));
    assert_eq!(Color::parse("rgb(1, 2, 3 / 25%)").unwrap(), Color::rgba(1, 2, 3, 64));
}

#[test]
fn unpremultiplying_is_single_precision() {
    assert_eq!(unpremultiply(Color::rgba(7, 0, 1, 14)), Color::rgba(127, 0, 18, 14));
    assert_eq!(unpremultiply(Color::rgba(1, 2, 3, 2)), Color::rgba(128, 255, 255, 2));
    assert_eq!(premultiply(Color::rgba(255, 128, 1, 128)), Color::rgba(128, 64, 1, 128));
}

#[test]
fn short_hex_is_long_hex() {
    assert_eq!(Color::parse("#1aF8").unwrap(), Color::parse("#11AAff88").unwrap());
}

#[test]
fn case_and_space_around_colors() {
    assert_eq!(Color::parse("\u{a0} HSL( 0 , 100% , 50% )\n").unwrap(), Color::rgb(255, 0, 0));
    assert_eq!(
        ColorOrKeyword::from(Color::rgb(1, 2, 3)),
        ColorOrKeyword::Color(Color::rgb(1, 2, 3))
    );
}

#[test]
fn premultiplied_colors_survive_being_undone() {
    for a in 0..=255u8 {
        for c in 0..=a {
            let color = Color::rgba(c, a - c, 0, a);
            assert_eq!(premultiply(unpremultiply(color)), color);
        }
    }
}

#[test]
fn full_turns_of_a_written_hue() {
    for (hue, turned) in [(30, 390), (-30, 330), (0, -720), (200, 200 - 360 * 1_000_000)] {
        assert_eq!(
            Color::parse(&format!("hsl({turned}, 62.5%, 40%)")).unwrap(),
            Color::parse(&format!("hsl({hue}, 62.5%, 40%)")).unwrap()
        );
    }
    let at = |hue: i64| Color::parse(&format!("hsl({hue}, 100%, 50%)")).unwrap();
    assert_eq!(at(9_007_199_254_740_991), at(9_007_199_254_740_991 % 360));
}

#[test]
fn channels_are_those_of_double_precision() {
    assert_eq!(Color::parse("hsl(0, 20%, 25%)").unwrap(), Color::rgb(77, 51, 51));
    assert_eq!(Color::parse("hsl(0, 80%, 50%)").unwrap(), Color::rgb(230, 25, 25));
    assert_eq!(Color::parse("hsl(0, 100%, 5%)").unwrap(), Color::rgb(25, 0, 0));
    assert_eq!(Color::parse("hsl(10, 25%, 20%)").unwrap(), Color::rgb(64, 43, 38));
    assert_eq!(Color::parse("hsl(0, 60%, 75%)").unwrap(), Color::rgb(229, 153, 153));
    assert_eq!(Color::parse("rgb(10% 30% 70% / 0.7)").unwrap(), Color::rgba(26, 76, 178, 178));
}

/// A share of one as a channel, a half rounded to the even neighbour.
fn shade(share: f64) -> u8 {
    (share * 255.0).round_ties_even().clamp(0.0, 255.0) as u8
}

/// The colour of a hue in `[0, 360)`, a saturation and a lightness above zero.
fn mixed(hue: f64, saturation: f64, lightness: f64) -> Color {
    let chroma = (1.0 - (2.0 * lightness - 1.0).abs()) * saturation;
    let sectors = hue / 60.0;
    let middle = chroma * (1.0 - (sectors.rem_euclid(2.0) - 1.0).abs());
    let base = lightness - chroma / 2.0;
    let (r, g, b) = match sectors as i32 {
        0 => (chroma, middle, 0.0),
        1 => (middle, chroma, 0.0),
        2 => (0.0, chroma, middle),
        3 => (0.0, middle, chroma),
        4 => (middle, 0.0, chroma),
        _ => (chroma, 0.0, middle),
    };
    Color::rgb(shade(r + base), shade(g + base), shade(b + base))
}

#[test]
fn hues_mix_as_doubles_do() {
    for (hue, scale, unit) in [
        (10.0, 1.0, "deg"),
        (-75.3, 1.0, ""),
        (200.5, 0.9, "grad"),
        (-1.7, 180.0 / std::f64::consts::PI, "rad"),
        (0.77, 360.0, "turn"),
    ] {
        let degrees: f64 = hue * scale;
        for (saturation, lightness) in [(15.0, 85.0), (44.4, 5.5), (75.0, 40.0)] {
            assert_eq!(
                Color::parse(&format!("hsl({hue}{unit}, {saturation}%, {lightness}%)")).unwrap(),
                mixed(degrees.rem_euclid(360.0), saturation / 100.0, lightness / 100.0)
            );
        }
    }
}

#[test]
fn hues_beyond_a_double_have_no_green() {
    assert_eq!(Color::parse("hsl(1e308turn, 100%, 40%)").unwrap(), Color::rgb(204, 0, 0));
    assert_eq!(Color::parse("hsl(nan, 100%, 60%)").unwrap(), Color::rgb(255, 0, 51));
    assert_eq!(Color::parse("hsl(-1e-20, 100%, 50%)").unwrap(), Color::rgb(255, 0, 0));
    assert_eq!(Color::parse("hsl(1e-320turn, 1e-320%, 50%)").unwrap(), Color::rgb(128, 128, 128));
}
