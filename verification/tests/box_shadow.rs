use vixen_engine::box_shadow::{parse_box_shadow, BoxShadowParseError};
use vixen_engine::color::{Color, ColorParseError};
use vixen_engine::number::Literal;

fn px(l: &Literal) -> f32 {
    l.text.parse().unwrap()
}

#[test]
fn parse_none_is_empty_list() {
    assert!(parse_box_shadow("none").unwrap().is_empty());
    assert!(parse_box_shadow("NONE").unwrap().is_empty());
    assert!(parse_box_shadow("").unwrap().is_empty());
}

#[test]
fn parse_two_lengths_offset_only() {
    let v = parse_box_shadow("5px 5px").unwrap();
    assert_eq!(v.len(), 1);
    assert_eq!(px(&v[0].offset_x), 5.0);
    assert_eq!(px(&v[0].offset_y), 5.0);
    assert_eq!(px(&v[0].blur_radius), 0.0);
    assert_eq!(px(&v[0].spread), 0.0);
    assert!(!v[0].inset);
}

#[test]
fn parse_three_lengths_includes_blur() {
    let v = parse_box_shadow("0 0 10px").unwrap();
    assert_eq!(px(&v[0].blur_radius), 10.0);
    assert_eq!(px(&v[0].spread), 0.0);
}

#[test]
fn parse_four_lengths_includes_spread() {
    let v = parse_box_shadow("1px 2px 3px 4px").unwrap();
    assert_eq!(px(&v[0].offset_x), 1.0);
    assert_eq!(px(&v[0].offset_y), 2.0);
    assert_eq!(px(&v[0].blur_radius), 3.0);
    assert_eq!(px(&v[0].spread), 4.0);
}

#[test]
fn parse_trailing_named_color() {
    let v = parse_box_shadow("5px 5px red").unwrap();
    assert_eq!(v[0].color, Color::rgb(255, 0, 0));
}

#[test]
fn parse_leading_color_then_lengths() {
    let v = parse_box_shadow("red 5px 5px").unwrap();
    assert_eq!(v[0].color, Color::rgb(255, 0, 0));
    assert_eq!(px(&v[0].offset_x), 5.0);
}

#[test]
fn parse_inset_keyword_anywhere() {
    let v = parse_box_shadow("inset 5px 5px black").unwrap();
    assert!(v[0].inset);
    let v = parse_box_shadow("5px 5px inset black").unwrap();
    assert!(v[0].inset);
    let v = parse_box_shadow("5px 5px black inset").unwrap();
    assert!(v[0].inset);
}

#[test]
fn parse_hex_color() {
    let v = parse_box_shadow("0 0 0 2px #3366ff").unwrap();
    assert_eq!(px(&v[0].spread), 2.0);
    assert_eq!(v[0].color, Color::rgb(0x33, 0x66, 0xff));
}

#[test]
fn parse_rgb_function_color() {
    let v = parse_box_shadow("0 0 0 1px rgb(10, 20, 30), 5px 5px black").unwrap();
    assert_eq!(v.len(), 2);
    assert_eq!(v[0].color, Color::rgb(10, 20, 30));
    assert_eq!(v[1].color, Color::rgb(0, 0, 0));
    assert_eq!(px(&v[1].offset_x), 5.0);
}

#[test]
fn parse_negative_blur_clamped() {
    let v = parse_box_shadow("5px 5px -5px").unwrap();
    assert_eq!(px(&v[0].blur_radius), 0.0, "negative blur must clamp to 0");
}

#[test]
fn parse_negative_spread_kept() {
    let v = parse_box_shadow("5px 5px 0 -5px").unwrap();
    assert_eq!(px(&v[0].spread), -5.0);
}

#[test]
fn parse_negative_offsets() {
    let v = parse_box_shadow("-5px -5px").unwrap();
    assert_eq!(px(&v[0].offset_x), -5.0);
    assert_eq!(px(&v[0].offset_y), -5.0);
}

#[test]
fn parse_errors_on_too_few_lengths() {
    assert!(matches!(parse_box_shadow("5px"), Err(BoxShadowParseError::NotEnoughLengths)));
    assert!(parse_box_shadow("black").is_err());
}

#[test]
fn parse_errors_on_too_many_lengths() {
    assert!(matches!(
        parse_box_shadow("1px 2px 3px 4px 5px"),
        Err(BoxShadowParseError::TooManyLengths)
    ));
}

#[test]
fn parse_errors_on_bad_length() {
    assert!(matches!(parse_box_shadow("foo 5px"), Err(BoxShadowParseError::BadColor(_, _))));
}

#[test]
fn list_first_is_first() {
    let v = parse_box_shadow("1px 1px red, 2px 2px blue").unwrap();
    assert_eq!(v[0].color, Color::rgb(255, 0, 0));
    assert_eq!(v[1].color, Color::rgb(0, 0, 255));
}

#[test]
fn list_trims_whitespace_between_entries() {
    let v = parse_box_shadow("  1px 1px  ,  2px 2px  ").unwrap();
    assert_eq!(v.len(), 2);
}

#[test]
fn every_error_of_a_shadow() {
    assert_eq!(parse_box_shadow("1em 2px"), Err(BoxShadowParseError::BadLength("1em".to_owned())));
    assert_eq!(
        parse_box_shadow("1px 2px, #zz 1px 2px"),
        Err(BoxShadowParseError::BadColor(
            "#zz".to_owned(),
            ColorParseError::InvalidHex("#zz".to_owned())
        ))
    );
    assert_eq!(parse_box_shadow(", 1px 1px"), Err(BoxShadowParseError::NotEnoughLengths));
    assert_eq!(parse_box_shadow("1px 1px,").unwrap().len(), 1);
}

#[test]
fn shadows_without_a_colour_are_transparent() {
    let v = parse_box_shadow("1px 1px 3px INSET").unwrap();
    assert_eq!(v[0].color, Color::transparent());
    assert!(v[0].inset);
    let v = parse_box_shadow("red 1px 1px blue").unwrap();
    assert_eq!(v[0].color, Color::rgb(0, 0, 255));
    let v = parse_box_shadow("1px 1px +nan").unwrap();
    assert_eq!(px(&v[0].blur_radius), 0.0);
}
