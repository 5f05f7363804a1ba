use vixen_engine::border_image::{
    expand_trbl, BorderImageOutset, BorderImageParseError, BorderImageRepeat,
    BorderImageRepeatPair, BorderImageSlice, BorderImageWidthValue, BorderImageWidths,
    NumberFault, OutsetValue, SliceInset,
};
use vixen_engine::number::Literal;

fn number(s: &str) -> Literal {
    Literal { text: s.to_owned() }
}

fn pct(v: &SliceInset) -> f32 {
    match v {
        SliceInset::Percentage(l) => l.text.parse::<f32>().unwrap() / 100.0,
        SliceInset::Number(_) => panic!("a number"),
    }
}

fn num(v: &SliceInset) -> f32 {
    match v {
        SliceInset::Number(l) => l.text.parse().unwrap(),
        SliceInset::Percentage(_) => panic!("a percentage"),
    }
}

#[test]
fn slice_default_is_100_percent() {
    let s = BorderImageSlice::default();
    assert_eq!(pct(&s.top), 1.0);
    assert_eq!(pct(&s.left), 1.0);
    assert!(!s.fill);
}

#[test]
fn slice_parse_one_value() {
    let s = BorderImageSlice::parse("25%").unwrap();
    for (v, name) in [(s.top, "top"), (s.right, "right"), (s.bottom, "bottom"), (s.left, "left")] {
        assert_eq!(pct(&v), 0.25, "{name}");
    }
}

#[test]
fn slice_parse_two_three_four_values() {
    let two = BorderImageSlice::parse("10 20").unwrap();
    assert_eq!(num(&two.top), 10.0);
    assert_eq!(num(&two.right), 20.0);
    assert_eq!(num(&two.bottom), 10.0);
    assert_eq!(num(&two.left), 20.0);

    let three = BorderImageSlice::parse("10 20 30").unwrap();
    assert_eq!(num(&three.top), 10.0);
    assert_eq!(num(&three.right), 20.0);
    assert_eq!(num(&three.bottom), 30.0);
    assert_eq!(num(&three.left), 20.0);

    let four = BorderImageSlice::parse("1 2 3 4").unwrap();
    assert_eq!(num(&four.top), 1.0);
    assert_eq!(num(&four.right), 2.0);
    assert_eq!(num(&four.bottom), 3.0);
    assert_eq!(num(&four.left), 4.0);
}

#[test]
fn slice_parse_fill_keyword_anywhere() {
    let s = BorderImageSlice::parse("fill 25% 25%").unwrap();
    assert!(s.fill);
    let s2 = BorderImageSlice::parse("25% fill 25%").unwrap();
    assert!(s2.fill);
    let s3 = BorderImageSlice::parse("25% 25%").unwrap();
    assert!(!s3.fill);
}

#[test]
fn slice_of_two_percentages_with_fill() {
    let s = BorderImageSlice::parse("25% 30% fill").unwrap();
    assert_eq!(pct(&s.top), 0.25);
    assert_eq!(pct(&s.right), 0.30);
    assert!(s.fill);
}

#[test]
fn slice_parse_rejects_negative() {
    assert!(BorderImageSlice::parse("-10%").is_err());
    assert!(BorderImageSlice::parse("25% -10").is_err());
}

#[test]
fn slice_parse_rejects_too_many_values() {
    assert!(BorderImageSlice::parse("1 2 3 4 5").is_err());
}

#[test]
fn width_default_is_number_one() {
    let w = BorderImageWidths::default();
    assert_eq!(w.top, BorderImageWidthValue::Number(number("1")));
}

#[test]
fn width_parse_mixed_forms() {
    let w = BorderImageWidths::parse("10px 20% 3 auto").unwrap();
    assert_eq!(w.top, BorderImageWidthValue::Length(number("10")));
    assert_eq!(w.right, BorderImageWidthValue::Percentage(number("20")));
    assert_eq!(w.bottom, BorderImageWidthValue::Number(number("3")));
    assert_eq!(w.left, BorderImageWidthValue::Auto);
}

#[test]
fn outset_default_is_zero_length() {
    let o = BorderImageOutset::default();
    assert_eq!(o.top, OutsetValue::Length(number("0")));
}

#[test]
fn outset_parse_length_and_number() {
    let o = BorderImageOutset::parse("5px 2").unwrap();
    assert_eq!(o.top, OutsetValue::Length(number("5")));
    assert_eq!(o.right, OutsetValue::Number(number("2")));
    assert_eq!(o.bottom, OutsetValue::Length(number("5")));
    assert_eq!(o.left, OutsetValue::Number(number("2")));
}

#[test]
fn repeat_default_is_stretch_both() {
    let r = BorderImageRepeatPair::default();
    assert_eq!(r.horizontal, BorderImageRepeat::Stretch);
    assert_eq!(r.vertical, BorderImageRepeat::Stretch);
}

#[test]
fn repeat_one_value_applies_both_axes() {
    let r = BorderImageRepeatPair::parse("round").unwrap();
    assert_eq!(r.horizontal, BorderImageRepeat::Round);
    assert_eq!(r.vertical, BorderImageRepeat::Round);
}

#[test]
fn repeat_two_values_are_h_then_v() {
    let r = BorderImageRepeatPair::parse("round space").unwrap();
    assert_eq!(r.horizontal, BorderImageRepeat::Round);
    assert_eq!(r.vertical, BorderImageRepeat::Space);
}

#[test]
fn repeat_unknown_keyword_fails_closed() {
    assert!(BorderImageRepeatPair::parse("mirror").is_err());
    assert!(BorderImageRepeatPair::parse("stretch repeat extra").is_err());
}

#[test]
fn every_error_of_a_border_image() {
    assert_eq!(BorderImageSlice::parse(""), Err(BorderImageParseError::TooManyValues));
    assert_eq!(BorderImageSlice::parse("fill"), Err(BorderImageParseError::TooManyValues));
    assert_eq!(BorderImageWidths::parse("1 2 3 4 5"), Err(BorderImageParseError::TooManyValues));
    assert_eq!(
        BorderImageWidths::parse("1 -2px x"),
        Err(BorderImageParseError::NegativeValue("-2px".to_owned()))
    );
    assert_eq!(
        BorderImageOutset::parse("-inf"),
        Err(BorderImageParseError::NegativeValue("-inf".to_owned()))
    );
    assert_eq!(
        BorderImageSlice::parse("%"),
        Err(BorderImageParseError::InvalidNumber(NumberFault::Empty))
    );
    assert_eq!(
        BorderImageOutset::parse("2em"),
        Err(BorderImageParseError::InvalidNumber(NumberFault::Invalid))
    );
    assert_eq!(
        BorderImageRepeatPair::parse("round Mirror"),
        Err(BorderImageParseError::UnknownKeyword("Mirror".to_owned()))
    );
    assert_eq!(BorderImageRepeatPair::parse(" "), Err(BorderImageParseError::TooManyValues));
}

#[test]
fn negative_zeros_are_not_negative() {
    assert!(BorderImageSlice::parse("-0").is_ok());
    assert!(BorderImageSlice::parse("-1e-46").is_ok());
    assert!(BorderImageSlice::parse("-1e-45").is_err());
    assert!(BorderImageSlice::parse("nan").is_ok());
    assert!(BorderImageWidths::parse("AUTO -0px").is_ok());
}

#[test]
fn sides_of_a_border() {
    assert_eq!(expand_trbl(&[1, 2, 3]), Ok([1, 2, 3, 2]));
    assert_eq!(expand_trbl::<u8>(&[]), Err(BorderImageParseError::TooManyValues));
    assert_eq!(BorderImageRepeat::parse(" Space "), Some(BorderImageRepeat::Space));
    assert_eq!(BorderImageRepeat::parse("tile"), None);
}
