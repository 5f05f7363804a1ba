use vixen_engine::calc::evaluate::{CalcResult, Formula};
use vixen_engine::calc::parser::parse_calc;
use vixen_engine::calc::token::{tokenize, Tok};
use vixen_engine::calc::{CalcError, CalcNode, Length, LengthUnit};
use vixen_engine::number::Literal;

fn value(l: &Literal) -> f64 {
    l.text.parse().unwrap()
}

fn px(l: &Length) -> f64 {
    // A viewport of 800 by 600 and a font of 16 pixels.
    let factor = match l.unit {
        LengthUnit::Px => 1.0,
        LengthUnit::In => 96.0,
        LengthUnit::Em => 16.0,
        LengthUnit::Vw => 8.0,
        _ => panic!("no such unit here"),
    };
    value(&l.value) * factor
}

/// Percentages are of 400 pixels.
fn amount(f: &Formula) -> f64 {
    match f {
        Formula::Zero => 0.0,
        Formula::Written(l) => value(l),
        Formula::Pixels(l) => px(l),
        Formula::Sum(a, b) => amount(a) + amount(b),
        Formula::Negated(a) => -amount(a),
        Formula::Product(a, b) => amount(a) * amount(b),
        Formula::Inverse(a) => 1.0 / amount(a),
        Formula::Resolved(a, b) => amount(a) + amount(b) / 100.0 * 400.0,
        Formula::Least(v) => v.iter().map(amount).fold(f64::INFINITY, f64::min),
        Formula::Greatest(v) => v.iter().map(amount).fold(f64::NEG_INFINITY, f64::max),
        Formula::Clamped(a, b, c) => {
            if amount(a) > amount(c) {
                amount(a)
            } else {
                amount(b).max(amount(a)).min(amount(c))
            }
        }
    }
}

fn resolve_length(n: &CalcNode) -> Result<f64, CalcError> {
    Ok(amount(&n.resolve_length()?))
}

fn resolve_number(n: &CalcNode) -> Result<f64, CalcError> {
    Ok(amount(&n.resolve_number()?))
}

#[test]
fn calc_two_plus_three() {
    let n = parse_calc("calc(2 + 3)").unwrap();
    assert!((resolve_number(&n).unwrap() - 5.0).abs() < 1e-9);
}

#[test]
fn calc_multiplication_before_addition() {
    let n = parse_calc("calc(2 + 3 * 4)").unwrap();
    assert!((resolve_number(&n).unwrap() - 14.0).abs() < 1e-9);
}

#[test]
fn calc_division() {
    let n = parse_calc("calc(20 / 4)").unwrap();
    assert!((resolve_number(&n).unwrap() - 5.0).abs() < 1e-9);
}

#[test]
fn calc_subtraction() {
    let n = parse_calc("calc(10 - 3 - 2)").unwrap();
    assert!((resolve_number(&n).unwrap() - 5.0).abs() < 1e-9);
}

#[test]
fn calc_parenthesised_grouping() {
    let n = parse_calc("calc((2 + 3) * 4)").unwrap();
    assert!((resolve_number(&n).unwrap() - 20.0).abs() < 1e-9);
}

#[test]
fn calc_nested_parens() {
    let n = parse_calc("calc(((1 + 2) * (3 + 4)) - 5)").unwrap();
    // (3 * 7) - 5 = 16
    assert!((resolve_number(&n).unwrap() - 16.0).abs() < 1e-9);
}

#[test]
fn calc_number_times_number() {
    let n = parse_calc("calc(2.5 * 4)").unwrap();
    assert!((resolve_number(&n).unwrap() - 10.0).abs() < 1e-9);
}

#[test]
fn calc_length_plus_length() {
    let n = parse_calc("calc(10px + 20px)").unwrap();
    assert!((resolve_length(&n).unwrap() - 30.0).abs() < 1e-9);
}

#[test]
fn calc_length_minus_length() {
    let n = parse_calc("calc(50px - 20px)").unwrap();
    assert!((resolve_length(&n).unwrap() - 30.0).abs() < 1e-9);
}

#[test]
fn calc_length_times_number() {
    let n = parse_calc("calc(10px * 3)").unwrap();
    assert!((resolve_length(&n).unwrap() - 30.0).abs() < 1e-9);
}

#[test]
fn calc_number_times_length() {
    // Order independence: `3 * 10px` is also valid.
    let n = parse_calc("calc(3 * 10px)").unwrap();
    assert!((resolve_length(&n).unwrap() - 30.0).abs() < 1e-9);
}

#[test]
fn calc_length_divided_by_number() {
    let n = parse_calc("calc(60px / 4)").unwrap();
    assert!((resolve_length(&n).unwrap() - 15.0).abs() < 1e-9);
}

#[test]
fn calc_length_unit_mixed_resolves_to_px() {
    // 1in = 96px; 10px + 1in = 106px.
    let n = parse_calc("calc(10px + 1in)").unwrap();
    assert!((resolve_length(&n).unwrap() - 106.0).abs() < 1e-9);
}

#[test]
fn calc_em_resolves_via_font_size() {
    // 2em at 16px font = 32px.
    let n = parse_calc("calc(2em + 8px)").unwrap();
    assert!((resolve_length(&n).unwrap() - 40.0).abs() < 1e-9);
}

#[test]
fn calc_vw_resolves_via_viewport() {
    // 10vw at 800px viewport = 80px.
    let n = parse_calc("calc(10vw + 20px)").unwrap();
    assert!((resolve_length(&n).unwrap() - 100.0).abs() < 1e-9);
}

#[test]
fn calc_percent_plus_length() {
    // The classic: 50% + 10px with basis 400 ⇒ 200 + 10 = 210.
    let n = parse_calc("calc(50% + 10px)").unwrap();
    assert!((resolve_length(&n).unwrap() - 210.0).abs() < 1e-9);
}

#[test]
fn calc_percent_minus_length() {
    // 100% - 50px with basis 400 ⇒ 400 - 50 = 350.
    let n = parse_calc("calc(100% - 50px)").unwrap();
    assert!((resolve_length(&n).unwrap() - 350.0).abs() < 1e-9);
}

#[test]
fn calc_percent_times_number() {
    // 50% * 2 = 100% with basis 400 ⇒ 400.
    let n = parse_calc("calc(50% * 2)").unwrap();
    assert!((resolve_length(&n).unwrap() - 400.0).abs() < 1e-9);
}

#[test]
fn calc_percent_of_percent() {
    // 50% + 25% = 75% with basis 400 ⇒ 300.
    let n = parse_calc("calc(50% + 25%)").unwrap();
    assert!((resolve_length(&n).unwrap() - 300.0).abs() < 1e-9);
}

#[test]
fn min_returns_smallest() {
    let n = parse_calc("min(10px, 20px, 5px, 30px)").unwrap();
    assert!((resolve_length(&n).unwrap() - 5.0).abs() < 1e-9);
}

#[test]
fn max_returns_largest() {
    let n = parse_calc("max(10px, 20px, 5px, 30px)").unwrap();
    assert!((resolve_length(&n).unwrap() - 30.0).abs() < 1e-9);
}

#[test]
fn clamp_within_range_returns_value() {
    let n = parse_calc("clamp(10px, 50px, 100px)").unwrap();
    assert!((resolve_length(&n).unwrap() - 50.0).abs() < 1e-9);
}

#[test]
fn clamp_below_min_returns_min() {
    let n = parse_calc("clamp(10px, 5px, 100px)").unwrap();
    assert!((resolve_length(&n).unwrap() - 10.0).abs() < 1e-9);
}

#[test]
fn clamp_above_max_returns_max() {
    let n = parse_calc("clamp(10px, 200px, 100px)").unwrap();
    assert!((resolve_length(&n).unwrap() - 100.0).abs() < 1e-9);
}

#[test]
fn clamp_min_above_max_returns_min() {
    // if max < min, the value is min.
    let n = parse_calc("clamp(100px, 50px, 10px)").unwrap();
    assert!((resolve_length(&n).unwrap() - 100.0).abs() < 1e-9);
}

#[test]
fn clamp_with_percent_args() {
    // clamp(10%, 50%, 100%) with basis 400 ⇒ clamp(40, 200, 400) = 200.
    let n = parse_calc("clamp(10%, 50%, 100%)").unwrap();
    assert!((resolve_length(&n).unwrap() - 200.0).abs() < 1e-9);
}

#[test]
fn nested_calc_inside_min() {
    // min(calc(10px * 2), 15px) = min(20px, 15px) = 15px.
    let n = parse_calc("min(calc(10px * 2), 15px)").unwrap();
    assert!((resolve_length(&n).unwrap() - 15.0).abs() < 1e-9);
}

#[test]
fn min_with_mixed_units() {
    // min(2in, 100px) = min(192px, 100px) = 100px.
    let n = parse_calc("min(2in, 100px)").unwrap();
    assert!((resolve_length(&n).unwrap() - 100.0).abs() < 1e-9);
}

#[test]
fn length_plus_number_is_type_error() {
    let n = parse_calc("calc(10px + 5)").unwrap();
    assert!(matches!(
        n.evaluate(),
        Err(CalcError::TypeMismatch { .. })
    ));
}

#[test]
fn length_times_length_is_type_error() {
    let n = parse_calc("calc(10px * 5px)").unwrap();
    assert!(matches!(
        n.evaluate(),
        Err(CalcError::TypeMismatch { .. })
    ));
}

#[test]
fn length_divided_by_length_is_type_error() {
    // the divisor must be a number.
    let n = parse_calc("calc(10px / 5px)").unwrap();
    assert!(matches!(
        n.evaluate(),
        Err(CalcError::TypeMismatch { .. })
    ));
}

#[test]
fn resolving_a_number_as_length_errors() {
    let n = parse_calc("calc(2 + 3)").unwrap();
    assert!(resolve_length(&n).is_err());
}

#[test]
fn resolving_a_length_as_number_errors() {
    let n = parse_calc("calc(2px + 3px)").unwrap();
    assert!(resolve_number(&n).is_err());
}

#[test]
fn empty_calc_errors() {
    assert!(parse_calc("").is_err());
}

#[test]
fn unclosed_paren_errors() {
    assert!(parse_calc("calc(10px + 20px").is_err());
}

#[test]
fn clamp_with_two_args_errors() {
    assert!(matches!(
        parse_calc("clamp(10px, 50px)"),
        Err(CalcError::ClampArgCount(2))
    ));
}

#[test]
fn trailing_tokens_error() {
    // `calc(10px) 20px` — extra tokens after the calc.
    assert!(parse_calc("calc(10px) 20px").is_err());
}

#[test]
fn calc_tolerates_extra_whitespace() {
    let n = parse_calc("calc(  10px   +   20px  )").unwrap();
    assert!((resolve_length(&n).unwrap() - 30.0).abs() < 1e-9);
}

#[test]
fn calc_operator_precedence_mul_over_add() {
    let n = parse_calc("calc(2 + 3 * 4 + 5)").unwrap();
    // 2 + 12 + 5 = 19
    assert!((resolve_number(&n).unwrap() - 19.0).abs() < 1e-9);
}

#[test]
fn calc_division_precedence() {
    let n = parse_calc("calc(2 * 3 + 8 / 4)").unwrap();
    // 6 + 2 = 8
    assert!((resolve_number(&n).unwrap() - 8.0).abs() < 1e-9);
}

#[test]
fn bare_expression_parses_without_calc_wrapper() {
    let n = parse_calc("10px + 20px").unwrap();
    assert!((resolve_length(&n).unwrap() - 30.0).abs() < 1e-9);
}

#[test]
fn resolve_length_calc_one_liner() {
    assert!((resolve_length(&parse_calc("calc(10px + 20px)").unwrap()).unwrap() - 30.0).abs() < 1e-9);
}

#[test]
fn unitless_zero_in_length_context() {
    // `0` parses as a px-valued length (Length::parse accepts unitless 0).
    let n = parse_calc("calc(0 + 10px)").unwrap();
    assert!((resolve_length(&n).unwrap() - 10.0).abs() < 1e-9);
}

#[test]
fn tokens_of_a_calculation() {
    let t = tokenize("min(1.5e3, -2Q)/50%").unwrap();
    assert_eq!(t.len(), 9);
    assert_eq!(t[2], Tok::Number(Literal { text: "1.5e3".to_owned() }));
    assert_eq!(t[4], Tok::Minus);
    assert_eq!(
        t[5],
        Tok::Length(Length { value: Literal { text: "2".to_owned() }, unit: LengthUnit::Q })
    );
    assert_eq!(t[7], Tok::Slash);
    assert_eq!(t[8], Tok::Percent(Literal { text: "50".to_owned() }));
    assert_eq!(tokenize("1e-3"), Err(CalcError::UnexpectedToken("1e".to_owned())));
    assert_eq!(tokenize("%"), Err(CalcError::UnexpectedToken("%".to_owned())));
}

#[test]
fn every_error_of_a_calculation() {
    assert_eq!(parse_calc(" "), Err(CalcError::Empty));
    assert_eq!(parse_calc("calc(1 +"), Err(CalcError::UnexpectedEof));
    assert_eq!(parse_calc("calc 1"), Err(CalcError::UnexpectedToken("calc without (".to_owned())));
    assert_eq!(parse_calc("1 + )"), Err(CalcError::UnexpectedToken("RParen".to_owned())));
    assert_eq!(parse_calc("1 + ,"), Err(CalcError::UnexpectedToken("Comma".to_owned())));
    assert_eq!(parse_calc("1)"), Err(CalcError::UnexpectedToken("Some(RParen)".to_owned())));
    assert_eq!(
        parse_calc("1 min(2)"),
        Err(CalcError::UnexpectedToken("Some(Func(\"min\"))".to_owned()))
    );
    assert!(matches!(
        parse_calc("1 2%"),
        Err(CalcError::TrailingValue(Tok::Percent(value))) if value.text == "2"
    ));
    assert_eq!(parse_calc("10foo"), Err(CalcError::UnexpectedToken("10foo".to_owned())));
    assert_eq!(parse_calc("min(1px, 2px"), Err(CalcError::UnclosedParen));
    assert_eq!(parse_calc("clamp(1, 2, 3, 4)"), Err(CalcError::ClampArgCount(4)));
    assert_eq!(CalcNode::Min(vec![]).evaluate(), Err(CalcError::EmptyMathFunction));
    assert_eq!(
        parse_calc("1px / 2px").unwrap().evaluate(),
        Err(CalcError::TypeMismatch { wanted: "number", got: "length" })
    );
    assert_eq!(
        parse_calc("max(1px, 2)").unwrap().evaluate(),
        Err(CalcError::TypeMismatch { wanted: "length", got: "number" })
    );
    assert_eq!(
        parse_calc("clamp(1, 2, 3px)").unwrap().evaluate(),
        Err(CalcError::TypeMismatch { wanted: "number", got: "length" })
    );
}

#[test]
fn functions_of_numbers_are_numbers() {
    let n = parse_calc("min(3, max(1, 2), clamp(1, 5, 4))").unwrap();
    assert!(n.evaluate().unwrap().is_number());
    assert!(!n.evaluate().unwrap().is_length());
    assert_eq!(resolve_number(&n), Ok(2.0));
}

#[test]
fn calculations_group_to_the_left() {
    let n = parse_calc("2 - 3 - 4 / 5 / 6").unwrap();
    let m = parse_calc("(2 - 3) - ((4 / 5) / 6)").unwrap();
    assert_eq!(n, m);
    assert_eq!(parse_calc("calc(1px)").unwrap(), parse_calc("(1px)").unwrap());
}

#[test]
fn lengths_come_to_pixels_and_percentages() {
    let n = parse_calc("2 * (50% - 3px)").unwrap();
    let two = || Box::new(Formula::Written(Literal { text: "2".to_owned() }));
    let three = Length { value: Literal { text: "3".to_owned() }, unit: LengthUnit::Px };
    let fifty = Formula::Written(Literal { text: "50".to_owned() });
    assert_eq!(
        n.evaluate(),
        Ok(CalcResult::Length {
            px: Formula::Product(
                Box::new(Formula::Sum(
                    Box::new(Formula::Zero),
                    Box::new(Formula::Negated(Box::new(Formula::Pixels(three))))
                )),
                two()
            ),
            percent: Formula::Product(
                Box::new(Formula::Sum(
                    Box::new(fifty),
                    Box::new(Formula::Negated(Box::new(Formula::Zero)))
                )),
                two()
            ),
        })
    );
    assert_eq!(resolve_length(&n), Ok(394.0));
    assert!(n.evaluate().unwrap().is_length());
}

#[test]
fn arguments_are_compared_in_pixels() {
    let n = parse_calc("2 * min(10% + 1px, 5px, max(1px, 2px))").unwrap();
    assert_eq!(resolve_length(&n), Ok(4.0));
    assert_eq!(
        n.evaluate().unwrap().number(),
        Err(CalcError::TypeMismatch { wanted: "number", got: "length" })
    );
    assert_eq!(
        parse_calc("min(1px, 2 + 1px)").unwrap().evaluate(),
        Err(CalcError::TypeMismatch {
            wanted: "homogeneous operands",
            got: "number + length mix"
        })
    );
    assert!(matches!(
        parse_calc("clamp(1px, 50%, 3em)").unwrap().evaluate(),
        Ok(CalcResult::Length { px: Formula::Clamped(..), percent: Formula::Zero })
    ));
}
