use vixen_engine::angle::{Angle, AngleParseError, AngleUnit};

fn value(a: &Angle) -> f64 {
    a.value.text.parse().unwrap()
}

#[test]
fn parse_all_units() {
    for (s, unit) in [
        ("45deg", AngleUnit::Deg),
        ("1.5708rad", AngleUnit::Rad),
        ("100grad", AngleUnit::Grad),
        ("0.25turn", AngleUnit::Turn),
    ] {
        let a = Angle::parse(s).unwrap_or_else(|e| panic!("{s}: {e:?}"));
        assert_eq!(a.unit, unit, "unit for {s}");
    }
}

#[test]
fn parse_signed_and_exponent() {
    let a = Angle::parse("-45deg").unwrap();
    assert_eq!((value(&a), a.unit), (-45.0, AngleUnit::Deg));
    let a = Angle::parse("+1e2deg").unwrap();
    assert_eq!((value(&a), a.unit), (100.0, AngleUnit::Deg));
}

#[test]
fn parse_unitless_zero_only() {
    let a = Angle::parse("0").unwrap();
    assert_eq!((value(&a), a.unit), (0.0, AngleUnit::Deg));
    assert_eq!(Angle::parse("45").unwrap_err(), AngleParseError::MissingUnit);
}

#[test]
fn parse_trims_whitespace() {
    let a = Angle::parse("  45deg  ").unwrap();
    assert_eq!((value(&a), a.unit), (45.0, AngleUnit::Deg));
}

#[test]
fn parse_errors() {
    assert_eq!(Angle::parse("").unwrap_err(), AngleParseError::Empty);
    assert!(matches!(Angle::parse("deg").unwrap_err(), AngleParseError::InvalidNumber(_)));
    assert!(matches!(Angle::parse("45radx").unwrap_err(), AngleParseError::UnknownUnit(_)));
    assert!(matches!(Angle::parse("45DEG").unwrap_err(), AngleParseError::UnknownUnit(_)));
}

#[test]
fn suffixes_of_units() {
    assert_eq!(AngleUnit::Deg.suffix(), "deg");
    assert_eq!(AngleUnit::Rad.suffix(), "rad");
    assert_eq!(AngleUnit::Grad.suffix(), "grad");
    assert_eq!(AngleUnit::Turn.suffix(), "turn");
    for u in [AngleUnit::Deg, AngleUnit::Rad, AngleUnit::Grad, AngleUnit::Turn] {
        assert_eq!(Angle::parse(&format!("-.5e1{}", u.suffix())).unwrap().unit, u);
    }
}

#[test]
fn zero_angles_without_a_unit() {
    assert_eq!(Angle::parse("-0.00e7").unwrap().unit, AngleUnit::Deg);
    assert_eq!(Angle::parse("1e-400").unwrap().unit, AngleUnit::Deg);
    assert_eq!(Angle::parse("5e-324"), Err(AngleParseError::MissingUnit));
    assert_eq!(Angle::parse("2e-324").unwrap().unit, AngleUnit::Deg);
}

#[test]
fn numbers_that_are_none() {
    assert_eq!(Angle::parse("+deg"), Err(AngleParseError::InvalidNumber("+deg".to_owned())));
    assert_eq!(Angle::parse(".deg"), Err(AngleParseError::InvalidNumber(".".to_owned())));
    assert_eq!(Angle::parse("e5deg"), Err(AngleParseError::InvalidNumber("e5".to_owned())));
    assert_eq!(Angle::parse("1edeg"), Err(AngleParseError::UnknownUnit("edeg".to_owned())));
    assert_eq!(Angle::parse("1 deg"), Err(AngleParseError::UnknownUnit(" deg".to_owned())));
}
