use vixen_engine::blend::{BlendMode, CompositingOperator, Factor};

const MODES: [BlendMode; 16] = [
    BlendMode::Normal,
    BlendMode::Multiply,
    BlendMode::Screen,
    BlendMode::Overlay,
    BlendMode::Darken,
    BlendMode::Lighten,
    BlendMode::ColorDodge,
    BlendMode::ColorBurn,
    BlendMode::HardLight,
    BlendMode::SoftLight,
    BlendMode::Difference,
    BlendMode::Exclusion,
    BlendMode::Hue,
    BlendMode::Saturation,
    BlendMode::Color,
    BlendMode::Luminosity,
];

#[test]
fn blend_mode_keyword_round_trip() {
    for m in MODES {
        assert_eq!(BlendMode::parse(m.keyword()), Some(m));
    }
}

#[test]
fn blend_mode_parse_case_insensitive() {
    assert_eq!(BlendMode::parse("MULTIPLY"), Some(BlendMode::Multiply));
    assert_eq!(BlendMode::parse("  Color-Dodge  "), Some(BlendMode::ColorDodge));
}

#[test]
fn blend_mode_parse_unknown_fails_closed() {
    assert_eq!(BlendMode::parse("burn"), None);
    assert_eq!(BlendMode::parse(""), None);
    assert_eq!(BlendMode::parse("vivid-light"), None);
}

#[test]
fn default_compositing_operator_is_source_over() {
    assert_eq!(CompositingOperator::default(), CompositingOperator::SourceOver);
}

#[test]
fn default_blend_mode_is_normal() {
    assert_eq!(BlendMode::default(), BlendMode::Normal);
}

#[test]
fn twelve_modes_are_separable() {
    assert_eq!(MODES.iter().filter(|m| m.is_separable()).count(), 12);
    assert!(!BlendMode::Hue.is_separable());
    assert!(BlendMode::Exclusion.is_separable());
}

#[test]
fn factors_of_operators() {
    assert_eq!(CompositingOperator::Clear.factors(), (Factor::Zero, Factor::Zero));
    assert_eq!(CompositingOperator::Copy.factors(), (Factor::One, Factor::Zero));
    assert_eq!(
        CompositingOperator::SourceOver.factors(),
        (Factor::One, Factor::InverseSourceAlpha)
    );
    assert_eq!(
        CompositingOperator::DestinationAtop.factors(),
        (Factor::InverseBackdropAlpha, Factor::SourceAlpha)
    );
    assert_eq!(
        CompositingOperator::Xor.factors(),
        (Factor::InverseBackdropAlpha, Factor::InverseSourceAlpha)
    );
}
