use vixen_engine::animation::{
    compute_sampling, phase, EffectPhase, Fill, PlaybackDirection, Sampling,
};

#[test]
fn parse_fill_and_direction() {
    assert_eq!(Fill::parse("forwards"), Some(Fill::Forwards));
    assert_eq!(Fill::parse("BOTH"), Some(Fill::Both));
    assert_eq!(Fill::parse("auto"), None);
    assert_eq!(PlaybackDirection::parse("alternate"), Some(PlaybackDirection::Alternate));
    assert_eq!(
        PlaybackDirection::parse("alternate-reverse"),
        Some(PlaybackDirection::AlternateReverse)
    );
    assert_eq!(PlaybackDirection::parse("sideways"), None);
}

#[test]
fn fill_applies_predicates() {
    assert!(Fill::Backwards.applies_before());
    assert!(Fill::Both.applies_after());
    assert!(!Fill::Neither.applies_before());
    assert!(!Fill::Forwards.applies_before());
}

#[test]
fn phases_of_an_effect() {
    assert_eq!(phase(true, false, false), EffectPhase::Before);
    assert_eq!(phase(true, false, true), EffectPhase::Before);
    assert_eq!(phase(false, false, false), EffectPhase::Active);
    assert_eq!(phase(false, false, true), EffectPhase::After);
    assert_eq!(phase(false, true, true), EffectPhase::Active);
}

#[test]
fn directions_of_iterations() {
    assert!(!PlaybackDirection::Normal.is_reversed(1));
    assert!(PlaybackDirection::Reverse.is_reversed(0));
    assert!(!PlaybackDirection::Alternate.is_reversed(0));
    assert!(PlaybackDirection::Alternate.is_reversed(1));
    assert!(!PlaybackDirection::Alternate.is_reversed(2));
    assert!(PlaybackDirection::AlternateReverse.is_reversed(0));
    assert!(!PlaybackDirection::AlternateReverse.is_reversed(1));
}

#[test]
fn samplings_by_phase_and_fill() {
    let n = PlaybackDirection::Normal;
    assert_eq!(compute_sampling(EffectPhase::Before, Fill::Neither, n, 0), None);
    assert_eq!(
        compute_sampling(EffectPhase::Before, Fill::Backwards, n, 7),
        Some(Sampling { at_start: true, reversed: false })
    );
    assert_eq!(
        compute_sampling(EffectPhase::Before, Fill::Both, PlaybackDirection::Reverse, 0),
        Some(Sampling { at_start: true, reversed: true })
    );
    assert_eq!(
        compute_sampling(EffectPhase::Active, Fill::Neither, n, 0),
        Some(Sampling { at_start: false, reversed: false })
    );
    assert_eq!(compute_sampling(EffectPhase::After, Fill::Backwards, n, 1), None);
    assert_eq!(
        compute_sampling(EffectPhase::After, Fill::Forwards, PlaybackDirection::Alternate, 1),
        Some(Sampling { at_start: false, reversed: true })
    );
}

#[test]
fn defaults_of_the_timing_model() {
    assert_eq!(Fill::default(), Fill::Neither);
    assert_eq!(PlaybackDirection::default(), PlaybackDirection::Normal);
    assert_eq!(Fill::parse(" None\t"), Some(Fill::Neither));
}
