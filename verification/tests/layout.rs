use vixen_engine::box_model::{
    plan_resolution, BoxSizing, ContentHeight, ContentWidth, Resolution, SpareSpace,
};
use vixen_engine::color::Color;
use vixen_engine::conic_gradient::solid_color;

#[test]
fn open_lengths_of_a_box() {
    assert_eq!(
        plan_resolution(BoxSizing::ContentBox, true, true, true, true),
        Resolution {
            content: ContentWidth::Leftover,
            height: ContentHeight::Open,
            spare: SpareSpace::Dropped,
        }
    );
    assert_eq!(
        plan_resolution(BoxSizing::BorderBox, false, false, false, false),
        Resolution {
            content: ContentWidth::DeclaredWithoutFrame,
            height: ContentHeight::DeclaredWithoutFrame,
            spare: SpareSpace::Dropped,
        }
    );
    assert_eq!(
        plan_resolution(BoxSizing::default(), false, false, true, true),
        Resolution {
            content: ContentWidth::Declared,
            height: ContentHeight::Declared,
            spare: SpareSpace::Split,
        }
    );
    assert_eq!(
        plan_resolution(BoxSizing::ContentBox, false, true, true, false).spare,
        SpareSpace::ToLeft
    );
    assert_eq!(
        plan_resolution(BoxSizing::ContentBox, false, true, false, true).spare,
        SpareSpace::ToRight
    );
}

#[test]
fn sample_returns_transparent_for_empty_stops() {
    assert_eq!(solid_color(&[]), Some(Color::transparent()));
}

#[test]
fn sample_single_stop_is_solid_colour() {
    assert_eq!(solid_color(&[Color::rgb(255, 0, 0)]), Some(Color::rgb(255, 0, 0)));
}

#[test]
fn two_stops_are_no_solid_colour() {
    assert_eq!(solid_color(&[Color::black(), Color::white()]), None);
}
