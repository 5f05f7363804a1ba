use vixen_engine::clip_path::{
    expand_trbl, parse_clip_path, BorderRadius, ClipPath, Coord, Crossing, FillRule, GeometryBox,
    Point,
};
use vixen_engine::number::Literal;

fn px(l: &Literal) -> f32 {
    l.text.parse().unwrap()
}

fn percent(c: &Coord) -> f32 {
    match c {
        Coord::Percent(l) => px(l) / 100.0,
        _ => panic!("expected a percentage"),
    }
}

#[test]
fn geometry_box_parse() {
    assert_eq!(GeometryBox::parse("border-box"), Some(GeometryBox::BorderBox));
    assert_eq!(GeometryBox::parse("Content-Box"), Some(GeometryBox::ContentBox));
    assert_eq!(GeometryBox::parse("view-box"), Some(GeometryBox::ViewBox));
    assert_eq!(GeometryBox::parse("garbage"), None);
}

#[test]
fn geometry_box_default_is_border_box() {
    assert_eq!(GeometryBox::default(), GeometryBox::BorderBox);
}

#[test]
fn fill_rule_parse() {
    assert_eq!(FillRule::parse("nonzero"), Some(FillRule::NonZero));
    assert_eq!(FillRule::parse("evenodd"), Some(FillRule::EvenOdd));
    assert_eq!(FillRule::parse("inherit"), None);
    assert_eq!(FillRule::default(), FillRule::NonZero);
}

#[test]
fn parse_inset_simple() {
    let clip = parse_clip_path("inset(10px)").unwrap();
    if let ClipPath::Inset { top, right, bottom, left, radius } = clip {
        assert_eq!((px(&top), px(&right), px(&bottom), px(&left)), (10.0, 10.0, 10.0, 10.0));
        assert_eq!(radius, BorderRadius::zero());
    } else {
        panic!("expected Inset");
    }
}

#[test]
fn parse_inset_trbl_expansion() {
    let clip = parse_clip_path("inset(10px 20px 30px 40px)").unwrap();
    if let ClipPath::Inset { top, right, bottom, left, .. } = clip {
        assert_eq!((px(&top), px(&right), px(&bottom), px(&left)), (10.0, 20.0, 30.0, 40.0));
    } else {
        panic!("expected Inset");
    }
}

#[test]
fn parse_inset_radii() {
    let clip = parse_clip_path("INSET(0 Round 20px 5px / 1px 2px 3px)").unwrap();
    if let ClipPath::Inset { radius, .. } = clip {
        assert_eq!((px(&radius.top_left.h), px(&radius.top_left.v)), (20.0, 1.0));
        assert_eq!((px(&radius.top_right.h), px(&radius.top_right.v)), (5.0, 2.0));
        assert_eq!((px(&radius.bottom_right.h), px(&radius.bottom_right.v)), (20.0, 3.0));
        assert_eq!((px(&radius.bottom_left.h), px(&radius.bottom_left.v)), (5.0, 2.0));
    } else {
        panic!("expected Inset");
    }
    let clip = parse_clip_path("inset(0 round x)").unwrap();
    if let ClipPath::Inset { radius, .. } = clip {
        assert_eq!(radius, BorderRadius::zero());
    }
    assert!(parse_clip_path("inset()").is_none());
    assert!(parse_clip_path("inset(1px y)").is_none());
}

#[test]
fn parse_circle_default() {
    let clip = parse_clip_path("circle()").unwrap();
    if let ClipPath::Circle { radius, cx, cy } = clip {
        assert!(radius.is_none());
        assert_eq!(cx, Coord::Center);
        assert_eq!(cy, Coord::Center);
    } else {
        panic!("expected Circle");
    }
}

#[test]
fn parse_circle_radius_and_position() {
    let clip = parse_clip_path("circle(50px at 25% 75%)").unwrap();
    if let ClipPath::Circle { radius, cx, cy } = clip {
        assert_eq!(px(&radius.unwrap()), 50.0);
        assert_eq!(percent(&cx), 0.25);
        assert_eq!(percent(&cy), 0.75);
    } else {
        panic!("expected Circle");
    }
}

#[test]
fn parse_circle_position_alone() {
    let clip = parse_clip_path("circle(at 25% bottom)").unwrap();
    if let ClipPath::Circle { radius, cx, cy } = clip {
        assert!(radius.is_none());
        assert_eq!(percent(&cx), 0.25);
        assert_eq!(cy, Coord::End);
    } else {
        panic!("expected Circle");
    }
    let clip = parse_clip_path("circle(closest-side At Left) border-box").unwrap();
    if let ClipPath::Circle { radius, cx, cy } = clip {
        assert!(radius.is_none());
        assert_eq!((cx, cy), (Coord::Start, Coord::Center));
    }
    let clip = parse_clip_path("circle(1px at 1 2 3)").unwrap();
    if let ClipPath::Circle { cx, cy, .. } = clip {
        assert_eq!((cx, cy), (Coord::Center, Coord::Center));
    }
}

#[test]
fn parse_ellipse() {
    let clip = parse_clip_path("ellipse(50px 25px at center)").unwrap();
    if let ClipPath::Ellipse { rx, ry, .. } = clip {
        assert_eq!(px(&rx.unwrap()), 50.0);
        assert_eq!(px(&ry.unwrap()), 25.0);
    } else {
        panic!("expected Ellipse");
    }
}

#[test]
fn parse_ellipse_radii_left_out() {
    if let Some(ClipPath::Ellipse { rx, ry, cx, .. }) = parse_clip_path("ellipse(at 7px)") {
        assert!(rx.is_none() && ry.is_none());
        assert_eq!(cx, Coord::Px(Literal { text: "7".to_owned() }));
    } else {
        panic!("expected Ellipse");
    }
    if let Some(ClipPath::Ellipse { rx, ry, .. }) = parse_clip_path("ellipse(3)") {
        assert_eq!((px(&rx.unwrap()), px(&ry.unwrap())), (3.0, 0.0));
    } else {
        panic!("expected Ellipse");
    }
    assert!(parse_clip_path("ellipse(wide 3px)").is_none());
}

#[test]
fn parse_polygon_triangle() {
    let clip = parse_clip_path("polygon(0 0, 100 0, 50 100)").unwrap();
    if let ClipPath::Polygon { points, fill_rule } = clip {
        let points: Vec<(f32, f32)> = points.iter().map(|p| (px(&p.x), px(&p.y))).collect();
        assert_eq!(points, vec![(0.0, 0.0), (100.0, 0.0), (50.0, 100.0)]);
        assert_eq!(fill_rule, FillRule::NonZero);
    } else {
        panic!("expected Polygon");
    }
}

#[test]
fn parse_polygon_with_fill_rule() {
    let clip = parse_clip_path("polygon(evenodd, 0 0, 100 0, 100 100, 0 100)").unwrap();
    if let ClipPath::Polygon { fill_rule, .. } = clip {
        assert_eq!(fill_rule, FillRule::EvenOdd);
    } else {
        panic!("expected Polygon");
    }
}

#[test]
fn parse_polygon_edge_cases() {
    assert!(parse_clip_path("polygon(evenodd 0 0 1 1 2 2)").is_none());
    assert!(parse_clip_path("polygon(oddly, 0 0 1 1 2 2)").is_none());
    if let Some(ClipPath::Polygon { points, fill_rule }) =
        parse_clip_path("Polygon(NonZero ,0,0 1px,1% 2 2,9)")
    {
        assert_eq!(points.len(), 3);
        assert_eq!(fill_rule, FillRule::NonZero);
    } else {
        panic!("expected Polygon");
    }
}

#[test]
fn parse_none_case_insensitive() {
    assert!(matches!(parse_clip_path("NONE"), Some(ClipPath::Unclipped)));
    assert!(matches!(parse_clip_path(" None "), Some(ClipPath::Unclipped)));
}

#[test]
fn parse_unknown_returns_none() {
    assert!(parse_clip_path("url(#clip)").is_none());
    assert!(parse_clip_path("path('M 0 0 L 100 100')").is_none());
    assert!(parse_clip_path("garbage").is_none());
}

#[test]
fn parse_polygon_too_few_points_returns_none() {
    assert!(parse_clip_path("polygon(0 0, 50 50)").is_none());
}

#[test]
fn expand_trbl_variants() {
    assert_eq!(expand_trbl(&[10.0]), Some((10.0, 10.0, 10.0, 10.0)));
    assert_eq!(expand_trbl(&[10.0, 20.0]), Some((10.0, 20.0, 10.0, 20.0)));
    assert_eq!(expand_trbl(&[10.0, 20.0, 30.0]), Some((10.0, 20.0, 30.0, 20.0)));
    assert_eq!(expand_trbl(&[10.0, 20.0, 30.0, 40.0]), Some((10.0, 20.0, 30.0, 40.0)));
    assert_eq!(expand_trbl::<f32>(&[]), None);
}

#[test]
fn rules_count_crossings() {
    let two = [Crossing::Upward, Crossing::Missed, Crossing::Upward];
    assert!(FillRule::NonZero.is_inside(&two));
    assert!(!FillRule::EvenOdd.is_inside(&two));
    let back = [Crossing::Upward, Crossing::Downward];
    assert!(!FillRule::NonZero.is_inside(&back));
    assert!(!FillRule::EvenOdd.is_inside(&back));
    let one = [Crossing::Downward];
    assert!(FillRule::NonZero.is_inside(&one));
    assert!(FillRule::EvenOdd.is_inside(&one));
}

/// How the ray to the right of a point meets the edges of a polygon.
fn crossings(px_: f32, py: f32, points: &[Point]) -> Vec<Crossing> {
    let mut edges = Vec::new();
    for i in 0..points.len() {
        let j = (i + points.len() - 1) % points.len();
        let (xi, yi) = (px(&points[i].x), px(&points[i].y));
        let (xj, yj) = (px(&points[j].x), px(&points[j].y));
        let meets = (yi > py) != (yj > py) && px_ < xi + (py - yi) / (yj - yi) * (xj - xi);
        edges.push(match (meets, yi < yj) {
            (false, _) => Crossing::Missed,
            (true, true) => Crossing::Upward,
            (true, false) => Crossing::Downward,
        });
    }
    edges
}

fn polygon_contains(value: &str, x: f32, y: f32) -> bool {
    match parse_clip_path(value) {
        Some(ClipPath::Polygon { points, fill_rule }) => {
            fill_rule.is_inside(&crossings(x, y, &points))
        }
        _ => panic!("expected Polygon"),
    }
}

#[test]
fn polygon_contains_centroid() {
    let clip = "polygon(0 0, 100 0, 100 100, 0 100)";
    assert!(polygon_contains(clip, 50.0, 50.0));
    assert!(!polygon_contains(clip, 150.0, 50.0));
}

#[test]
fn polygon_evenodd_hole() {
    let clip = "polygon(evenodd, 0 0, 100 0, 100 100, 0 100, 25 25, 75 25, 75 75, 25 75)";
    assert!(!polygon_contains(clip, -10.0, 50.0));
    assert!(!polygon_contains(clip, 50.0, 50.0));
    assert!(polygon_contains(clip, 10.0, 10.0));
}

#[test]
fn polygon_nonzero_hole_filled() {
    let clip = "polygon(nonzero, 0 0, 100 0, 100 100, 0 100, 25 25, 75 25, 75 75, 25 75)";
    assert!(polygon_contains(clip, 50.0, 50.0));
}

#[test]
fn shapes_are_found_by_name_in_any_case() {
    for value in ["circle(5px)", "CIRCLE(5px)", " Circle(5px) "] {
        assert!(matches!(
            parse_clip_path(value),
            Some(ClipPath::Circle { radius: Some(radius), .. }) if px(&radius) == 5.0
        ));
    }
    assert!(parse_clip_path("circles(5px)").is_none());
}
