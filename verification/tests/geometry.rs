use palantir::Colors;
use palantir::Edges;
use palantir::GridPosition;
use palantir::Px;
use palantir::Rgba;
use palantir::Size;
use palantir::pixels::nan_aware_eq;

fn px(x: f32) -> Px {
    Px::from_bits(x.to_bits())
}

#[test]
fn nan_equals_nan() {
    assert!(Edges::all(px(f32::NAN)) == Edges::all(px(f32::NAN)));
}

#[test]
fn nan_differs_from_zero() {
    assert!(Edges::all(px(f32::NAN)) != Edges::all(px(0.0)));
    assert!(Edges::all(px(0.0)) != Edges::all(px(f32::NAN)));
}

#[test]
fn eq_reflexive_on_finite_and_nan() {
    for v in [0.0f32, -0.0, 1.5, -7.25, f32::NAN, 3.4e38, 1e-40] {
        assert!(Edges::all(px(v)) == Edges::all(px(v)));
        assert!(Size::Fixed(px(v)) == Size::Fixed(px(v)));
        assert!(nan_aware_eq(px(v), px(v)));
    }
}

#[test]
fn eq_symmetric() {
    let pairs = [
        (0.0f32, f32::NAN),
        (1.0, 1.5),
        (2.0, 2.0),
        (f32::NAN, f32::NAN),
        (f32::INFINITY, f32::INFINITY),
        (1e-8, 2e-8),
    ];
    for (a, b) in pairs {
        assert_eq!(nan_aware_eq(px(a), px(b)), nan_aware_eq(px(b), px(a)));
    }
}

#[test]
fn infinity_never_equal() {
    // The comparator subtracts, and infinity minus infinity is not a number:
    // an infinity does not compare equal even to itself.
    assert!(Size::Fixed(px(f32::INFINITY)) != Size::Fixed(px(f32::INFINITY)));
    assert!(Size::Fixed(px(f32::INFINITY)) != Size::Fixed(px(1.0)));
    assert!(Size::Fixed(px(f32::NEG_INFINITY)) != Size::Fixed(px(f32::NEG_INFINITY)));
}

#[test]
fn eq_is_approximate_below_epsilon() {
    // Distinct bit patterns closer than the machine epsilon compare equal.
    assert_ne!(px(1e-8).to_bits(), px(2e-8).to_bits());
    assert!(Size::Fixed(px(1e-8)) == Size::Fixed(px(2e-8)));
    // A difference of exactly the machine epsilon is not below it.
    assert!(Size::Fixed(px(0.0)) != Size::Fixed(px(f32::EPSILON)));
    assert!(Size::Fixed(px(1.0)) != Size::Fixed(px(1.5)));
    // The sign of zero does not matter.
    assert!(Size::Fixed(px(0.0)) == Size::Fixed(px(-0.0)));
}

#[test]
fn auto_equals_only_auto() {
    assert!(Size::Auto == Size::Auto);
    assert!(Size::Auto != Size::Fixed(px(0.0)));
    assert!(Size::Fixed(px(0.0)) != Size::Auto);
}

#[test]
fn edges_conversion_round_trip() {
    assert!(
        Edges::from(px(5.0)) == Edges {
            top: px(5.0),
            right: px(5.0),
            bottom: px(5.0),
            left: px(5.0),
        }
    );
    assert!(Edges::from((3u32, 7u32)) == Edges::horizontal_vertical(px(3.0), px(7.0)));
    assert!(
        Edges::from((1u32, 2u32, 3u32, 4u32)) == Edges {
            top: px(1.0),
            right: px(2.0),
            bottom: px(3.0),
            left: px(4.0),
        }
    );
    assert!(Edges::from(5u32) == Edges::all(px(5.0)));
    assert!(Edges::from((1i32, 2i32, 3i32, 4i32)) == Edges::from((1u32, 2u32, 3u32, 4u32)));
}

#[test]
fn whole_number_conversion_is_exact() {
    for v in [0u32, 1, 2, 3, 7, 10, 100, 255, 4096, 16777215, 16777216] {
        let e = Edges::from(v);
        assert_eq!(e.top.to_bits(), (v as f32).to_bits());
    }
    for v in [-1i32, -2, -100, 5, -16777216, i32::MIN] {
        let e = Edges::from(v);
        assert_eq!(e.left.to_bits(), (v as f32).to_bits());
    }
}

#[test]
fn large_conversion_rounds_to_nearest_even() {
    for v in [
        16777217u32,
        16777219,
        16777221,
        33554430,
        2147483647,
        4294967295,
        3000000001,
        100000001,
    ] {
        let s = Size::from(v);
        match s {
            Size::Fixed(p) => assert_eq!(p.to_bits(), (v as f32).to_bits()),
            Size::Auto => panic!("a whole number converts to a fixed size"),
        }
    }
}

#[test]
fn grid_position_defaults() {
    let p = GridPosition::from((2u32, 3u32));
    assert_eq!(p.row, 2);
    assert_eq!(p.column, 3);
    assert_eq!(p.row_span, 1);
    assert_eq!(p.column_span, 1);
    assert_eq!(GridPosition::from_row_col(2, 3), p);
    assert_eq!(GridPosition::default(), GridPosition::from((0u32, 0u32)));
    let q = GridPosition::from_row_col(1, 1).row_span(4).column_span(5);
    assert_eq!(q, GridPosition::from((1u32, 1u32, 4u32, 5u32)));
}

#[test]
fn palette_constants() {
    let w = Colors::WHITE();
    assert_eq!((w.r, w.g, w.b, w.a), (255, 255, 255, 255));
    let t = Colors::TRANSPARENT();
    assert_eq!((t.r, t.g, t.b, t.a), (0, 0, 0, 0));
    assert_eq!(Colors::BLACK(), Rgba::new(0, 0, 0, 255));
    assert_eq!(Colors::RED(), Rgba::new(255, 0, 0, 255));
    assert_eq!(Colors::GREEN(), Rgba::new(0, 255, 0, 255));
    assert_eq!(Colors::BLUE(), Rgba::new(0, 0, 255, 255));
}

#[test]
fn px_nan_detection() {
    assert!(px(f32::NAN).is_nan());
    assert!(!px(1.0).is_nan());
    assert!(!px(f32::INFINITY).is_nan());
    assert_eq!(px(2.5).to_bits(), 2.5f32.to_bits());
    assert_eq!(Px::from_bits(0x40000000).to_bits(), 2.0f32.to_bits());
}
