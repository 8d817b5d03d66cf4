use skia_safe::font_metrics::Flags;
use skia_safe::font_metrics::FontMetrics;
use skia_safe::font_metrics::STRIKEOUT_POSITION_IS_VALID;
use skia_safe::font_metrics::UNDERLINE_THICKNESS_IS_VALID;
use skia_safe::point::IPoint;
use skia_safe::point::Point;
use skia_safe::rect::Rect;
use skia_safe::size::ISize;
use skia_safe::size::Size;

#[test]
fn ipoint_basics() {
    let mut p = IPoint::new(3, 4);
    assert!(!p.is_zero());
    assert!(p.equals(3, 4));
    assert!(!p.equals(4, 3));
    p.set(0, 0);
    assert!(p.is_zero());
}

#[test]
fn point_arithmetic() {
    let mut p = Point::new(1, 2);
    p.offset(Point::new(10, 20));
    assert_eq!(p, Point::new(11, 22));
    p.iset(IPoint::new(-5, 6));
    assert_eq!(p, Point::new(-5, 6));
    p.set_abs(Point::new(-7, -8));
    assert_eq!(p, Point::new(7, 8));
    p.negate();
    assert_eq!(p, Point::new(-7, -8));
    let mut q = Point::new(2, 3);
    q.scale(4);
    assert_eq!(q, Point::new(8, 12));
    assert!(Point::new(0, 0).is_zero());
    assert!(Point::new(5, 5).is_finite());
    assert_eq!(Point::dot_product(Point::new(1, 2), Point::new(3, 4)), 11);
    assert_eq!(Point::cross_product(Point::new(1, 2), Point::new(3, 4)), -2);
    assert_eq!(Point::new(1, 2).dot(Point::new(3, 4)), 11);
    assert_eq!(Point::new(1, 2).cross(Point::new(3, 4)), -2);
}

#[test]
fn lengths_take_the_integer_root() {
    assert_eq!(Point::new(3, 4).length(), 5);
    assert_eq!(Point::new(3, 4).distance_to_origin(), 5);
    assert_eq!(Point::length_xy(6, 8), 10);
    assert_eq!(Point::distance(Point::new(1, 1), Point::new(4, 5)), 5);
    assert_eq!(Point::new(1, 1).length(), 1);
    assert_eq!(Point::new(0, 0).length(), 0);
}

#[test]
fn offset_points_moves_every_point() {
    let mut points = vec![Point::new(0, 0), Point::new(1, 1), Point::new(2, -2)];
    Point::offset_points(&mut points, Point::new(10, 100));
    assert_eq!(
        points,
        vec![Point::new(10, 100), Point::new(11, 101), Point::new(12, 98)]
    );
}

#[test]
fn sizes_report_emptiness() {
    let mut s = ISize::new(3, 4);
    assert!(!s.is_empty());
    assert!(!s.is_zero());
    assert!(s.equals(3, 4));
    s.set_empty();
    assert!(s.is_zero());
    assert!(s.is_empty());
    assert!(ISize::new(-1, 5).is_empty());
    assert!(ISize::new_empty().is_zero());
    let mut f = Size::new(3, 4);
    assert!(!f.is_empty());
    f.set(0, 7);
    assert!(f.is_empty());
    assert!(!f.is_zero());
    assert!(Size::new_empty().is_zero());
    assert!(Size::from_isize(ISize::new(2, 3)).equals(2, 3));
    assert_eq!(Size::new(5, 6).to_round(), ISize::new(5, 6));
    assert_eq!(Size::new(5, 6).to_ceil(), ISize::new(5, 6));
    assert_eq!(Size::new(5, 6).to_floor(), ISize::new(5, 6));
}

#[test]
fn rect_measures() {
    let r = Rect::from_size(ISize::new(20, 10));
    assert_eq!(r.width(), 20);
    assert_eq!(r.height(), 10);
    assert!(!r.is_empty());
    assert!(Rect::new_empty().is_empty());
}

#[test]
fn metric_validity_is_gated_by_flags() {
    let mut m = FontMetrics {
        flags: Flags { bits: UNDERLINE_THICKNESS_IS_VALID },
        top: -10,
        ascent: -9,
        descent: 3,
        bottom: 4,
        leading: 1,
        avg_char_width: 6,
        max_char_width: 8,
        x_min: 0,
        x_max: 8,
        x_height: 5,
        cap_height: 7,
        underline_thickness: 1,
        underline_position: 2,
        strikeout_thickness: 1,
        strikeout_position: -5,
    };
    assert_eq!(m.underline_thickness(), Some(1));
    assert_eq!(m.underline_position(), None);
    assert_eq!(m.strikeout_thickness(), None);
    assert_eq!(m.strikeout_position(), None);
    m.flags = Flags { bits: UNDERLINE_THICKNESS_IS_VALID | STRIKEOUT_POSITION_IS_VALID };
    assert_eq!(m.strikeout_position(), Some(-5));
    assert_eq!(m.if_valid(STRIKEOUT_POSITION_IS_VALID, 9), Some(9));
    assert_eq!(m.if_valid(0x80, 9), None);
}

#[test]
fn ipoint_arithmetic() {
    let mut p = IPoint::new(3, 4);
    p.offset(IPoint::new(10, -1));
    assert_eq!(p, IPoint::new(13, 3));
    p.offset(IPoint::new(-13, -3));
    assert!(p.is_zero());
    let mut q = IPoint::new(5, -6);
    q.negate();
    assert_eq!(q, IPoint::new(-5, 6));
}
