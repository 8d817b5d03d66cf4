use skia_safe::effects::blur_image_filter::TileMode;
use skia_safe::effects::drop_shadow_image_filter::ShadowMode;
use skia_safe::font::Edging;
use skia_safe::font_arguments::Coordinate;
use skia_safe::font_arguments::FontArguments;
use skia_safe::font_arguments::VariationPosition;
use skia_safe::font_metrics::FontMetrics;
use skia_safe::layout::layout_eq;
use skia_safe::layout::NativeTransmutable;
use skia_safe::layout::TypeLayout;
use skia_safe::native;
use skia_safe::path_effect::PointData;
use skia_safe::point::IPoint;
use skia_safe::point::Point;
use skia_safe::point::Vector;
use skia_safe::rect::Rect;
use skia_safe::size::ISize;
use skia_safe::size::Size;
use skia_safe::utils::interpolator::InterpolatorResult;

#[test]
fn test_ipoint_layout() {
    IPoint::test_layout()
}

#[test]
fn test_point_layout() {
    Point::test_layout()
}

#[test]
fn test_isize_layout() {
    ISize::test_layout()
}

#[test]
fn test_size_layout() {
    Size::test_layout()
}

#[test]
fn test_font_metrics_layout() {
    FontMetrics::test_layout();
}

#[test]
fn test_font_edging_layout() {
    Edging::test_layout()
}

#[test]
fn test_coordinate_layout() {
    Coordinate::test_layout()
}

#[test]
fn test_font_arguments_layout() {
    FontArguments::test_layout()
}

#[test]
fn test_point_data_layout() {
    Point::test_layout();
    Vector::test_layout();
    Rect::test_layout();
    PointData::test_layout();
}

#[test]
fn test_tile_mode_layout() {
    TileMode::test_layout();
}

#[test]
fn test_shadow_mode_layout() {
    ShadowMode::test_layout();
}

#[test]
fn test_interpolator_result_layout() {
    InterpolatorResult::test_layout();
}

#[test]
fn layout_eq_detects_divergence() {
    let a = TypeLayout::packed_record(2, 4);
    let b = TypeLayout::packed_record(2, 8);
    assert!(!layout_eq(&a, &b));
    let c = TypeLayout::packed_record(3, 4);
    assert!(!layout_eq(&a, &c));
    let d = native::ipoint_layout();
    assert!(layout_eq(&a, &d));
}

#[test]
fn casts_preserve_fields() {
    let native_point = native::NativeIPoint { x: 7, y: -3 };
    let p = IPoint::from_native(native_point);
    assert_eq!(p.x, 7);
    assert_eq!(p.y, -3);
    let mut q = p;
    q.x = 11;
    let back = q.into_native();
    assert_eq!(back.x, 11);
    assert_eq!(back.y, -3);
}

#[test]
fn test_font_arguments_with_no_coordinates() {
    let fa = FontArguments::new();
    let coordinates = fa.variation_design_position();
    assert_eq!(coordinates.coordinates.len(), 0);
}

#[test]
fn access_coordinates() {
    let coordinates = vec![Coordinate { axis: 0, value: 1 }];
    let args = FontArguments::new();
    let args = args.set_variation_design_position(VariationPosition {
        coordinates: &coordinates,
    });
    assert_eq!(args.variation_design_position().coordinates[0].value, 1);
    drop(args);
}

#[test]
fn create_and_drop_point_data() {
    let data = PointData::default();
    drop(data)
}
