use skia_safe::effects::blur_image_filter;
use skia_safe::effects::blur_image_filter::TileMode;
use skia_safe::effects::drop_shadow_image_filter;
use skia_safe::effects::drop_shadow_image_filter::ShadowMode;
use skia_safe::effects::lighting_image_filter::distant_lit_diffuse;
use skia_safe::effects::lighting_image_filter::spot_lit_specular;
use skia_safe::effects::perlin_noise_shader::fractal_noise;
use skia_safe::effects::perlin_noise_shader::improved_noise;
use skia_safe::effects::perlin_noise_shader::turbulence;
use skia_safe::engine::Engine;
use skia_safe::handles::RCHandle;
use skia_safe::image_filter::ImageFilter;
use skia_safe::native::ImageFilterKind;
use skia_safe::native::NativeImageFilter;
use skia_safe::point::Point3;
use skia_safe::shader::Shader;
use skia_safe::size::ISize;

fn base_filter(e: &mut Engine<NativeImageFilter>) -> ImageFilter {
    let p = e.allocate(skia_safe::native::make_blank_image_filter(ImageFilterKind::Blur));
    RCHandle::from_ptr(p, e).unwrap()
}

#[test]
fn blur_accepts_non_negative_sigma() {
    let mut e = Engine::new();
    let input = base_filter(&mut e);
    let blur = blur_image_filter::new((2, 3), &input, None, Some(TileMode::Repeat), &mut e);
    let blur = blur.unwrap();
    let value = e.get(blur.ptr);
    assert_eq!(value.s0, 2);
    assert_eq!(value.s1, 3);
    assert_eq!(value.mode, 1);
    assert_eq!(value.input, input.ptr);
}

#[test]
fn blur_rejects_negative_sigma() {
    let mut e = Engine::new();
    let input = base_filter(&mut e);
    assert!(blur_image_filter::new((-1, 3), &input, None, None, &mut e).is_none());
    assert!(input.blur(None, (2, -2), None, &mut e).is_none());
}

#[test]
fn drop_shadow_records_its_arguments() {
    let mut e = Engine::new();
    let input = base_filter(&mut e);
    let shadow = drop_shadow_image_filter::new(
        skia_safe::point::Vector::new(4, 5),
        (1, 1),
        0xff112233,
        ShadowMode::DrawShadowOnly,
        &input,
        None,
        &mut e,
    )
    .unwrap();
    let value = e.get(shadow.ptr);
    assert_eq!(value.s0, 4);
    assert_eq!(value.s1, 5);
    assert_eq!(value.color, 0xff112233);
    assert_eq!(value.mode, 1);
    assert!(drop_shadow_image_filter::new(
        skia_safe::point::Vector::new(0, 0),
        (-1, 0),
        0,
        ShadowMode::DrawShadowAndForeground,
        &input,
        None,
        &mut e,
    )
    .is_none());
}

#[test]
fn lighting_requires_positive_coefficients() {
    let mut e = Engine::new();
    let input = base_filter(&mut e);
    let lit = distant_lit_diffuse(Point3::new(0, 0, 1), 0xffffffff, 1, 2, &input, None, &mut e);
    assert!(lit.is_some());
    assert!(distant_lit_diffuse(Point3::new(0, 0, 1), 0, 1, 0, &input, None, &mut e).is_none());
    let spot = spot_lit_specular(
        Point3::new(0, 0, 9),
        Point3::new(1, 1, 0),
        2,
        45,
        0xffffffff,
        1,
        3,
        4,
        &input,
        None,
        &mut e,
    )
    .unwrap();
    let value = e.get(spot.ptr);
    assert_eq!(value.s3, 3);
    assert_eq!(value.s4, 4);
    assert!(spot_lit_specular(
        Point3::new(0, 0, 9),
        Point3::new(1, 1, 0),
        2,
        45,
        0xffffffff,
        1,
        3,
        0,
        &input,
        None,
        &mut e,
    )
    .is_none());
}

#[test]
fn lighting_methods_mirror_the_factories() {
    let mut e = Engine::new();
    let input = base_filter(&mut e);
    assert!(input
        .distant_lit_diffuse_lighting(None, Point3::new(0, 0, 1), 0, 1, 5, &mut e)
        .is_some());
    assert!(input
        .point_lit_diffuse_lighting(None, Point3::new(0, 0, 1), 0, 1, 0, &mut e)
        .is_none());
    assert!(input
        .spot_lit_diffuse_lighting(None, Point3::new(0, 0, 1), Point3::new(1, 0, 0), 1, 1, 0, 1, 2, &mut e)
        .is_some());
    assert!(input
        .distant_lit_specular_lighting(None, Point3::new(0, 0, 1), 0, 1, 2, 3, &mut e)
        .is_some());
    assert!(input
        .point_lit_specular_lighting(None, Point3::new(0, 0, 1), 0, 1, 0, 3, &mut e)
        .is_none());
    assert!(input
        .spot_lit_specular_lighting(None, Point3::new(0, 0, 1), Point3::new(1, 0, 0), 1, 1, 0, 1, 2, 3, &mut e)
        .is_some());
}

#[test]
fn noise_factories_validate_their_arguments() {
    let mut e = Engine::new();
    let noise = fractal_noise((1, 1), 2, 0, Some(ISize::new(4, 4)), &mut e).unwrap();
    let value = e.get(noise.ptr);
    assert_eq!(value.num_octaves, 2);
    assert_eq!(value.tile_size, Some(ISize::new(4, 4)));
    assert!(fractal_noise((1, 1), 0, 0, None, &mut e).is_none());
    assert!(turbulence((-1, 1), 2, 0, None, &mut e).is_none());
    assert!(improved_noise((1, 1), 1, 7, &mut e).is_some());
    assert!(improved_noise((1, -1), 1, 7, &mut e).is_none());
}

#[test]
fn noise_methods_mirror_the_factories() {
    let mut e = Engine::new();
    assert!(Shader::fractal_perlin_noise((1, 1), 1, 0, None, &mut e).is_some());
    assert!(Shader::turbulence_perlin_noise((1, 1), 0, 0, None, &mut e).is_none());
    assert!(Shader::improved_perlin_noise((1, 1), 3, 2, &mut e).is_some());
}
