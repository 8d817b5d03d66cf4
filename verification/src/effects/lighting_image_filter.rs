//! The lighting image filter factories: diffuse and specular, each
//! under a distant, point, or spot light.

use vstd::prelude::*;

use crate::engine::Engine;
use crate::handles::RCHandle;
use crate::image_filter::CropRect;
use crate::image_filter::ImageFilter;
use crate::native;
use crate::native::ImageFilterKind;
use crate::native::NativeImageFilter;
use crate::native::NativePoint3;
use crate::point::Point3;
use crate::scalar;
use crate::Color;

verus! {

/// The native view of a light coordinate triple.
pub open spec fn light_point(p: Point3) -> NativePoint3 {
    NativePoint3 { x: p.x, y: p.y, z: p.z }
}

/// The native record of a diffuse lighting filter: the light's
/// coordinates, the surface scale and the diffuse constant.
pub open spec fn diffuse_filter(
    kind: ImageFilterKind,
    light: Point3,
    target: Point3,
    s0: scalar,
    s1: scalar,
    s2: scalar,
    s3: scalar,
    color: Color,
    input: usize,
    has_crop: bool,
) -> NativeImageFilter {
    NativeImageFilter {
        light: light_point(light),
        target: light_point(target),
        s0,
        s1,
        s2,
        s3,
        color,
        input,
        has_crop,
        ..native::blank_image_filter(kind)
    }
}

/// The native record of a specular lighting filter.
pub open spec fn specular_filter(
    kind: ImageFilterKind,
    light: Point3,
    target: Point3,
    s0: scalar,
    s1: scalar,
    s2: scalar,
    s3: scalar,
    s4: scalar,
    color: Color,
    input: usize,
    has_crop: bool,
) -> NativeImageFilter {
    NativeImageFilter {
        light: light_point(light),
        target: light_point(target),
        s0,
        s1,
        s2,
        s3,
        s4,
        color,
        input,
        has_crop,
        ..native::blank_image_filter(kind)
    }
}

/// Builds a lighting filter record in the engine and wraps the fresh
/// reference; the shared tail of every lighting factory.
fn make_lighting(
    value: NativeImageFilter,
    e: &mut Engine<NativeImageFilter>,
) -> (r: Option<ImageFilter>)
    requires
        old(e).wf(),
    ensures
        final(e).wf(),
        r.is_some(),
        final(e).slots@ == old(e).allocated(value),
        r.unwrap().is_valid(*final(e)),
        r.unwrap().value_in(*final(e)) == value,
{
    let p = e.allocate(value);
    RCHandle::from_ptr(p, e)
}

impl RCHandle<NativeImageFilter> {
    /// Diffuse lighting of this filter's output from a distant light.
    /// Fails exactly on a non-positive diffuse constant, which the
    /// engine rejects with a null result.
    pub fn distant_lit_diffuse_lighting(
        &self,
        crop_rect: Option<&CropRect>,
        direction: Point3,
        light_color: Color,
        surface_scale: scalar,
        kd: scalar,
        e: &mut Engine<NativeImageFilter>,
    ) -> (r: Option<Self>)
        requires
            old(e).wf(),
            self.is_valid(*old(e)),
        ensures
            final(e).wf(),
            r.is_some() <==> kd > 0,
            r.is_none() ==> final(e).slots@ == old(e).slots@,
            r.is_some() ==> final(e).slots@ == old(e).allocated(
                diffuse_filter(
                    ImageFilterKind::DistantLitDiffuse,
                    direction,
                    Point3 { x: 0i32, y: 0i32, z: 0i32 },
                    surface_scale,
                    kd,
                    0i32,
                    0i32,
                    light_color,
                    self.ptr,
                    crop_rect.is_some(),
                ),
            ) && r.unwrap().is_valid(*final(e)),
    {
        distant_lit_diffuse(direction, light_color, surface_scale, kd, self, crop_rect, e)
    }

    /// Diffuse lighting of this filter's output from a point light.
    /// Fails exactly on a non-positive diffuse constant.
    pub fn point_lit_diffuse_lighting(
        &self,
        crop_rect: Option<&CropRect>,
        location: Point3,
        light_color: Color,
        surface_scale: scalar,
        kd: scalar,
        e: &mut Engine<NativeImageFilter>,
    ) -> (r: Option<Self>)
        requires
            old(e).wf(),
            self.is_valid(*old(e)),
        ensures
            final(e).wf(),
            r.is_some() <==> kd > 0,
            r.is_none() ==> final(e).slots@ == old(e).slots@,
            r.is_some() ==> final(e).slots@ == old(e).allocated(
                diffuse_filter(
                    ImageFilterKind::PointLitDiffuse,
                    location,
                    Point3 { x: 0i32, y: 0i32, z: 0i32 },
                    surface_scale,
                    kd,
                    0i32,
                    0i32,
                    light_color,
                    self.ptr,
                    crop_rect.is_some(),
                ),
            ) && r.unwrap().is_valid(*final(e)),
    {
        point_lit_diffuse(location, light_color, surface_scale, kd, self, crop_rect, e)
    }

    /// Diffuse lighting of this filter's output from a spot light.
    /// Fails exactly on a non-positive diffuse constant.
    pub fn spot_lit_diffuse_lighting(
        &self,
        crop_rect: Option<&CropRect>,
        location: Point3,
        target: Point3,
        specular_exponent: scalar,
        cutoff_angle: scalar,
        light_color: Color,
        surface_scale: scalar,
        kd: scalar,
        e: &mut Engine<NativeImageFilter>,
    ) -> (r: Option<Self>)
        requires
            old(e).wf(),
            self.is_valid(*old(e)),
        ensures
            final(e).wf(),
            r.is_some() <==> kd > 0,
            r.is_none() ==> final(e).slots@ == old(e).slots@,
            r.is_some() ==> final(e).slots@ == old(e).allocated(
                diffuse_filter(
                    ImageFilterKind::SpotLitDiffuse,
                    location,
                    target,
                    specular_exponent,
                    cutoff_angle,
                    surface_scale,
                    kd,
                    light_color,
                    self.ptr,
                    crop_rect.is_some(),
                ),
            ) && r.unwrap().is_valid(*final(e)),
    {
        spot_lit_diffuse(
            location,
            target,
            specular_exponent,
            cutoff_angle,
            light_color,
            surface_scale,
            kd,
            self,
            crop_rect,
            e,
        )
    }

    /// Specular lighting of this filter's output from a distant
    /// light.  Fails exactly on a non-positive specular constant or
    /// shininess.
    pub fn distant_lit_specular_lighting(
        &self,
        crop_rect: Option<&CropRect>,
        direction: Point3,
        light_color: Color,
        surface_scale: scalar,
        ks: scalar,
        shininess: scalar,
        e: &mut Engine<NativeImageFilter>,
    ) -> (r: Option<Self>)
        requires
            old(e).wf(),
            self.is_valid(*old(e)),
        ensures
            final(e).wf(),
            r.is_some() <==> (ks > 0 && shininess > 0),
            r.is_none() ==> final(e).slots@ == old(e).slots@,
            r.is_some() ==> final(e).slots@ == old(e).allocated(
                specular_filter(
                    ImageFilterKind::DistantLitSpecular,
                    direction,
                    Point3 { x: 0i32, y: 0i32, z: 0i32 },
                    surface_scale,
                    ks,
                    shininess,
                    0i32,
                    0i32,
                    light_color,
                    self.ptr,
                    crop_rect.is_some(),
                ),
            ) && r.unwrap().is_valid(*final(e)),
    {
        distant_lit_specular(
            direction,
            light_color,
            surface_scale,
            ks,
            shininess,
            self,
            crop_rect,
            e,
        )
    }

    /// Specular lighting of this filter's output from a point light.
    /// Fails exactly on a non-positive specular constant or
    /// shininess.
    pub fn point_lit_specular_lighting(
        &self,
        crop_rect: Option<&CropRect>,
        location: Point3,
        light_color: Color,
        surface_scale: scalar,
        ks: scalar,
        shininess: scalar,
        e: &mut Engine<NativeImageFilter>,
    ) -> (r: Option<Self>)
        requires
            old(e).wf(),
            self.is_valid(*old(e)),
        ensures
            final(e).wf(),
            r.is_some() <==> (ks > 0 && shininess > 0),
            r.is_none() ==> final(e).slots@ == old(e).slots@,
            r.is_some() ==> final(e).slots@ == old(e).allocated(
                specular_filter(
                    ImageFilterKind::PointLitSpecular,
                    location,
                    Point3 { x: 0i32, y: 0i32, z: 0i32 },
                    surface_scale,
                    ks,
                    shininess,
                    0i32,
                    0i32,
                    light_color,
                    self.ptr,
                    crop_rect.is_some(),
                ),
            ) && r.unwrap().is_valid(*final(e)),
    {
        point_lit_specular(location, light_color, surface_scale, ks, shininess, self, crop_rect, e)
    }

    /// Specular lighting of this filter's output from a spot light.
    /// Fails exactly on a non-positive specular constant or
    /// shininess.
    pub fn spot_lit_specular_lighting(
        &self,
        crop_rect: Option<&CropRect>,
        location: Point3,
        target: Point3,
        specular_exponent: scalar,
        cutoff_angle: scalar,
        light_color: Color,
        surface_scale: scalar,
        ks: scalar,
        shininess: scalar,
        e: &mut Engine<NativeImageFilter>,
    ) -> (r: Option<Self>)
        requires
            old(e).wf(),
            self.is_valid(*old(e)),
        ensures
            final(e).wf(),
            r.is_some() <==> (ks > 0 && shininess > 0),
            r.is_none() ==> final(e).slots@ == old(e).slots@,
            r.is_some() ==> final(e).slots@ == old(e).allocated(
                specular_filter(
                    ImageFilterKind::SpotLitSpecular,
                    location,
                    target,
                    specular_exponent,
                    cutoff_angle,
                    surface_scale,
                    ks,
                    shininess,
                    light_color,
                    self.ptr,
                    crop_rect.is_some(),
                ),
            ) && r.unwrap().is_valid(*final(e)),
    {
        spot_lit_specular(
            location,
            target,
            specular_exponent,
            cutoff_angle,
            light_color,
            surface_scale,
            ks,
            shininess,
            self,
            crop_rect,
            e,
        )
    }
}

/// Makes a diffuse lighting filter under a distant light.  Fails
/// exactly on a non-positive diffuse constant.
pub fn distant_lit_diffuse(
    direction: Point3,
    light_color: Color,
    surface_scale: scalar,
    kd: scalar,
    input: &ImageFilter,
    crop_rect: Option<&CropRect>,
    e: &mut Engine<NativeImageFilter>,
) -> (r: Option<ImageFilter>)
    requires
        old(e).wf(),
        input.is_valid(*old(e)),
    ensures
        final(e).wf(),
        r.is_some() <==> kd > 0,
        r.is_none() ==> final(e).slots@ == old(e).slots@,
        r.is_some() ==> final(e).slots@ == old(e).allocated(
            diffuse_filter(
                ImageFilterKind::DistantLitDiffuse,
                direction,
                Point3 { x: 0i32, y: 0i32, z: 0i32 },
                surface_scale,
                kd,
                0i32,
                0i32,
                light_color,
                input.ptr,
                crop_rect.is_some(),
            ),
        ) && r.unwrap().is_valid(*final(e)),
{
    if kd > 0 {
        let mut value = native::make_blank_image_filter(ImageFilterKind::DistantLitDiffuse);
        value.light = NativePoint3 { x: direction.x, y: direction.y, z: direction.z };
        value.s0 = surface_scale;
        value.s1 = kd;
        value.color = light_color;
        value.input = input.ptr;
        value.has_crop = crop_rect.is_some();
        make_lighting(value, e)
    } else {
        RCHandle::from_ptr(0, e)
    }
}

/// Makes a diffuse lighting filter under a point light.  Fails
/// exactly on a non-positive diffuse constant.
pub fn point_lit_diffuse(
    location: Point3,
    light_color: Color,
    surface_scale: scalar,
    kd: scalar,
    input: &ImageFilter,
    crop_rect: Option<&CropRect>,
    e: &mut Engine<NativeImageFilter>,
) -> (r: Option<ImageFilter>)
    requires
        old(e).wf(),
        input.is_valid(*old(e)),
    ensures
        final(e).wf(),
        r.is_some() <==> kd > 0,
        r.is_none() ==> final(e).slots@ == old(e).slots@,
        r.is_some() ==> final(e).slots@ == old(e).allocated(
            diffuse_filter(
                ImageFilterKind::PointLitDiffuse,
                location,
                Point3 { x: 0i32, y: 0i32, z: 0i32 },
                surface_scale,
                kd,
                0i32,
                0i32,
                light_color,
                input.ptr,
                crop_rect.is_some(),
            ),
        ) && r.unwrap().is_valid(*final(e)),
{
    if kd > 0 {
        let mut value = native::make_blank_image_filter(ImageFilterKind::PointLitDiffuse);
        value.light = NativePoint3 { x: location.x, y: location.y, z: location.z };
        value.s0 = surface_scale;
        value.s1 = kd;
        value.color = light_color;
        value.input = input.ptr;
        value.has_crop = crop_rect.is_some();
        make_lighting(value, e)
    } else {
        RCHandle::from_ptr(0, e)
    }
}

/// Makes a diffuse lighting filter under a spot light.  Fails exactly
/// on a non-positive diffuse constant.
pub fn spot_lit_diffuse(
    location: Point3,
    target: Point3,
    specular_exponent: scalar,
    cutoff_angle: scalar,
    light_color: Color,
    surface_scale: scalar,
    kd: scalar,
    input: &ImageFilter,
    crop_rect: Option<&CropRect>,
    e: &mut Engine<NativeImageFilter>,
) -> (r: Option<ImageFilter>)
    requires
        old(e).wf(),
        input.is_valid(*old(e)),
    ensures
        final(e).wf(),
        r.is_some() <==> kd > 0,
        r.is_none() ==> final(e).slots@ == old(e).slots@,
        r.is_some() ==> final(e).slots@ == old(e).allocated(
            diffuse_filter(
                ImageFilterKind::SpotLitDiffuse,
                location,
                target,
                specular_exponent,
                cutoff_angle,
                surface_scale,
                kd,
                light_color,
                input.ptr,
                crop_rect.is_some(),
            ),
        ) && r.unwrap().is_valid(*final(e)),
{
    if kd > 0 {
        let mut value = native::make_blank_image_filter(ImageFilterKind::SpotLitDiffuse);
        value.light = NativePoint3 { x: location.x, y: location.y, z: location.z };
        value.target = NativePoint3 { x: target.x, y: target.y, z: target.z };
        value.s0 = specular_exponent;
        value.s1 = cutoff_angle;
        value.s2 = surface_scale;
        value.s3 = kd;
        value.color = light_color;
        value.input = input.ptr;
        value.has_crop = crop_rect.is_some();
        make_lighting(value, e)
    } else {
        RCHandle::from_ptr(0, e)
    }
}

/// Makes a specular lighting filter under a distant light.  Fails
/// exactly on a non-positive specular constant or shininess.
pub fn distant_lit_specular(
    direction: Point3,
    light_color: Color,
    surface_scale: scalar,
    ks: scalar,
    shininess: scalar,
    input: &ImageFilter,
    crop_rect: Option<&CropRect>,
    e: &mut Engine<NativeImageFilter>,
) -> (r: Option<ImageFilter>)
    requires
        old(e).wf(),
        input.is_valid(*old(e)),
    ensures
        final(e).wf(),
        r.is_some() <==> (ks > 0 && shininess > 0),
        r.is_none() ==> final(e).slots@ == old(e).slots@,
        r.is_some() ==> final(e).slots@ == old(e).allocated(
            specular_filter(
                ImageFilterKind::DistantLitSpecular,
                direction,
                Point3 { x: 0i32, y: 0i32, z: 0i32 },
                surface_scale,
                ks,
                shininess,
                0i32,
                0i32,
                light_color,
                input.ptr,
                crop_rect.is_some(),
            ),
        ) && r.unwrap().is_valid(*final(e)),
{
    if ks > 0 && shininess > 0 {
        let mut value = native::make_blank_image_filter(ImageFilterKind::DistantLitSpecular);
        value.light = NativePoint3 { x: direction.x, y: direction.y, z: direction.z };
        value.s0 = surface_scale;
        value.s1 = ks;
        value.s2 = shininess;
        value.color = light_color;
        value.input = input.ptr;
        value.has_crop = crop_rect.is_some();
        make_lighting(value, e)
    } else {
        RCHandle::from_ptr(0, e)
    }
}

/// Makes a specular lighting filter under a point light.  Fails
/// exactly on a non-positive specular constant or shininess.
pub fn point_lit_specular(
    location: Point3,
    light_color: Color,
    surface_scale: scalar,
    ks: scalar,
    shininess: scalar,
    input: &ImageFilter,
    crop_rect: Option<&CropRect>,
    e: &mut Engine<NativeImageFilter>,
) -> (r: Option<ImageFilter>)
    requires
        old(e).wf(),
        input.is_valid(*old(e)),
    ensures
        final(e).wf(),
        r.is_some() <==> (ks > 0 && shininess > 0),
        r.is_none() ==> final(e).slots@ == old(e).slots@,
        r.is_some() ==> final(e).slots@ == old(e).allocated(
            specular_filter(
                ImageFilterKind::PointLitSpecular,
                location,
                Point3 { x: 0i32, y: 0i32, z: 0i32 },
                surface_scale,
                ks,
                shininess,
                0i32,
                0i32,
                light_color,
                input.ptr,
                crop_rect.is_some(),
            ),
        ) && r.unwrap().is_valid(*final(e)),
{
    if ks > 0 && shininess > 0 {
        let mut value = native::make_blank_image_filter(ImageFilterKind::PointLitSpecular);
        value.light = NativePoint3 { x: location.x, y: location.y, z: location.z };
        value.s0 = surface_scale;
        value.s1 = ks;
        value.s2 = shininess;
        value.color = light_color;
        value.input = input.ptr;
        value.has_crop = crop_rect.is_some();
        make_lighting(value, e)
    } else {
        RCHandle::from_ptr(0, e)
    }
}

/// Makes a specular lighting filter under a spot light.  Fails
/// exactly on a non-positive specular constant or shininess.
pub fn spot_lit_specular(
    location: Point3,
    target: Point3,
    specular_exponent: scalar,
    cutoff_angle: scalar,
    light_color: Color,
    surface_scale: scalar,
    ks: scalar,
    shininess: scalar,
    input: &ImageFilter,
    crop_rect: Option<&CropRect>,
    e: &mut Engine<NativeImageFilter>,
) -> (r: Option<ImageFilter>)
    requires
        old(e).wf(),
        input.is_valid(*old(e)),
    ensures
        final(e).wf(),
        r.is_some() <==> (ks > 0 && shininess > 0),
        r.is_none() ==> final(e).slots@ == old(e).slots@,
        r.is_some() ==> final(e).slots@ == old(e).allocated(
            specular_filter(
                ImageFilterKind::SpotLitSpecular,
                location,
                target,
                specular_exponent,
                cutoff_angle,
                surface_scale,
                ks,
                shininess,
                light_color,
                input.ptr,
                crop_rect.is_some(),
            ),
        ) && r.unwrap().is_valid(*final(e)),
{
    if ks > 0 && shininess > 0 {
        let mut value = native::make_blank_image_filter(ImageFilterKind::SpotLitSpecular);
        value.light = NativePoint3 { x: location.x, y: location.y, z: location.z };
        value.target = NativePoint3 { x: target.x, y: target.y, z: target.z };
        value.s0 = specular_exponent;
        value.s1 = cutoff_angle;
        value.s2 = surface_scale;
        value.s3 = ks;
        value.s4 = shininess;
        value.color = light_color;
        value.input = input.ptr;
        value.has_crop = crop_rect.is_some();
        make_lighting(value, e)
    } else {
        RCHandle::from_ptr(0, e)
    }
}

} // verus!
