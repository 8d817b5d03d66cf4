//! Image-filter and shader factories.

pub mod blur_image_filter;
pub mod drop_shadow_image_filter;
pub mod lighting_image_filter;
pub mod perlin_noise_shader;
