//! The perlin-noise shader factories.

use vstd::prelude::*;

use crate::engine::Engine;
use crate::handles::RCHandle;
use crate::native;
use crate::native::NativeShader;
use crate::native::ShaderKind;
use crate::scalar;
use crate::shader::Shader;
use crate::size::ISize;

verus! {

/// The native record a successful noise factory call produces.
pub open spec fn noise_shader(
    kind: ShaderKind,
    base_frequency: (scalar, scalar),
    num_octaves: usize,
    seed: scalar,
    tile_size: Option<ISize>,
) -> NativeShader {
    NativeShader {
        kind,
        base_frequency_x: base_frequency.0,
        base_frequency_y: base_frequency.1,
        num_octaves,
        seed,
        tile_size,
    }
}

/// The inputs every noise factory accepts: at least one octave and
/// non-negative base frequencies.  The engine hands back null for the
/// rest.
pub open spec fn noise_args_valid(base_frequency: (scalar, scalar), num_octaves: usize) -> bool {
    num_octaves >= 1 && base_frequency.0 >= 0 && base_frequency.1 >= 0
}

impl RCHandle<NativeShader> {
    /// A fractal perlin-noise shader.  Fails exactly when the engine
    /// rejects the arguments: no octave, or a negative frequency.
    pub fn fractal_perlin_noise(
        base_frequency: (scalar, scalar),
        num_octaves: usize,
        seed: scalar,
        tile_size: Option<ISize>,
        e: &mut Engine<NativeShader>,
    ) -> (r: Option<Self>)
        requires
            old(e).wf(),
        ensures
            final(e).wf(),
            r.is_some() <==> noise_args_valid(base_frequency, num_octaves),
            r.is_none() ==> final(e).slots@ == old(e).slots@,
            r.is_some() ==> final(e).slots@ == old(e).allocated(
                noise_shader(ShaderKind::FractalNoise, base_frequency, num_octaves, seed, tile_size),
            ) && r.unwrap().is_valid(*final(e)) && r.unwrap().value_in(*final(e)) == noise_shader(
                ShaderKind::FractalNoise,
                base_frequency,
                num_octaves,
                seed,
                tile_size,
            ),
    {
        fractal_noise(base_frequency, num_octaves, seed, tile_size, e)
    }

    /// A turbulence perlin-noise shader.  Fails exactly when the
    /// engine rejects the arguments.
    pub fn turbulence_perlin_noise(
        base_frequency: (scalar, scalar),
        num_octaves: usize,
        seed: scalar,
        tile_size: Option<ISize>,
        e: &mut Engine<NativeShader>,
    ) -> (r: Option<Self>)
        requires
            old(e).wf(),
        ensures
            final(e).wf(),
            r.is_some() <==> noise_args_valid(base_frequency, num_octaves),
            r.is_none() ==> final(e).slots@ == old(e).slots@,
            r.is_some() ==> final(e).slots@ == old(e).allocated(
                noise_shader(ShaderKind::Turbulence, base_frequency, num_octaves, seed, tile_size),
            ) && r.unwrap().is_valid(*final(e)) && r.unwrap().value_in(*final(e)) == noise_shader(
                ShaderKind::Turbulence,
                base_frequency,
                num_octaves,
                seed,
                tile_size,
            ),
    {
        turbulence(base_frequency, num_octaves, seed, tile_size, e)
    }

    /// An improved perlin-noise shader.  Fails exactly when the
    /// engine rejects the arguments.
    pub fn improved_perlin_noise(
        base_frequency: (scalar, scalar),
        num_octaves: usize,
        z: scalar,
        e: &mut Engine<NativeShader>,
    ) -> (r: Option<Self>)
        requires
            old(e).wf(),
        ensures
            final(e).wf(),
            r.is_some() <==> noise_args_valid(base_frequency, num_octaves),
            r.is_none() ==> final(e).slots@ == old(e).slots@,
            r.is_some() ==> final(e).slots@ == old(e).allocated(
                noise_shader(
                    ShaderKind::ImprovedNoise,
                    base_frequency,
                    num_octaves,
                    z,
                    Option::<ISize>::None,
                ),
            ) && r.unwrap().is_valid(*final(e)) && r.unwrap().value_in(*final(e)) == noise_shader(
                ShaderKind::ImprovedNoise,
                base_frequency,
                num_octaves,
                z,
                Option::<ISize>::None,
            ),
    {
        improved_noise(base_frequency, num_octaves, z, e)
    }
}

/// Makes a fractal perlin-noise shader.  Fails exactly when the
/// engine rejects the arguments: no octave, or a negative frequency.
pub fn fractal_noise(
    base_frequency: (scalar, scalar),
    num_octaves: usize,
    seed: scalar,
    tile_size: Option<ISize>,
    e: &mut Engine<NativeShader>,
) -> (r: Option<Shader>)
    requires
        old(e).wf(),
    ensures
        final(e).wf(),
        r.is_some() <==> noise_args_valid(base_frequency, num_octaves),
        r.is_none() ==> final(e).slots@ == old(e).slots@,
        r.is_some() ==> final(e).slots@ == old(e).allocated(
            noise_shader(ShaderKind::FractalNoise, base_frequency, num_octaves, seed, tile_size),
        ) && r.unwrap().is_valid(*final(e)) && r.unwrap().value_in(*final(e)) == noise_shader(
            ShaderKind::FractalNoise,
            base_frequency,
            num_octaves,
            seed,
            tile_size,
        ),
{
    make_noise(ShaderKind::FractalNoise, base_frequency, num_octaves, seed, tile_size, e)
}

/// Makes a turbulence perlin-noise shader.  Fails exactly when the
/// engine rejects the arguments.
pub fn turbulence(
    base_frequency: (scalar, scalar),
    num_octaves: usize,
    seed: scalar,
    tile_size: Option<ISize>,
    e: &mut Engine<NativeShader>,
) -> (r: Option<Shader>)
    requires
        old(e).wf(),
    ensures
        final(e).wf(),
        r.is_some() <==> noise_args_valid(base_frequency, num_octaves),
        r.is_none() ==> final(e).slots@ == old(e).slots@,
        r.is_some() ==> final(e).slots@ == old(e).allocated(
            noise_shader(ShaderKind::Turbulence, base_frequency, num_octaves, seed, tile_size),
        ) && r.unwrap().is_valid(*final(e)) && r.unwrap().value_in(*final(e)) == noise_shader(
            ShaderKind::Turbulence,
            base_frequency,
            num_octaves,
            seed,
            tile_size,
        ),
{
    make_noise(ShaderKind::Turbulence, base_frequency, num_octaves, seed, tile_size, e)
}

/// Makes an improved perlin-noise shader.  Fails exactly when the
/// engine rejects the arguments.
pub fn improved_noise(
    base_frequency: (scalar, scalar),
    num_octaves: usize,
    z: scalar,
    e: &mut Engine<NativeShader>,
) -> (r: Option<Shader>)
    requires
        old(e).wf(),
    ensures
        final(e).wf(),
        r.is_some() <==> noise_args_valid(base_frequency, num_octaves),
        r.is_none() ==> final(e).slots@ == old(e).slots@,
        r.is_some() ==> final(e).slots@ == old(e).allocated(
            noise_shader(
                ShaderKind::ImprovedNoise,
                base_frequency,
                num_octaves,
                z,
                Option::<ISize>::None,
            ),
        ) && r.unwrap().is_valid(*final(e)) && r.unwrap().value_in(*final(e)) == noise_shader(
            ShaderKind::ImprovedNoise,
            base_frequency,
            num_octaves,
            z,
            Option::<ISize>::None,
        ),
{
    make_noise(ShaderKind::ImprovedNoise, base_frequency, num_octaves, z, None, e)
}

/// The shared body of the noise factories: checks the arguments and
/// allocates the shader record.
fn make_noise(
    kind: ShaderKind,
    base_frequency: (scalar, scalar),
    num_octaves: usize,
    seed: scalar,
    tile_size: Option<ISize>,
    e: &mut Engine<NativeShader>,
) -> (r: Option<Shader>)
    requires
        old(e).wf(),
    ensures
        final(e).wf(),
        r.is_some() <==> noise_args_valid(base_frequency, num_octaves),
        r.is_none() ==> final(e).slots@ == old(e).slots@,
        r.is_some() ==> final(e).slots@ == old(e).allocated(
            noise_shader(kind, base_frequency, num_octaves, seed, tile_size),
        ) && r.unwrap().is_valid(*final(e)) && r.unwrap().value_in(*final(e)) == noise_shader(
            kind,
            base_frequency,
            num_octaves,
            seed,
            tile_size,
        ),
{
    if num_octaves >= 1 && base_frequency.0 >= 0 && base_frequency.1 >= 0 {
        let p = e.allocate(
            NativeShader {
                kind,
                base_frequency_x: base_frequency.0,
                base_frequency_y: base_frequency.1,
                num_octaves,
                seed,
                tile_size,
            },
        );
        RCHandle::from_ptr(p, e)
    } else {
        RCHandle::from_ptr(0, e)
    }
}

} // verus!
