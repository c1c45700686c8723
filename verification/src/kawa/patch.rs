//! A synth patch: a name and the parameters of the synth engine.

use vstd::prelude::*;

verus! {

/// The number of bytes of a patch name.
pub const PATCH_NAME_SIZE: usize = 8;

/// The number of synth engine parameters in a patch.
pub const PARAM_COUNT: usize = 22;

/// A patch. The engine parameters are 32-bit floats; the patch holds their
/// bit patterns, in the engine's order: exciter envelope shape, bow level,
/// bow timbre, blow level, blow meta, blow timbre, strike level, strike meta,
/// strike timbre, signature; resonator geometry, brightness, damping,
/// position, modulation frequency, modulation offset; reverb diffusion,
/// low-pass, time, amount; space; and one unused word.
#[derive(Clone, Copy, Debug)]
pub struct Patch {
    pub name: [u8; 8],
    pub elements_params: [u32; 22],
}

/// The name of the initial patch, "empty" padded with spaces.
pub open spec fn default_name() -> Seq<u8> {
    seq![101u8, 109u8, 112u8, 116u8, 121u8, 32u8, 32u8, 32u8]
}

/// The bit patterns of the initial parameters: 1.0, 0.0, 0.5, 0.0, 0.5, 0.5,
/// 0.8, 0.5, 0.5, 0.875, 0.2, 0.5, 0.25, 0.3, 3.125e-5, 0.1125, 0.60625,
/// 0.825, 0.5, 0.5, 0.7 and 0.0.
pub open spec fn default_params() -> Seq<u32> {
    seq![
        0x3f800000u32, 0x00000000u32, 0x3f000000u32, 0x00000000u32, 0x3f000000u32, 0x3f000000u32,
        0x3f4ccccdu32, 0x3f000000u32, 0x3f000000u32, 0x3f600000u32, 0x3e4ccccdu32, 0x3f000000u32,
        0x3e800000u32, 0x3e99999au32, 0x3803126fu32, 0x3de66667u32, 0x3f1b3333u32, 0x3f533333u32,
        0x3f000000u32, 0x3f000000u32, 0x3f333333u32, 0x00000000u32,
    ]
}

/// The patch a fresh synth starts with.
pub open spec fn is_default_patch(p: Patch) -> bool {
    p.name@ == default_name() && p.elements_params@ == default_params()
}

impl Patch {
    pub fn new() -> (p: Patch)
        ensures
            is_default_patch(p),
    {
        let p = Patch {
            name: [101u8, 109u8, 112u8, 116u8, 121u8, 32u8, 32u8, 32u8],
            elements_params: [
                0x3f800000u32, 0x00000000u32, 0x3f000000u32, 0x00000000u32, 0x3f000000u32, 0x3f000000u32,
                0x3f4ccccdu32, 0x3f000000u32, 0x3f000000u32, 0x3f600000u32, 0x3e4ccccdu32, 0x3f000000u32,
                0x3e800000u32, 0x3e99999au32, 0x3803126fu32, 0x3de66667u32, 0x3f1b3333u32, 0x3f533333u32,
                0x3f000000u32, 0x3f000000u32, 0x3f333333u32, 0x00000000u32,
            ],
        };
        assert(p.name@ =~= default_name());
        assert(p.elements_params@ =~= default_params());
        p
    }
}

} // verus!
