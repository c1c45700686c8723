//! The parameters of the synth engine that knobs drive.

use vstd::prelude::*;

verus! {

/// The synth engine parameters that have a knob.
#[derive(Clone, Copy, Debug, PartialEq, Eq, Structural)]
pub enum Param {
    ExcEnvShape,
    ExcBowLevel,
    ExcBowTimbre,
    ExcBlowLevel,
    ExcBlowMeta,
    ExcBlowTimbre,
    ExcStrikeLevel,
    ExcStrikeMeta,
    ExcStrikeTimbre,
    ResGeometry,
    ResBrightness,
    ResDamping,
    ResPosition,
}

/// The place of a parameter in the synth engine's patch, counting its
/// fields from 0 (`exciter_envelope_shape`) in declaration order.
pub open spec fn patch_field(param: Param) -> nat {
    match param {
        Param::ExcEnvShape => 0,
        Param::ExcBowLevel => 1,
        Param::ExcBowTimbre => 2,
        Param::ExcBlowLevel => 3,
        Param::ExcBlowMeta => 4,
        Param::ExcBlowTimbre => 5,
        Param::ExcStrikeLevel => 6,
        Param::ExcStrikeMeta => 7,
        Param::ExcStrikeTimbre => 8,
        Param::ResGeometry => 10,
        Param::ResBrightness => 11,
        Param::ResDamping => 12,
        Param::ResPosition => 13,
    }
}

/// The number of parameter fields in the synth engine's patch.
pub const PATCH_FIELD_COUNT: usize = 20;

/// The handler of a knob that drives one patch parameter: a turn of `delta`
/// steps moves the parameter by `delta / 20`, kept within `[0, 0.9995]`, and
/// the knob shows the parameter times 20.
#[derive(Clone, Copy, Debug, PartialEq, Eq, Structural)]
pub struct KnobHandler {
    pub param: Param,
}

impl KnobHandler {
    /// The patch field the handler moves.
    pub fn field_index(&self) -> (r: usize)
        ensures
            r == patch_field(self.param),
            r < PATCH_FIELD_COUNT,
    {
        match self.param {
            Param::ExcEnvShape => 0,
            Param::ExcBowLevel => 1,
            Param::ExcBowTimbre => 2,
            Param::ExcBlowLevel => 3,
            Param::ExcBlowMeta => 4,
            Param::ExcBlowTimbre => 5,
            Param::ExcStrikeLevel => 6,
            Param::ExcStrikeMeta => 7,
            Param::ExcStrikeTimbre => 8,
            Param::ResGeometry => 10,
            Param::ResBrightness => 11,
            Param::ResDamping => 12,
            Param::ResPosition => 13,
        }
    }
}

/// The handler for the knob of `param`.
pub fn create_knob_handler(param: Param) -> (h: KnobHandler)
    ensures
        h.param == param,
{
    KnobHandler { param }
}

/// Each parameter is driven at the place of its own field in the engine's
/// patch, whose fields come in this order: exciter envelope shape, bow level,
/// bow timbre, blow level, blow meta, blow timbre, strike level, strike meta,
/// strike timbre, signature (no knob), resonator geometry, brightness,
/// damping, position. Different parameters have different fields.
pub proof fn lemma_param_fields(p: Param, q: Param)
    ensures
        patch_field(p) < 14,
        seq![
            Some(Param::ExcEnvShape),
            Some(Param::ExcBowLevel),
            Some(Param::ExcBowTimbre),
            Some(Param::ExcBlowLevel),
            Some(Param::ExcBlowMeta),
            Some(Param::ExcBlowTimbre),
            Some(Param::ExcStrikeLevel),
            Some(Param::ExcStrikeMeta),
            Some(Param::ExcStrikeTimbre),
            None,
            Some(Param::ResGeometry),
            Some(Param::ResBrightness),
            Some(Param::ResDamping),
            Some(Param::ResPosition),
        ][patch_field(p) as int] == Some(p),
        patch_field(p) == patch_field(q) ==> p == q,
{
}

} // verus!
