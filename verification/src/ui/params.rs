use vstd::prelude::*;

use crate::program::kiro::KiroParams;
use crate::program::params::{EnvGenParams, OscParams};
use crate::program::Program;
use crate::refs::ParamRef;

verus! {

/// The knob settings of a parameter: its reference, its
/// initial value, its range (whose centre it takes to be the minimum) and its
/// step.
#[derive(Debug, Clone, Copy, PartialEq, Eq, Structural)]
pub struct ParamInfo<N> {
    pub param_ref: ParamRef,
    pub initial_value: N,
    pub center: N,
    pub min: N,
    pub max: N,
    pub step: N,
}

/// The knob settings of parameter `param_ref` of `program`.
pub open spec fn param_info<N>(program: Program<N>, param_ref: ParamRef) -> ParamInfo<N> {
    let values = program.params@[param_ref.0 as int].values;
    ParamInfo {
        param_ref,
        initial_value: values.initial_value,
        center: values.min,
        min: values.min,
        max: values.max,
        step: values.resolution,
    }
}

impl<N: Copy> ParamInfo<N> {
    /// The knob settings of parameter `param_ref` of
    /// `program`, which must have it.
    pub fn new(program: &Program<N>, param_ref: ParamRef) -> (info: ParamInfo<N>)
        requires
            param_ref.0 < program.params@.len(),
        ensures
            info == param_info(*program, param_ref),
    {
        let values = program.params[param_ref.0].values;
        ParamInfo {
            param_ref,
            initial_value: values.initial_value,
            center: values.min,
            min: values.min,
            max: values.max,
            step: values.resolution,
        }
    }
}

/// The parameters of an oscillator, as knob settings.
#[derive(Debug, Clone, Copy, PartialEq, Eq, Structural)]
pub struct OscParamsInfo<N> {
    pub amplitude: ParamInfo<N>,
    pub shape: ParamInfo<N>,
    pub octave: ParamInfo<N>,
    pub semitones: ParamInfo<N>,
    pub cents: ParamInfo<N>,
}

/// The parameters of an envelope generator, as knob
/// settings.
#[derive(Debug, Clone, Copy, PartialEq, Eq, Structural)]
pub struct EgParamsInfo<N> {
    pub attack: ParamInfo<N>,
    pub decay: ParamInfo<N>,
    pub sustain: ParamInfo<N>,
    pub release: ParamInfo<N>,
    pub mode: ParamInfo<N>,
    pub legato: ParamInfo<N>,
    pub reset_to_zero: ParamInfo<N>,
    pub dca_intensity: ParamInfo<N>,
}

/// The knob settings of the parameters on the synth panel: the panel's
/// first oscillator is the program's third, its second the fourth.
#[derive(Debug, Clone, Copy, PartialEq, Eq, Structural)]
pub struct SynthParams<N> {
    pub osc1: OscParamsInfo<N>,
    pub osc2: OscParamsInfo<N>,
    pub eg1: EgParamsInfo<N>,
}

/// The knob settings of the oscillator parameters `params`.
pub open spec fn osc_params_info<N>(program: Program<N>, params: OscParams) -> OscParamsInfo<N> {
    OscParamsInfo {
        amplitude: param_info(program, params.amplitude.reference),
        shape: param_info(program, params.shape.reference),
        octave: param_info(program, params.octaves.reference),
        semitones: param_info(program, params.semitones.reference),
        cents: param_info(program, params.cents.reference),
    }
}

/// The knob settings of the envelope parameters `params`.
pub open spec fn eg_params_info<N>(program: Program<N>, params: EnvGenParams) -> EgParamsInfo<N> {
    EgParamsInfo {
        attack: param_info(program, params.attack.reference),
        decay: param_info(program, params.decay.reference),
        sustain: param_info(program, params.sustain.reference),
        release: param_info(program, params.release.reference),
        mode: param_info(program, params.mode.reference),
        legato: param_info(program, params.legato.reference),
        reset_to_zero: param_info(program, params.reset_to_zero.reference),
        dca_intensity: param_info(program, params.dca_mod.reference),
    }
}

impl<N: Copy> SynthParams<N> {
    /// The knob settings of the parameters of `program`.
    pub fn new(program: &Program<N>, params: &KiroParams) -> (info: SynthParams<N>)
        requires
            params.refs_within(program.params@.len()),
        ensures
            info == (SynthParams {
                osc1: osc_params_info(*program, params.osc3),
                osc2: osc_params_info(*program, params.osc4),
                eg1: eg_params_info(*program, params.eg1),
            }),
    {
        SynthParams {
            osc1: Self::osc_params(program, &params.osc3),
            osc2: Self::osc_params(program, &params.osc4),
            eg1: Self::eg_params(program, &params.eg1),
        }
    }

    fn osc_params(program: &Program<N>, params: &OscParams) -> (info: OscParamsInfo<N>)
        requires
            params.refs_within(program.params@.len()),
        ensures
            info == osc_params_info(*program, *params),
    {
        OscParamsInfo {
            amplitude: ParamInfo::new(program, params.amplitude.reference),
            shape: ParamInfo::new(program, params.shape.reference),
            octave: ParamInfo::new(program, params.octaves.reference),
            semitones: ParamInfo::new(program, params.semitones.reference),
            cents: ParamInfo::new(program, params.cents.reference),
        }
    }

    fn eg_params(program: &Program<N>, params: &EnvGenParams) -> (info: EgParamsInfo<N>)
        requires
            params.refs_within(program.params@.len()),
        ensures
            info == eg_params_info(*program, *params),
    {
        EgParamsInfo {
            attack: ParamInfo::new(program, params.attack.reference),
            decay: ParamInfo::new(program, params.decay.reference),
            sustain: ParamInfo::new(program, params.sustain.reference),
            release: ParamInfo::new(program, params.release.reference),
            mode: ParamInfo::new(program, params.mode.reference),
            legato: ParamInfo::new(program, params.legato.reference),
            reset_to_zero: ParamInfo::new(program, params.reset_to_zero.reference),
            dca_intensity: ParamInfo::new(program, params.dca_mod.reference),
        }
    }
}

/// Whether `info` is the knob of parameter `param_ref` of `program`: it
/// drives that parameter, starts at its initial value, spans its range with
/// the minimum as centre, and moves by its resolution.
pub open spec fn shows_knob<N>(info: ParamInfo<N>, program: Program<N>, param_ref: ParamRef) -> bool {
    &&& info.param_ref == param_ref
    &&& info.initial_value == program.params@[param_ref.0 as int].values.initial_value
    &&& info.center == program.params@[param_ref.0 as int].values.min
    &&& info.min == program.params@[param_ref.0 as int].values.min
    &&& info.max == program.params@[param_ref.0 as int].values.max
    &&& info.step == program.params@[param_ref.0 as int].values.resolution
}

/// Each knob of an oscillator is the knob of the oscillator parameter of the
/// same name: amplitude, shape, octave (the octaves parameter), semitones
/// and cents.
pub proof fn law_osc_knobs_drive_their_params<N>(program: Program<N>, params: OscParams)
    ensures
        shows_knob(osc_params_info(program, params).amplitude, program, params.amplitude.reference),
        shows_knob(osc_params_info(program, params).shape, program, params.shape.reference),
        shows_knob(osc_params_info(program, params).octave, program, params.octaves.reference),
        shows_knob(osc_params_info(program, params).semitones, program, params.semitones.reference),
        shows_knob(osc_params_info(program, params).cents, program, params.cents.reference),
{
}

/// Each knob of an envelope generator is the knob of the envelope parameter
/// of the same name; the amplifier intensity knob is that of the parameter
/// by which the envelope modulates the amplifier.
pub proof fn law_eg_knobs_drive_their_params<N>(program: Program<N>, params: EnvGenParams)
    ensures
        shows_knob(eg_params_info(program, params).attack, program, params.attack.reference),
        shows_knob(eg_params_info(program, params).decay, program, params.decay.reference),
        shows_knob(eg_params_info(program, params).sustain, program, params.sustain.reference),
        shows_knob(eg_params_info(program, params).release, program, params.release.reference),
        shows_knob(eg_params_info(program, params).mode, program, params.mode.reference),
        shows_knob(eg_params_info(program, params).legato, program, params.legato.reference),
        shows_knob(eg_params_info(program, params).reset_to_zero, program, params.reset_to_zero.reference),
        shows_knob(eg_params_info(program, params).dca_intensity, program, params.dca_mod.reference),
{
}

} // verus!
