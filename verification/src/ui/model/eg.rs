use vstd::prelude::*;

use crate::ui::model::synth::Synth;
use crate::program::params::EnvGenParams;
use crate::program::Program;
use crate::ui::model::param::{shows_program_param, param_from, updated_param, update_applies, Param, ParamChange, ParamUpdate};

verus! {

/// An envelope generator as the user interface shows it.
#[derive(Debug, Clone)]
pub struct EnvGen<N> {
    pub attack: Param<N>,
    pub decay: Param<N>,
    pub sustain: Param<N>,
    pub release: Param<N>,
    pub mode: Param<N>,
    pub legato: Param<N>,
    pub reset_to_zero: Param<N>,
    pub dca_intensity: Param<N>,
}

impl<N> EnvGen<N> {
    /// The module of `params` in `program` as the user interface first shows
    /// it: each parameter at its initial value, with no modulation (`zero`).
    pub open spec fn spec_new(program: Program<N>, params: EnvGenParams, zero: N) -> EnvGen<N> {
        EnvGen {
            attack: param_from(params.attack.reference, program.params@[params.attack.reference.0 as int], zero),
            decay: param_from(params.decay.reference, program.params@[params.decay.reference.0 as int], zero),
            sustain: param_from(params.sustain.reference, program.params@[params.sustain.reference.0 as int], zero),
            release: param_from(params.release.reference, program.params@[params.release.reference.0 as int], zero),
            mode: param_from(params.mode.reference, program.params@[params.mode.reference.0 as int], zero),
            legato: param_from(params.legato.reference, program.params@[params.legato.reference.0 as int], zero),
            reset_to_zero: param_from(params.reset_to_zero.reference, program.params@[params.reset_to_zero.reference.0 as int], zero),
            dca_intensity: param_from(params.dca_mod.reference, program.params@[params.dca_mod.reference.0 as int], zero),
        }
    }

    /// Whether `update` can be made to every modulated parameter.
    pub open spec fn update_applies(self, update: ParamChange<N>) -> bool {
        update_applies(update, self.attack) && update_applies(update, self.decay) && update_applies(update, self.sustain) && update_applies(update, self.release) && update_applies(update, self.dca_intensity)
    }

    /// Whether every modulated parameter shows `source` as the source being
    /// configured.
    pub open spec fn shows_source(self, source: Option<usize>) -> bool {
        self.attack.modulation.config_source == source && self.decay.modulation.config_source == source && self.sustain.modulation.config_source == source && self.release.modulation.config_source == source && self.dca_intensity.modulation.config_source == source
    }

    /// This after `update` is made to each modulated parameter: attack, decay, sustain, release, dca_intensity (mode, legato, reset_to_zero are not modulated).
    pub open spec fn updated(self, update: ParamChange<N>) -> EnvGen<N> {
        EnvGen {
            attack: updated_param(update, self.attack),
            decay: updated_param(update, self.decay),
            sustain: updated_param(update, self.sustain),
            release: updated_param(update, self.release),
            mode: self.mode,
            legato: self.legato,
            reset_to_zero: self.reset_to_zero,
            dca_intensity: updated_param(update, self.dca_intensity),
        }
    }
}

impl<N: Copy> EnvGen<N> {
    /// The module of `params` in `program` as the user interface first shows
    /// it: each parameter at its initial value, with no modulation (`zero`).
    pub fn new(program: &Program<N>, params: &EnvGenParams, zero: N) -> (shown: EnvGen<N>)
        requires
            params.refs_within(program.params@.len()),
        ensures
            shown == EnvGen::spec_new(*program, *params, zero),
    {
        EnvGen {
            attack: Param::new(program, params.attack.reference, zero),
            decay: Param::new(program, params.decay.reference, zero),
            sustain: Param::new(program, params.sustain.reference, zero),
            release: Param::new(program, params.release.reference, zero),
            mode: Param::new(program, params.mode.reference, zero),
            legato: Param::new(program, params.legato.reference, zero),
            reset_to_zero: Param::new(program, params.reset_to_zero.reference, zero),
            dca_intensity: Param::new(program, params.dca_mod.reference, zero),
        }
    }

    /// Makes `update` to each modulated parameter: attack, decay, sustain, release, dca_intensity.
    pub fn for_each_modulated_param(&mut self, update: &ParamUpdate<N>)
        requires
            old(self).update_applies(update@),
        ensures
            *final(self) == old(self).updated(update@),
    {
        self.attack.apply(update);
        self.decay.apply(update);
        self.sustain.apply(update);
        self.release.apply(update);
        self.dca_intensity.apply(update);
    }
}

/// The lens from the synth to the envelope generator on view: the modulator tab at `mod_index`.
pub struct EgFromSynth;

impl EgFromSynth {
    /// Whether the synth has the EnvGen that the lens shows.
    pub open spec fn in_view<N>(&self, data: &Synth<N>) -> bool {
        data.mod_index < data.eg@.len()
    }

    /// The position in `data.eg` of the module that the lens shows.
    pub open spec fn index<N>(&self, data: &Synth<N>) -> int {
        data.mod_index as int
    }

    /// Calls `f` on the module that the lens shows.
    pub fn with<N, V, F: FnOnce(&EnvGen<N>) -> V>(&self, data: &Synth<N>, f: F) -> (result: V)
        requires
            self.in_view(data),
            f.requires((&data.eg@[self.index(data)],)),
        ensures
            f.ensures((&data.eg@[self.index(data)],), result),
    {
        f(&data.eg[data.mod_index])
    }

    /// The module that the lens shows, to be changed in place; the rest of
    /// the synth stays as it was.
    pub fn target_mut<'a, N>(&self, data: &'a mut Synth<N>) -> (target: &'a mut EnvGen<N>)
        requires
            self.in_view(old(data)),
        ensures
            *target == old(data).eg@[self.index(old(data))],
            final(data).eg@ == old(data).eg@.update(self.index(old(data)), *final(target)),
            Synth::same_but_eg(old(data), final(data)),
    {
        let index = data.mod_index;
        &mut data.eg[index]
    }
}

/// Each knob of the envelope generator, as the user interface first shows it, shows
/// the program's parameter that the same-named block of `params` refers to.
pub proof fn law_envgen_knobs_follow_params<N>(program: Program<N>, params: EnvGenParams, zero: N)
    ensures
        ({
            let shown = EnvGen::spec_new(program, params, zero);
            &&& shows_program_param(shown.attack, params.attack.reference, program, program.params@[params.attack.reference.0 as int].values.origin, zero)
            &&& shows_program_param(shown.decay, params.decay.reference, program, program.params@[params.decay.reference.0 as int].values.origin, zero)
            &&& shows_program_param(shown.sustain, params.sustain.reference, program, program.params@[params.sustain.reference.0 as int].values.origin, zero)
            &&& shows_program_param(shown.release, params.release.reference, program, program.params@[params.release.reference.0 as int].values.origin, zero)
            &&& shows_program_param(shown.mode, params.mode.reference, program, program.params@[params.mode.reference.0 as int].values.origin, zero)
            &&& shows_program_param(shown.legato, params.legato.reference, program, program.params@[params.legato.reference.0 as int].values.origin, zero)
            &&& shows_program_param(shown.reset_to_zero, params.reset_to_zero.reference, program, program.params@[params.reset_to_zero.reference.0 as int].values.origin, zero)
            &&& shows_program_param(shown.dca_intensity, params.dca_mod.reference, program, program.params@[params.dca_mod.reference.0 as int].values.origin, zero)
        }),
{
}

} // verus!
