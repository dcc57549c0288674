use vstd::prelude::*;

use crate::ui::model::synth::Synth;
use crate::program::params::OscParams;
use crate::program::Program;
use crate::ui::model::param::{shows_program_param, param_from, updated_param, update_applies, Param, ParamChange, ParamUpdate};

verus! {

/// An oscillator as the user interface shows it.
#[derive(Debug, Clone)]
pub struct Osc<N> {
    pub shape: Param<N>,
    pub octaves: Param<N>,
    pub semitones: Param<N>,
    pub cents: Param<N>,
    pub amplitude: Param<N>,
}

impl<N> Osc<N> {
    /// The module of `params` in `program` as the user interface first shows
    /// it: each parameter at its initial value, with no modulation (`zero`) drawn from `zero` for octaves, semitones, cents.
    pub open spec fn spec_new(program: Program<N>, params: OscParams, zero: N) -> Osc<N> {
        Osc {
            shape: param_from(params.shape.reference, program.params@[params.shape.reference.0 as int], zero),
            octaves: Param { origin: zero, ..param_from(params.octaves.reference, program.params@[params.octaves.reference.0 as int], zero) },
            semitones: Param { origin: zero, ..param_from(params.semitones.reference, program.params@[params.semitones.reference.0 as int], zero) },
            cents: Param { origin: zero, ..param_from(params.cents.reference, program.params@[params.cents.reference.0 as int], zero) },
            amplitude: param_from(params.amplitude.reference, program.params@[params.amplitude.reference.0 as int], zero),
        }
    }

    /// Whether `update` can be made to every modulated parameter.
    pub open spec fn update_applies(self, update: ParamChange<N>) -> bool {
        update_applies(update, self.octaves) && update_applies(update, self.semitones) && update_applies(update, self.cents) && update_applies(update, self.amplitude)
    }

    /// Whether every modulated parameter shows `source` as the source being
    /// configured.
    pub open spec fn shows_source(self, source: Option<usize>) -> bool {
        self.octaves.modulation.config_source == source && self.semitones.modulation.config_source == source && self.cents.modulation.config_source == source && self.amplitude.modulation.config_source == source
    }

    /// This after `update` is made to each modulated parameter: octaves, semitones, cents, amplitude (shape are not modulated).
    pub open spec fn updated(self, update: ParamChange<N>) -> Osc<N> {
        Osc {
            shape: self.shape,
            octaves: updated_param(update, self.octaves),
            semitones: updated_param(update, self.semitones),
            cents: updated_param(update, self.cents),
            amplitude: updated_param(update, self.amplitude),
        }
    }
}

impl<N: Copy> Osc<N> {
    /// The module of `params` in `program` as the user interface first shows
    /// it: each parameter at its initial value, with no modulation (`zero`) drawn from `zero` for octaves, semitones, cents.
    pub fn new(program: &Program<N>, params: &OscParams, zero: N) -> (shown: Osc<N>)
        requires
            params.refs_within(program.params@.len()),
        ensures
            shown == Osc::spec_new(*program, *params, zero),
    {
        Osc {
            shape: Param::new(program, params.shape.reference, zero),
            octaves: Param::new(program, params.octaves.reference, zero).with_origin(zero),
            semitones: Param::new(program, params.semitones.reference, zero).with_origin(zero),
            cents: Param::new(program, params.cents.reference, zero).with_origin(zero),
            amplitude: Param::new(program, params.amplitude.reference, zero),
        }
    }

    /// Makes `update` to each modulated parameter: octaves, semitones, cents, amplitude.
    pub fn for_each_modulated_param(&mut self, update: &ParamUpdate<N>)
        requires
            old(self).update_applies(update@),
        ensures
            *final(self) == old(self).updated(update@),
    {
        self.octaves.apply(update);
        self.semitones.apply(update);
        self.cents.apply(update);
        self.amplitude.apply(update);
    }
}

/// The lens from the synth to the oscillator on view.
pub struct OscFromSynth;

impl OscFromSynth {
    /// Whether the synth has the Osc that the lens shows.
    pub open spec fn in_view<N>(&self, data: &Synth<N>) -> bool {
        data.osc_index < data.osc@.len()
    }

    /// The position in `data.osc` of the module that the lens shows.
    pub open spec fn index<N>(&self, data: &Synth<N>) -> int {
        data.osc_index as int
    }

    /// Calls `f` on the module that the lens shows.
    pub fn with<N, V, F: FnOnce(&Osc<N>) -> V>(&self, data: &Synth<N>, f: F) -> (result: V)
        requires
            self.in_view(data),
            f.requires((&data.osc@[self.index(data)],)),
        ensures
            f.ensures((&data.osc@[self.index(data)],), result),
    {
        f(&data.osc[data.osc_index])
    }

    /// The module that the lens shows, to be changed in place; the rest of
    /// the synth stays as it was.
    pub fn target_mut<'a, N>(&self, data: &'a mut Synth<N>) -> (target: &'a mut Osc<N>)
        requires
            self.in_view(old(data)),
        ensures
            *target == old(data).osc@[self.index(old(data))],
            final(data).osc@ == old(data).osc@.update(self.index(old(data)), *final(target)),
            Synth::same_but_osc(old(data), final(data)),
    {
        let index = data.osc_index;
        &mut data.osc[index]
    }
}

/// Each knob of the oscillator, as the user interface first shows it, shows
/// the program's parameter that the same-named block of `params` refers to (octaves, semitones, cents drawn from zero).
pub proof fn law_osc_knobs_follow_params<N>(program: Program<N>, params: OscParams, zero: N)
    ensures
        ({
            let shown = Osc::spec_new(program, params, zero);
            &&& shows_program_param(shown.shape, params.shape.reference, program, program.params@[params.shape.reference.0 as int].values.origin, zero)
            &&& shows_program_param(shown.amplitude, params.amplitude.reference, program, program.params@[params.amplitude.reference.0 as int].values.origin, zero)
            &&& shows_program_param(shown.octaves, params.octaves.reference, program, zero, zero)
            &&& shows_program_param(shown.semitones, params.semitones.reference, program, zero, zero)
            &&& shows_program_param(shown.cents, params.cents.reference, program, zero, zero)
        }),
{
}

} // verus!
