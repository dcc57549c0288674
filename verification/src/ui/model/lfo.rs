use vstd::prelude::*;

use crate::ui::model::synth::Synth;
use crate::program::params::LfoParams;
use crate::program::Program;
use crate::ui::model::param::{shows_program_param, param_from, updated_param, update_applies, Param, ParamChange, ParamUpdate};

verus! {

/// A low frequency oscillator as the user interface shows it.
#[derive(Debug, Clone)]
pub struct Lfo<N> {
    pub shape: Param<N>,
    pub rate: Param<N>,
    pub phase: Param<N>,
    pub depth: Param<N>,
}

impl<N> Lfo<N> {
    /// The module of `params` in `program` as the user interface first shows
    /// it: each parameter at its initial value, with no modulation (`zero`).
    pub open spec fn spec_new(program: Program<N>, params: LfoParams, zero: N) -> Lfo<N> {
        Lfo {
            shape: param_from(params.shape.reference, program.params@[params.shape.reference.0 as int], zero),
            rate: param_from(params.rate.reference, program.params@[params.rate.reference.0 as int], zero),
            phase: param_from(params.phase.reference, program.params@[params.phase.reference.0 as int], zero),
            depth: param_from(params.depth.reference, program.params@[params.depth.reference.0 as int], zero),
        }
    }

    /// Whether `update` can be made to every modulated parameter.
    pub open spec fn update_applies(self, update: ParamChange<N>) -> bool {
        update_applies(update, self.rate) && update_applies(update, self.phase) && update_applies(update, self.depth)
    }

    /// Whether every modulated parameter shows `source` as the source being
    /// configured.
    pub open spec fn shows_source(self, source: Option<usize>) -> bool {
        self.rate.modulation.config_source == source && self.phase.modulation.config_source == source && self.depth.modulation.config_source == source
    }

    /// This after `update` is made to each modulated parameter: rate, phase, depth (shape are not modulated).
    pub open spec fn updated(self, update: ParamChange<N>) -> Lfo<N> {
        Lfo {
            shape: self.shape,
            rate: updated_param(update, self.rate),
            phase: updated_param(update, self.phase),
            depth: updated_param(update, self.depth),
        }
    }
}

impl<N: Copy> Lfo<N> {
    /// The module of `params` in `program` as the user interface first shows
    /// it: each parameter at its initial value, with no modulation (`zero`).
    pub fn new(program: &Program<N>, params: &LfoParams, zero: N) -> (shown: Lfo<N>)
        requires
            params.refs_within(program.params@.len()),
        ensures
            shown == Lfo::spec_new(*program, *params, zero),
    {
        Lfo {
            shape: Param::new(program, params.shape.reference, zero),
            rate: Param::new(program, params.rate.reference, zero),
            phase: Param::new(program, params.phase.reference, zero),
            depth: Param::new(program, params.depth.reference, zero),
        }
    }

    /// Makes `update` to each modulated parameter: rate, phase, depth.
    pub fn for_each_modulated_param(&mut self, update: &ParamUpdate<N>)
        requires
            old(self).update_applies(update@),
        ensures
            *final(self) == old(self).updated(update@),
    {
        self.rate.apply(update);
        self.phase.apply(update);
        self.depth.apply(update);
    }
}

/// The lens from the synth to the low frequency oscillator on view: the modulator tabs show the envelope generators first, so it is the one at `mod_index` less their number.
pub struct LfoFromSynth;

impl LfoFromSynth {
    /// Whether the synth has the Lfo that the lens shows.
    pub open spec fn in_view<N>(&self, data: &Synth<N>) -> bool {
        data.eg@.len() <= data.mod_index < data.eg@.len() + data.lfo@.len()
    }

    /// The position in `data.lfo` of the module that the lens shows.
    pub open spec fn index<N>(&self, data: &Synth<N>) -> int {
        data.mod_index - data.eg@.len()
    }

    /// Calls `f` on the module that the lens shows.
    pub fn with<N, V, F: FnOnce(&Lfo<N>) -> V>(&self, data: &Synth<N>, f: F) -> (result: V)
        requires
            self.in_view(data),
            f.requires((&data.lfo@[self.index(data)],)),
        ensures
            f.ensures((&data.lfo@[self.index(data)],), result),
    {
        f(&data.lfo[data.mod_index - data.eg.len()])
    }

    /// The module that the lens shows, to be changed in place; the rest of
    /// the synth stays as it was.
    pub fn target_mut<'a, N>(&self, data: &'a mut Synth<N>) -> (target: &'a mut Lfo<N>)
        requires
            self.in_view(old(data)),
        ensures
            *target == old(data).lfo@[self.index(old(data))],
            final(data).lfo@ == old(data).lfo@.update(self.index(old(data)), *final(target)),
            Synth::same_but_lfo(old(data), final(data)),
    {
        let index = data.mod_index - data.eg.len();
        &mut data.lfo[index]
    }
}

/// Each knob of the low frequency oscillator, as the user interface first shows it, shows
/// the program's parameter that the same-named block of `params` refers to.
pub proof fn law_lfo_knobs_follow_params<N>(program: Program<N>, params: LfoParams, zero: N)
    ensures
        ({
            let shown = Lfo::spec_new(program, params, zero);
            &&& shows_program_param(shown.shape, params.shape.reference, program, program.params@[params.shape.reference.0 as int].values.origin, zero)
            &&& shows_program_param(shown.rate, params.rate.reference, program, program.params@[params.rate.reference.0 as int].values.origin, zero)
            &&& shows_program_param(shown.phase, params.phase.reference, program, program.params@[params.phase.reference.0 as int].values.origin, zero)
            &&& shows_program_param(shown.depth, params.depth.reference, program, program.params@[params.depth.reference.0 as int].values.origin, zero)
        }),
{
}

} // verus!
