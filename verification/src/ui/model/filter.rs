use vstd::prelude::*;

use crate::ui::model::synth::Synth;
use crate::program::params::FilterParams;
use crate::program::Program;
use crate::ui::model::param::{shows_program_param, param_from, updated_param, update_applies, Param, ParamChange, ParamUpdate};

verus! {

/// A filter as the user interface shows it.
#[derive(Debug, Clone)]
pub struct Filter<N> {
    pub mode: Param<N>,
    pub freq: Param<N>,
    pub q: Param<N>,
}

impl<N> Filter<N> {
    /// The module of `params` in `program` as the user interface first shows
    /// it: each parameter at its initial value, with no modulation (`zero`).
    pub open spec fn spec_new(program: Program<N>, params: FilterParams, zero: N) -> Filter<N> {
        Filter {
            mode: param_from(params.mode.reference, program.params@[params.mode.reference.0 as int], zero),
            freq: param_from(params.freq.reference, program.params@[params.freq.reference.0 as int], zero),
            q: param_from(params.q.reference, program.params@[params.q.reference.0 as int], zero),
        }
    }

    /// Whether `update` can be made to every modulated parameter.
    pub open spec fn update_applies(self, update: ParamChange<N>) -> bool {
        update_applies(update, self.freq) && update_applies(update, self.q)
    }

    /// Whether every modulated parameter shows `source` as the source being
    /// configured.
    pub open spec fn shows_source(self, source: Option<usize>) -> bool {
        self.freq.modulation.config_source == source && self.q.modulation.config_source == source
    }

    /// This after `update` is made to each modulated parameter: freq, q (mode are not modulated).
    pub open spec fn updated(self, update: ParamChange<N>) -> Filter<N> {
        Filter {
            mode: self.mode,
            freq: updated_param(update, self.freq),
            q: updated_param(update, self.q),
        }
    }
}

impl<N: Copy> Filter<N> {
    /// The module of `params` in `program` as the user interface first shows
    /// it: each parameter at its initial value, with no modulation (`zero`).
    pub fn new(program: &Program<N>, params: &FilterParams, zero: N) -> (shown: Filter<N>)
        requires
            params.refs_within(program.params@.len()),
        ensures
            shown == Filter::spec_new(*program, *params, zero),
    {
        Filter {
            mode: Param::new(program, params.mode.reference, zero),
            freq: Param::new(program, params.freq.reference, zero),
            q: Param::new(program, params.q.reference, zero),
        }
    }

    /// Makes `update` to each modulated parameter: freq, q.
    pub fn for_each_modulated_param(&mut self, update: &ParamUpdate<N>)
        requires
            old(self).update_applies(update@),
        ensures
            *final(self) == old(self).updated(update@),
    {
        self.freq.apply(update);
        self.q.apply(update);
    }
}

/// The lens from the synth to the filter on view.
pub struct FilterFromSynth;

impl FilterFromSynth {
    /// Whether the synth has the Filter that the lens shows.
    pub open spec fn in_view<N>(&self, data: &Synth<N>) -> bool {
        data.filter_index < data.filter@.len()
    }

    /// The position in `data.filter` of the module that the lens shows.
    pub open spec fn index<N>(&self, data: &Synth<N>) -> int {
        data.filter_index as int
    }

    /// Calls `f` on the module that the lens shows.
    pub fn with<N, V, F: FnOnce(&Filter<N>) -> V>(&self, data: &Synth<N>, f: F) -> (result: V)
        requires
            self.in_view(data),
            f.requires((&data.filter@[self.index(data)],)),
        ensures
            f.ensures((&data.filter@[self.index(data)],), result),
    {
        f(&data.filter[data.filter_index])
    }

    /// The module that the lens shows, to be changed in place; the rest of
    /// the synth stays as it was.
    pub fn target_mut<'a, N>(&self, data: &'a mut Synth<N>) -> (target: &'a mut Filter<N>)
        requires
            self.in_view(old(data)),
        ensures
            *target == old(data).filter@[self.index(old(data))],
            final(data).filter@ == old(data).filter@.update(self.index(old(data)), *final(target)),
            Synth::same_but_filter(old(data), final(data)),
    {
        let index = data.filter_index;
        &mut data.filter[index]
    }
}

/// Each knob of the filter, as the user interface first shows it, shows
/// the program's parameter that the same-named block of `params` refers to.
pub proof fn law_filter_knobs_follow_params<N>(program: Program<N>, params: FilterParams, zero: N)
    ensures
        ({
            let shown = Filter::spec_new(program, params, zero);
            &&& shows_program_param(shown.mode, params.mode.reference, program, program.params@[params.mode.reference.0 as int].values.origin, zero)
            &&& shows_program_param(shown.freq, params.freq.reference, program, program.params@[params.freq.reference.0 as int].values.origin, zero)
            &&& shows_program_param(shown.q, params.q.reference, program, program.params@[params.q.reference.0 as int].values.origin, zero)
        }),
{
}

} // verus!
