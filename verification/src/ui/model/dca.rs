use vstd::prelude::*;

use crate::program::params::DcaParams;
use crate::program::Program;
use crate::ui::model::param::{shows_program_param, param_from, updated_param, update_applies, Param, ParamChange, ParamUpdate};

verus! {

/// The amplifier as the user interface shows it.
#[derive(Debug, Clone)]
pub struct Dca<N> {
    pub amplitude: Param<N>,
    pub pan: Param<N>,
}

impl<N> Dca<N> {
    /// The module of `params` in `program` as the user interface first shows
    /// it: each parameter at its initial value, with no modulation (`zero`) drawn from `zero` for pan.
    pub open spec fn spec_new(program: Program<N>, params: DcaParams, zero: N) -> Dca<N> {
        Dca {
            amplitude: param_from(params.amplitude.reference, program.params@[params.amplitude.reference.0 as int], zero),
            pan: Param { origin: zero, ..param_from(params.pan.reference, program.params@[params.pan.reference.0 as int], zero) },
        }
    }

    /// Whether `update` can be made to every modulated parameter.
    pub open spec fn update_applies(self, update: ParamChange<N>) -> bool {
        update_applies(update, self.amplitude) && update_applies(update, self.pan)
    }

    /// Whether every modulated parameter shows `source` as the source being
    /// configured.
    pub open spec fn shows_source(self, source: Option<usize>) -> bool {
        self.amplitude.modulation.config_source == source && self.pan.modulation.config_source == source
    }

    /// This after `update` is made to each modulated parameter: amplitude, pan.
    pub open spec fn updated(self, update: ParamChange<N>) -> Dca<N> {
        Dca {
            amplitude: updated_param(update, self.amplitude),
            pan: updated_param(update, self.pan),
        }
    }
}

impl<N: Copy> Dca<N> {
    /// The module of `params` in `program` as the user interface first shows
    /// it: each parameter at its initial value, with no modulation (`zero`) drawn from `zero` for pan.
    pub fn new(program: &Program<N>, params: &DcaParams, zero: N) -> (shown: Dca<N>)
        requires
            params.refs_within(program.params@.len()),
        ensures
            shown == Dca::spec_new(*program, *params, zero),
    {
        Dca {
            amplitude: Param::new(program, params.amplitude.reference, zero),
            pan: Param::new(program, params.pan.reference, zero).with_origin(zero),
        }
    }

    /// Makes `update` to each modulated parameter: amplitude, pan.
    pub fn for_each_modulated_param(&mut self, update: &ParamUpdate<N>)
        requires
            old(self).update_applies(update@),
        ensures
            *final(self) == old(self).updated(update@),
    {
        self.amplitude.apply(update);
        self.pan.apply(update);
    }
}

/// Each knob of the amplifier, as the user interface first shows it, shows
/// the program's parameter that the same-named block of `params` refers to (pan drawn from zero).
pub proof fn law_dca_knobs_follow_params<N>(program: Program<N>, params: DcaParams, zero: N)
    ensures
        ({
            let shown = Dca::spec_new(program, params, zero);
            &&& shows_program_param(shown.amplitude, params.amplitude.reference, program, program.params@[params.amplitude.reference.0 as int].values.origin, zero)
            &&& shows_program_param(shown.pan, params.pan.reference, program, zero, zero)
        }),
{
}

} // verus!
