use vstd::prelude::*;

use crate::program::kiro::KiroParams;
use crate::program::Program;
use crate::refs::{ParamRef, SourceRef};
use crate::ui::model::dca::Dca;
use crate::ui::model::eg::EnvGen;
use crate::ui::model::filter::Filter;
use crate::ui::model::lfo::Lfo;
use crate::ui::model::modulations::{
    config_amounts, program_modulations, program_params, program_sources, deleted_modulations, has_modulation, has_param, has_source, stopped_config, updated_modulations,
    ModulationCommand, Modulations,
};
use crate::ui::model::oscillators::Osc;
use crate::ui::model::param::{ParamChange, ParamUpdate};

verus! {

/// The index of the source being configured, as the knobs show it.
pub open spec fn source_index(source: Option<SourceRef>) -> Option<usize> {
    match source {
        Some(s) => Some(s.0),
        None => None,
    }
}

/// The peak and the level of one audio channel, in decibels.
#[derive(Debug, Clone, Copy, PartialEq, Eq, Structural)]
pub struct AudioLevel<N> {
    pub peak: N,
    pub level: N,
}

/// The whole synth as the user interface shows it: the active voices, the
/// output levels, each module with its parameters, which of the modules of
/// each kind is on view, and the modulations. The modulator tabs show the
/// envelope generators first and then the oscillators at low frequency, so
/// `mod_index` counts over both.
#[derive(Debug, Clone)]
pub struct Synth<N> {
    pub active_voices: usize,
    pub left_level: AudioLevel<N>,
    pub right_level: AudioLevel<N>,
    pub osc: Vec<Osc<N>>,
    pub osc_index: usize,
    pub mod_index: usize,
    pub eg: Vec<EnvGen<N>>,
    pub lfo: Vec<Lfo<N>>,
    pub filter: Vec<Filter<N>>,
    pub filter_index: usize,
    pub dca: Dca<N>,
    pub modulations: Modulations<N>,
}

impl<N> Synth<N> {
    /// Whether every modulated parameter of every module shows the source
    /// that the modulation list is configuring (or none, when it configures
    /// none).
    pub open spec fn shows_config(&self) -> bool {
        let source = source_index(self.modulations.config_source);
        &&& forall|i: int| 0 <= i < self.osc@.len() ==> (#[trigger] self.osc@[i]).shows_source(source)
        &&& forall|i: int| 0 <= i < self.eg@.len() ==> (#[trigger] self.eg@[i]).shows_source(source)
        &&& forall|i: int| 0 <= i < self.lfo@.len() ==> (#[trigger] self.lfo@[i]).shows_source(source)
        &&& forall|i: int| 0 <= i < self.filter@.len() ==> (#[trigger] self.filter@[i]).shows_source(source)
        &&& self.dca.shows_source(source)
    }

    /// Whether `update` can be made to every modulated parameter.
    pub open spec fn update_applies(&self, update: ParamChange<N>) -> bool {
        &&& forall|i: int| 0 <= i < self.osc@.len() ==> (#[trigger] self.osc@[i]).update_applies(update)
        &&& forall|i: int| 0 <= i < self.eg@.len() ==> (#[trigger] self.eg@[i]).update_applies(update)
        &&& forall|i: int| 0 <= i < self.lfo@.len() ==> (#[trigger] self.lfo@[i]).update_applies(update)
        &&& forall|i: int| 0 <= i < self.filter@.len() ==> (#[trigger] self.filter@[i]).update_applies(update)
        &&& self.dca.update_applies(update)
    }

    /// Whether `before` and `after` agree on all but `osc`.
    pub open spec fn same_but_osc(before: &Synth<N>, after: &Synth<N>) -> bool {
        &&& after.eg@ == before.eg@
        &&& after.lfo@ == before.lfo@
        &&& after.filter@ == before.filter@
        &&& after.dca == before.dca
        &&& Self::same_but_modules(before, after)
    }

    /// Whether `before` and `after` agree on all but `eg`.
    pub open spec fn same_but_eg(before: &Synth<N>, after: &Synth<N>) -> bool {
        &&& after.osc@ == before.osc@
        &&& after.lfo@ == before.lfo@
        &&& after.filter@ == before.filter@
        &&& after.dca == before.dca
        &&& Self::same_but_modules(before, after)
    }

    /// Whether `before` and `after` agree on all but `lfo`.
    pub open spec fn same_but_lfo(before: &Synth<N>, after: &Synth<N>) -> bool {
        &&& after.osc@ == before.osc@
        &&& after.eg@ == before.eg@
        &&& after.filter@ == before.filter@
        &&& after.dca == before.dca
        &&& Self::same_but_modules(before, after)
    }

    /// Whether `before` and `after` agree on all but `filter`.
    pub open spec fn same_but_filter(before: &Synth<N>, after: &Synth<N>) -> bool {
        &&& after.osc@ == before.osc@
        &&& after.eg@ == before.eg@
        &&& after.lfo@ == before.lfo@
        &&& after.dca == before.dca
        &&& Self::same_but_modules(before, after)
    }

    /// Whether `after` is `before` with `update` made to every modulated
    /// parameter of every module, and nothing else changed.
    pub open spec fn is_updated(before: &Synth<N>, after: &Synth<N>, update: ParamChange<N>) -> bool {
        &&& Self::modules_updated(before, after, update)
        &&& Self::same_but_modules(before, after)
    }

    /// Whether the modules of `after` are those of `before` with `update`
    /// made to every modulated parameter.
    pub open spec fn modules_updated(before: &Synth<N>, after: &Synth<N>, update: ParamChange<N>) -> bool {
        &&& after.osc@ == before.osc@.map_values(|o: Osc<N>| o.updated(update))
        &&& after.eg@ == before.eg@.map_values(|e: EnvGen<N>| e.updated(update))
        &&& after.lfo@ == before.lfo@.map_values(|l: Lfo<N>| l.updated(update))
        &&& after.filter@ == before.filter@.map_values(|f: Filter<N>| f.updated(update))
        &&& after.dca == before.dca.updated(update)
    }

    /// Whether the modules of `after` are those of `before`.
    pub open spec fn modules_same(before: &Synth<N>, after: &Synth<N>) -> bool {
        &&& after.osc@ == before.osc@
        &&& after.eg@ == before.eg@
        &&& after.lfo@ == before.lfo@
        &&& after.filter@ == before.filter@
        &&& after.dca == before.dca
    }

    /// Whether `before` and `after` hold the same modulations, sources and
    /// parameters, and group them alike.
    pub open spec fn same_list(before: &Synth<N>, after: &Synth<N>) -> bool {
        &&& after.modulations.view == before.modulations.view
        &&& after.modulations.modulations@ == before.modulations.modulations@
        &&& after.modulations.sources@ == before.modulations.sources@
        &&& after.modulations.params@ == before.modulations.params@
    }

    /// Whether `before` and `after` agree on the voices, the levels, the
    /// modules on view, and the sources, parameters and grouping of the list.
    pub open spec fn same_state_but_list(before: &Synth<N>, after: &Synth<N>) -> bool {
        &&& after.active_voices == before.active_voices
        &&& after.left_level == before.left_level
        &&& after.right_level == before.right_level
        &&& after.osc_index == before.osc_index
        &&& after.mod_index == before.mod_index
        &&& after.filter_index == before.filter_index
        &&& after.modulations.view == before.modulations.view
        &&& after.modulations.sources@ == before.modulations.sources@
        &&& after.modulations.params@ == before.modulations.params@
    }

    /// Whether `before` and `after` agree on all but the modules and the
    /// source being configured.
    pub open spec fn same_state(before: &Synth<N>, after: &Synth<N>) -> bool {
        &&& Self::same_state_but_list(before, after)
        &&& after.modulations.modulations@ == before.modulations.modulations@
    }

    /// Whether `before` and `after` agree on all but the modules.
    pub open spec fn same_but_modules(before: &Synth<N>, after: &Synth<N>) -> bool {
        &&& Self::same_state(before, after)
        &&& after.modulations.config_source == before.modulations.config_source
    }
}

impl<N: Copy> Synth<N> {
    /// Makes `update` to every modulated parameter of every module.
    pub fn for_each_modulated_param(&mut self, update: &ParamUpdate<N>)
        requires
            old(self).update_applies(update@),
        ensures
            Synth::is_updated(old(self), final(self), update@),
    {
        let n = self.osc.len();
        for i in 0..n
            invariant
                n == self.osc@.len(),
                self.osc@.len() == old(self).osc@.len(),
                forall|j: int| 0 <= j < i ==> #[trigger] self.osc@[j] == old(self).osc@[j].updated(update@),
                forall|j: int| i <= j < n ==> #[trigger] self.osc@[j] == old(self).osc@[j],
                forall|j: int| 0 <= j < n ==> (#[trigger] old(self).osc@[j]).update_applies(update@),
                self.eg@ == old(self).eg@,
                self.lfo@ == old(self).lfo@,
                self.filter@ == old(self).filter@,
                self.dca == old(self).dca,
                Synth::same_but_modules(old(self), self),
        {
            let osc = &mut self.osc[i];
            osc.for_each_modulated_param(update);
        }
        let n = self.eg.len();
        for i in 0..n
            invariant
                n == self.eg@.len(),
                self.eg@.len() == old(self).eg@.len(),
                forall|j: int| 0 <= j < i ==> #[trigger] self.eg@[j] == old(self).eg@[j].updated(update@),
                forall|j: int| i <= j < n ==> #[trigger] self.eg@[j] == old(self).eg@[j],
                forall|j: int| 0 <= j < n ==> (#[trigger] old(self).eg@[j]).update_applies(update@),
                self.osc@ == old(self).osc@.map_values(|o: Osc<N>| o.updated(update@)),
                self.lfo@ == old(self).lfo@,
                self.filter@ == old(self).filter@,
                self.dca == old(self).dca,
                Synth::same_but_modules(old(self), self),
        {
            let eg = &mut self.eg[i];
            eg.for_each_modulated_param(update);
        }
        let n = self.lfo.len();
        for i in 0..n
            invariant
                n == self.lfo@.len(),
                self.lfo@.len() == old(self).lfo@.len(),
                forall|j: int| 0 <= j < i ==> #[trigger] self.lfo@[j] == old(self).lfo@[j].updated(update@),
                forall|j: int| i <= j < n ==> #[trigger] self.lfo@[j] == old(self).lfo@[j],
                forall|j: int| 0 <= j < n ==> (#[trigger] old(self).lfo@[j]).update_applies(update@),
                self.osc@ == old(self).osc@.map_values(|o: Osc<N>| o.updated(update@)),
                self.eg@ == old(self).eg@.map_values(|e: EnvGen<N>| e.updated(update@)),
                self.filter@ == old(self).filter@,
                self.dca == old(self).dca,
                Synth::same_but_modules(old(self), self),
        {
            let lfo = &mut self.lfo[i];
            lfo.for_each_modulated_param(update);
        }
        let n = self.filter.len();
        for i in 0..n
            invariant
                n == self.filter@.len(),
                self.filter@.len() == old(self).filter@.len(),
                forall|j: int| 0 <= j < i ==> #[trigger] self.filter@[j] == old(self).filter@[j].updated(update@),
                forall|j: int| i <= j < n ==> #[trigger] self.filter@[j] == old(self).filter@[j],
                forall|j: int| 0 <= j < n ==> (#[trigger] old(self).filter@[j]).update_applies(update@),
                self.osc@ == old(self).osc@.map_values(|o: Osc<N>| o.updated(update@)),
                self.eg@ == old(self).eg@.map_values(|e: EnvGen<N>| e.updated(update@)),
                self.lfo@ == old(self).lfo@.map_values(|l: Lfo<N>| l.updated(update@)),
                self.dca == old(self).dca,
                Synth::same_but_modules(old(self), self),
        {
            let filter = &mut self.filter[i];
            filter.for_each_modulated_param(update);
        }
        self.dca.for_each_modulated_param(update);
        assert(self.osc@ =~= old(self).osc@.map_values(|o: Osc<N>| o.updated(update@)));
        assert(self.eg@ =~= old(self).eg@.map_values(|e: EnvGen<N>| e.updated(update@)));
        assert(self.lfo@ =~= old(self).lfo@.map_values(|l: Lfo<N>| l.updated(update@)));
        assert(self.filter@ =~= old(self).filter@.map_values(|f: Filter<N>| f.updated(update@)));
    }
}

impl<N: Copy> Synth<N> {
    /// The synth with the total modulation amount of each modulated
    /// parameter shown from `totals` (the sums of the amounts by parameter).
    pub fn with_init_modulations_config(self, totals: std::collections::HashMap<usize, N>, zero: N) -> (synth: Synth<N>)
        ensures
            Synth::is_updated(&self, &synth, ParamChange::TotalAmounts { totals: totals@, zero }),
            self.shows_config() ==> synth.shows_config(),
    {
        let mut synth = self;
        let update = ParamUpdate::TotalAmounts { totals, zero };
        synth.for_each_modulated_param(&update);
        synth
    }

    /// Starts configuring the modulations of `source_ref`: each modulated
    /// parameter shows the source, the amount by which it modulates the
    /// parameter, and the total amount from `totals`.
    pub fn start_modulations_config(&mut self, source_ref: SourceRef, totals: std::collections::HashMap<usize, N>, zero: N)
        ensures
            final(self).modulations.config_source == Some(source_ref),
            Synth::modules_updated(old(self), final(self), ParamChange::StartConfig {
                config_source: Some(source_ref.0),
                config_amounts: config_amounts(old(self).modulations.modulations@, source_ref),
                totals: totals@,
                zero,
            }),
            Synth::same_state(old(self), final(self)),
            final(self).shows_config(),
    {
        self.modulations.start_config(source_ref);
        let config_amounts = self.modulations.get_config_amounts_by_param(source_ref);
        let config_source = match self.modulations.config_source {
            Some(source) => Some(source.0),
            None => None,
        };
        let update = ParamUpdate::StartConfig { config_source, config_amounts, totals, zero };
        self.for_each_modulated_param(&update);
    }

    /// Sets the amount by which `source_ref` modulates `param_ref` (adding
    /// the modulation where there is none), and tells whether `source_ref` is
    /// the source being configured, whose amount the parameter then shows.
    pub fn update_modulations_config(&mut self, source_ref: SourceRef, param_ref: ParamRef, config_amount: N) -> (result: (
        Option<ModulationCommand<N>>,
        bool,
    ))
        requires
            has_modulation(old(self).modulations.modulations@, source_ref, param_ref) || (has_source(
                old(self).modulations.sources@,
                source_ref,
            ) && has_param(old(self).modulations.params@, param_ref)),
        ensures
            final(self).modulations.modulations@ == updated_modulations(
                old(self).modulations.modulations@,
                old(self).modulations.sources@,
                old(self).modulations.params@,
                source_ref,
                param_ref,
                config_amount,
            ),
            result.0 == (if has_modulation(old(self).modulations.modulations@, source_ref, param_ref) {
                None
            } else {
                Some(ModulationCommand::Update { source_ref, param_ref, amount: config_amount })
            }),
            result.1 == (old(self).modulations.config_source == Some(source_ref)),
            final(self).modulations.config_source == old(self).modulations.config_source,
            Synth::modules_same(old(self), final(self)),
            Synth::same_state_but_list(old(self), final(self)),
            old(self).shows_config() ==> final(self).shows_config(),
    {
        let command = self.modulations.update_modulation(source_ref, param_ref, config_amount);
        let same_source = match self.modulations.config_source {
            Some(source) => source == source_ref,
            None => false,
        };
        (command, same_source)
    }

    /// Shows on parameter `param_ref` its new total modulation amount, and
    /// the amount `config_amount` set for `source_ref` when that is the source
    /// being configured (another source's amount is not shown).
    pub fn show_modulation_amounts(&mut self, source_ref: SourceRef, param_ref: ParamRef, config_amount: N, total_amount: N)
        ensures
            Synth::is_updated(
                old(self),
                final(self),
                ParamChange::ParamAmounts {
                    param_ref,
                    config_amount: if old(self).modulations.config_source == Some(source_ref) {
                        Some(config_amount)
                    } else {
                        None
                    },
                    total_amount,
                },
            ),
            old(self).shows_config() ==> final(self).shows_config(),
    {
        let same_source = match self.modulations.config_source {
            Some(source) => source == source_ref,
            None => false,
        };
        let config_amount = if same_source {
            Some(config_amount)
        } else {
            None
        };
        let update = ParamUpdate::ParamAmounts { param_ref, config_amount, total_amount };
        self.for_each_modulated_param(&update);
    }

    /// Shows on parameter `param_ref` its new total modulation amount, as
    /// after one of its modulations was deleted; the configured amount stays.
    pub fn show_total_amount(&mut self, param_ref: ParamRef, total_amount: N)
        ensures
            Synth::is_updated(
                old(self),
                final(self),
                ParamChange::ParamAmounts { param_ref, config_amount: None, total_amount },
            ),
            old(self).shows_config() ==> final(self).shows_config(),
    {
        let update = ParamUpdate::ParamAmounts { param_ref, config_amount: None, total_amount };
        self.for_each_modulated_param(&update);
    }

    /// Stops configuring `source_ref`. When that leaves no source being
    /// configured, no modulated parameter shows a configured source or amount
    /// any more; when another source is still being configured, every
    /// modulated parameter shows that source, with its amount as it was.
    pub fn stop_modulations_config(&mut self, source_ref: SourceRef, zero: N)
        ensures
            final(self).modulations.config_source == stopped_config(old(self).modulations.config_source, source_ref),
            Synth::modules_updated(
                old(self),
                final(self),
                ParamChange::StopConfig { config_source: source_index(final(self).modulations.config_source), zero },
            ),
            Synth::same_state(old(self), final(self)),
            final(self).shows_config(),
    {
        self.modulations.stop_config(source_ref);
        let config_source = match self.modulations.config_source {
            Some(source) => Some(source.0),
            None => None,
        };
        let update = ParamUpdate::StopConfig { config_source, zero };
        self.for_each_modulated_param(&update);
    }

    /// Deletes the modulation of `param_ref` by `source_ref`; the synth must
    /// be told of it.
    pub fn delete_modulation(&mut self, source_ref: SourceRef, param_ref: ParamRef) -> (command: ModulationCommand<N>)
        ensures
            final(self).modulations.modulations@ == deleted_modulations(
                old(self).modulations.modulations@,
                source_ref,
                param_ref,
            ),
            command == (ModulationCommand::<N>::Delete { source_ref, param_ref }),
            final(self).modulations.config_source == old(self).modulations.config_source,
            Synth::modules_same(old(self), final(self)),
            Synth::same_state_but_list(old(self), final(self)),
            old(self).shows_config() ==> final(self).shows_config(),
    {
        self.modulations.delete_modulation(source_ref, param_ref)
    }

    /// Shows what the audio thread reported: the number of active voices, the
    /// output levels, and the modulation value of each parameter, indexed by
    /// its position in the program.
    pub fn update_feedback(&mut self, active_voices: usize, left_level: AudioLevel<N>, right_level: AudioLevel<N>, modulations: Vec<N>)
        requires
            old(self).update_applies(ParamChange::ModulationValues { values: modulations@ }),
        ensures
            final(self).active_voices == active_voices,
            final(self).left_level == left_level,
            final(self).right_level == right_level,
            Synth::modules_updated(old(self), final(self), ParamChange::ModulationValues { values: modulations@ }),
            final(self).osc_index == old(self).osc_index,
            final(self).mod_index == old(self).mod_index,
            final(self).filter_index == old(self).filter_index,
            final(self).modulations.config_source == old(self).modulations.config_source,
            Synth::same_list(old(self), final(self)),
            old(self).shows_config() ==> final(self).shows_config(),
    {
        self.active_voices = active_voices;
        self.left_level = left_level;
        self.right_level = right_level;
        let update = ParamUpdate::ModulationValues { values: modulations };
        self.for_each_modulated_param(&update);
    }
}

impl<N: Copy> Synth<N> {
    /// The synth of `program` with the parameters `params`, as the user
    /// interface first shows it: no active voice, both levels at `silence`,
    /// the four oscillators, the envelope generator, the filter and the
    /// amplifier with each parameter at its initial value and no modulation
    /// (`zero`), the first module of each kind on view, and the modulations of
    /// the program grouped by source. The program has no low frequency
    /// oscillator parameters, so there are none.
    pub fn new(program: &Program<N>, params: &KiroParams, silence: AudioLevel<N>, zero: N) -> (synth: Synth<N>)
        requires
            params.refs_within(program.params@.len()),
        ensures
            synth.active_voices == 0,
            synth.left_level == silence,
            synth.right_level == silence,
            synth.osc@ == seq![
                Osc::spec_new(*program, params.osc1, zero),
                Osc::spec_new(*program, params.osc2, zero),
                Osc::spec_new(*program, params.osc3, zero),
                Osc::spec_new(*program, params.osc4, zero),
            ],
            synth.osc_index == 0,
            synth.mod_index == 0,
            synth.eg@ == seq![EnvGen::spec_new(*program, params.eg1, zero)],
            synth.lfo@ == Seq::<Lfo<N>>::empty(),
            synth.filter@ == seq![Filter::spec_new(*program, params.filt1, zero)],
            synth.filter_index == 0,
            synth.dca == Dca::spec_new(*program, params.dca, zero),
            synth.modulations.view == crate::ui::model::modulations::View::GroupBySource,
            synth.modulations.config_source == None::<SourceRef>,
            synth.modulations.sources@ == program_sources(program.sources@),
            synth.modulations.params@ == program_params(program.params@, zero),
            synth.modulations.modulations@ == program_modulations(program.sources@, program.params@),
            synth.shows_config(),
    {
        let osc = vec![
            Osc::new(program, &params.osc1, zero),
            Osc::new(program, &params.osc2, zero),
            Osc::new(program, &params.osc3, zero),
            Osc::new(program, &params.osc4, zero),
        ];
        let eg = vec![EnvGen::new(program, &params.eg1, zero)];
        let lfo: Vec<Lfo<N>> = Vec::new();
        let filter = vec![Filter::new(program, &params.filt1, zero)];
        let dca = Dca::new(program, &params.dca, zero);
        let modulations = Modulations::new(program, zero);
        Synth {
            active_voices: 0,
            left_level: silence,
            right_level: silence,
            osc,
            osc_index: 0,
            mod_index: 0,
            eg,
            lfo,
            filter,
            filter_index: 0,
            dca,
            modulations,
        }
    }
}

} // verus!
