use vstd::prelude::*;

use crate::program::{Program, ProgramParam};
use crate::refs::ParamRef;
use crate::ui::knob::KnobModel;
use crate::ui::widgets::knob::{KnobData, KnobModulationData};

verus! {

/// One parameter of the synth as the user interface shows it. `N` is the
/// number type of its values (the user interface uses `f64`).
#[derive(Debug, Clone)]
pub struct Param<N> {
    pub param_ref: ParamRef,
    /// The parameter's identifier in the synth program, `"osc1-shape"` say.
    pub name: String,
    pub origin: N,
    pub min: N,
    pub max: N,
    pub step: N,
    pub value: N,
    pub modulation: KnobModulationData<N>,
}

impl<N: Copy> Param<N> {
    /// The same parameter, drawn from another origin.
    pub fn with_origin(self, origin: N) -> (param: Param<N>)
        ensures
            param == (Param { origin, ..self }),
    {
        Param { origin, ..self }
    }

    /// A copy of the parameter.
    pub fn duplicate(&self) -> (param: Param<N>)
        ensures
            param == *self,
    {
        Param {
            param_ref: self.param_ref,
            name: self.name.clone(),
            origin: self.origin,
            min: self.min,
            max: self.max,
            step: self.step,
            value: self.value,
            modulation: self.modulation,
        }
    }
}

/// The parameter `param_ref` of the program as the user interface first
/// shows it: at its initial value, with no modulation (`zero`).
pub open spec fn param_from<N>(param_ref: ParamRef, param: ProgramParam<N>, zero: N) -> Param<N> {
    Param {
        param_ref,
        name: param.id,
        origin: param.values.origin,
        min: param.values.min,
        max: param.values.max,
        step: param.values.resolution,
        value: param.values.initial_value,
        modulation: KnobModulationData { value: zero, config_source: None, config_amount: zero, total_amount: zero },
    }
}

impl<N: Copy> Param<N> {
    /// The parameter `param_ref` of the program, described by `param`, as
    /// the user interface first shows it.
    pub fn from(param_ref: ParamRef, param: &ProgramParam<N>, zero: N) -> (shown: Param<N>)
        ensures
            shown == param_from(param_ref, *param, zero),
    {
        Param {
            param_ref,
            name: param.id.clone(),
            origin: param.values.origin,
            min: param.values.min,
            max: param.values.max,
            step: param.values.resolution,
            value: param.values.initial_value,
            modulation: KnobModulationData::new(zero, None, zero, zero),
        }
    }

    /// The parameter `param_ref` of `program` as the user interface first
    /// shows it; the program must have it.
    pub fn new(program: &Program<N>, param_ref: ParamRef, zero: N) -> (shown: Param<N>)
        requires
            param_ref.0 < program.params@.len(),
        ensures
            shown == param_from(param_ref, program.params@[param_ref.0 as int], zero),
    {
        Self::from(param_ref, &program.params[param_ref.0], zero)
    }
}

/// What the knob of `param` shows; the parameter itself is its context.
pub open spec fn knob_view<N>(param: Param<N>) -> KnobData<N, Param<N>> {
    KnobData {
        origin: param.origin,
        min: param.min,
        max: param.max,
        step: param.step,
        value: param.value,
        modulation: param.modulation,
        context: param,
    }
}

/// The parameter after its knob was turned to `knob.value`: the knob changes
/// the value alone, everything else it shows is read-only.
pub open spec fn put_knob_value<N, T>(param: Param<N>, knob: KnobData<N, T>) -> Param<N> {
    Param { value: knob.value, ..param }
}

/// The lens from a parameter to the data of its knob.
pub struct KnobDataFromParam;

impl KnobDataFromParam {
    /// The data of the knob of `data`.
    pub fn knob_data<N: Copy>(&self, data: &Param<N>) -> (knob: KnobData<N, Param<N>>)
        ensures
            knob == knob_view(*data),
    {
        KnobData::new(data.origin, data.min, data.max, data.step, data.value, data.modulation, data.duplicate())
    }

    /// Calls `f` on the data of the knob of `data`.
    pub fn with<N: Copy, V, F: FnOnce(&KnobData<N, Param<N>>) -> V>(&self, data: &Param<N>, f: F) -> (result: V)
        requires
            f.requires((&knob_view(*data),)),
        ensures
            f.ensures((&knob_view(*data),), result),
    {
        let knob_data = self.knob_data(data);
        f(&knob_data)
    }

    /// Copies back to `data` what the knob may change: its value.
    pub fn write_back<N: Copy>(&self, data: &mut Param<N>, knob_data: &KnobData<N, Param<N>>)
        ensures
            *final(data) == put_knob_value(*old(data), *knob_data),
    {
        data.value = knob_data.value;
    }
}

/// What a simple knob shows of `param`: its value and its modulation value.
pub open spec fn knob_model<N>(param: Param<N>) -> KnobModel<N> {
    KnobModel { value: param.value, modulation: param.modulation.value }
}

/// The lens from a parameter to a simple knob model.
pub struct ParamToKnobData;

impl ParamToKnobData {
    /// The knob model of `data`.
    pub fn knob_model<N: Copy>(&self, data: &Param<N>) -> (knob: KnobModel<N>)
        ensures
            knob == knob_model(*data),
    {
        KnobModel::new(data.value, data.modulation.value)
    }

    /// Calls `f` on the knob model of `data`.
    pub fn with<N: Copy, V, F: FnOnce(&KnobModel<N>) -> V>(&self, data: &Param<N>, f: F) -> (result: V)
        requires
            f.requires((&knob_model(*data),)),
        ensures
            f.ensures((&knob_model(*data),), result),
    {
        let knob = self.knob_model(data);
        f(&knob)
    }

    /// Copies back to `data` what the knob may change: its value (the
    /// modulation is read-only for the knob).
    pub fn write_back<N: Copy>(&self, data: &mut Param<N>, knob: &KnobModel<N>)
        ensures
            *final(data) == (Param { value: knob.value, ..*old(data) }),
    {
        data.value = knob.value;
    }
}

/// Writing back the data of a knob that was not turned leaves the parameter
/// as it was; after a write-back the knob shows the written value; and of two
/// write-backs the second alone counts.
pub proof fn law_knob_lens<N, T, U>(param: Param<N>, first: KnobData<N, T>, second: KnobData<N, U>)
    ensures
        put_knob_value(param, knob_view(param)) == param,
        knob_view(put_knob_value(param, first)).value == first.value,
        put_knob_value(put_knob_value(param, first), second) == put_knob_value(param, second),
{
}

/// A change that the user interface makes to the modulation shown on each
/// modulated parameter. Sums of amounts are made by the caller, in the number
/// type of the amounts; `zero` stands for an absent amount.
pub enum ParamUpdate<N> {
    /// Show as total amount of each parameter its entry in `totals`.
    TotalAmounts { totals: std::collections::HashMap<usize, N>, zero: N },
    /// Enter configuration of `config_source`: show its amount for each
    /// parameter from `config_amounts`, and the totals from `totals`.
    StartConfig {
        config_source: Option<usize>,
        config_amounts: std::collections::HashMap<usize, N>,
        totals: std::collections::HashMap<usize, N>,
        zero: N,
    },
    /// Stop configuring a source; `config_source` is the source that is
    /// still being configured after that, if any. With none, no source and no
    /// configured amount are shown; with one, that source is shown, with the
    /// amount as it was.
    StopConfig { config_source: Option<usize>, zero: N },
    /// For the parameter `param_ref` alone: show `total_amount`, and the
    /// configured amount when one is given.
    ParamAmounts { param_ref: ParamRef, config_amount: Option<N>, total_amount: N },
    /// Show as modulation value of each parameter its entry in `values`,
    /// indexed by the parameter's position in the program.
    ModulationValues { values: Vec<N> },
}

/// What a `ParamUpdate` does, over the contents of its maps and lists.
pub enum ParamChange<N> {
    TotalAmounts { totals: Map<usize, N>, zero: N },
    StartConfig { config_source: Option<usize>, config_amounts: Map<usize, N>, totals: Map<usize, N>, zero: N },
    StopConfig { config_source: Option<usize>, zero: N },
    ParamAmounts { param_ref: ParamRef, config_amount: Option<N>, total_amount: N },
    ModulationValues { values: Seq<N> },
}

impl<N> View for ParamUpdate<N> {
    type V = ParamChange<N>;

    open spec fn view(&self) -> ParamChange<N> {
        match self {
            ParamUpdate::TotalAmounts { totals, zero } => ParamChange::TotalAmounts { totals: totals@, zero: *zero },
            ParamUpdate::StartConfig { config_source, config_amounts, totals, zero } => ParamChange::StartConfig {
                config_source: *config_source,
                config_amounts: config_amounts@,
                totals: totals@,
                zero: *zero,
            },
            ParamUpdate::StopConfig { config_source, zero } => ParamChange::StopConfig {
                config_source: *config_source,
                zero: *zero,
            },
            ParamUpdate::ParamAmounts { param_ref, config_amount, total_amount } => ParamChange::ParamAmounts {
                param_ref: *param_ref,
                config_amount: *config_amount,
                total_amount: *total_amount,
            },
            ParamUpdate::ModulationValues { values } => ParamChange::ModulationValues { values: values@ },
        }
    }
}

/// The entry of `key` in `amounts`, or `zero` where it has none.
pub open spec fn amount_or<N>(amounts: Map<usize, N>, key: usize, zero: N) -> N {
    if amounts.contains_key(key) {
        amounts[key]
    } else {
        zero
    }
}

/// Whether `change` can be made to `param` (a modulation value must exist
/// for its position).
pub open spec fn update_applies<N>(change: ParamChange<N>, param: Param<N>) -> bool {
    match change {
        ParamChange::ModulationValues { values } => param.param_ref.0 < values.len(),
        _ => true,
    }
}

/// `param` after `change`.
pub open spec fn updated_param<N>(change: ParamChange<N>, param: Param<N>) -> Param<N> {
    let key = param.param_ref.0;
    let m = param.modulation;
    match change {
        ParamChange::TotalAmounts { totals, zero } => Param {
            modulation: KnobModulationData { total_amount: amount_or(totals, key, zero), ..m },
            ..param
        },
        ParamChange::StartConfig { config_source, config_amounts, totals, zero } => Param {
            modulation: KnobModulationData {
                config_source,
                config_amount: amount_or(config_amounts, key, zero),
                total_amount: amount_or(totals, key, zero),
                ..m
            },
            ..param
        },
        ParamChange::StopConfig { config_source, zero } => match config_source {
            None => Param {
                modulation: KnobModulationData { config_source: None, config_amount: zero, ..m },
                ..param
            },
            Some(source) => Param {
                modulation: KnobModulationData { config_source: Some(source), ..m },
                ..param
            },
        },
        ParamChange::ParamAmounts { param_ref, config_amount, total_amount } => if param.param_ref == param_ref {
            Param {
                modulation: KnobModulationData {
                    config_amount: match config_amount {
                        Some(amount) => amount,
                        None => m.config_amount,
                    },
                    total_amount,
                    ..m
                },
                ..param
            }
        } else {
            param
        },
        ParamChange::ModulationValues { values } => Param {
            modulation: KnobModulationData { value: values[key as int], ..m },
            ..param
        },
    }
}

fn amount_of<N: Copy>(amounts: &std::collections::HashMap<usize, N>, key: usize, zero: N) -> (amount: N)
    ensures
        amount == amount_or(amounts@, key, zero),
{
    broadcast use vstd::std_specs::hash::group_hash_axioms;
    match amounts.get(&key) {
        Some(amount) => *amount,
        None => zero,
    }
}

impl<N: Copy> Param<N> {
    /// Makes `update` to this parameter.
    pub fn apply(&mut self, update: &ParamUpdate<N>)
        requires
            update_applies(update@, *old(self)),
        ensures
            *final(self) == updated_param(update@, *old(self)),
    {
        let key = self.param_ref.0;
        match update {
            ParamUpdate::TotalAmounts { totals, zero } => {
                self.modulation.total_amount = amount_of(totals, key, *zero);
            },
            ParamUpdate::StartConfig { config_source, config_amounts, totals, zero } => {
                self.modulation.config_source = *config_source;
                self.modulation.config_amount = amount_of(config_amounts, key, *zero);
                self.modulation.total_amount = amount_of(totals, key, *zero);
            },
            ParamUpdate::StopConfig { config_source, zero } => {
                match config_source {
                    None => {
                        self.modulation.config_source = None;
                        self.modulation.config_amount = *zero;
                    },
                    Some(source) => {
                        self.modulation.config_source = Some(*source);
                    },
                }
            },
            ParamUpdate::ParamAmounts { param_ref, config_amount, total_amount } => {
                if self.param_ref == *param_ref {
                    if let Some(amount) = config_amount {
                        self.modulation.config_amount = *amount;
                    }
                    self.modulation.total_amount = *total_amount;
                }
            },
            ParamUpdate::ModulationValues { values } => {
                self.modulation.value = values[key];
            },
        }
    }
}

/// Starting the configuration of a source shows it, with its amount and the
/// total amount, on every parameter; stopping it again leaves no source and
/// no configured amount, and keeps the total amount, the value and the
/// modulation value as they were; stopping another source, while this one is
/// still being configured, leaves the parameter showing it, as it was.
pub proof fn law_config_start_then_stop<N>(
    param: Param<N>,
    source: usize,
    config_amounts: Map<usize, N>,
    totals: Map<usize, N>,
    zero: N,
)
    ensures
        ({
            let started = updated_param(
                ParamChange::StartConfig { config_source: Some(source), config_amounts, totals, zero },
                param,
            );
            let stopped = updated_param(ParamChange::StopConfig { config_source: None, zero }, started);
            let kept = updated_param(ParamChange::StopConfig { config_source: Some(source), zero }, started);
            &&& started.modulation.config_source == Some(source)
            &&& started.modulation.config_amount == amount_or(config_amounts, param.param_ref.0, zero)
            &&& started.modulation.total_amount == amount_or(totals, param.param_ref.0, zero)
            &&& stopped.modulation.config_source == None::<usize>
            &&& stopped.modulation.config_amount == zero
            &&& stopped.modulation.total_amount == started.modulation.total_amount
            &&& stopped.modulation.value == param.modulation.value
            &&& stopped.value == param.value
            &&& kept == started
        }),
{
}

/// Whether `shown` shows parameter `param_ref` of `program` as the user
/// interface first shows it: its reference, its identifier, its initial value,
/// its range and resolution, the origin `origin`, and no modulation (`zero`).
pub open spec fn shows_program_param<N>(shown: Param<N>, param_ref: ParamRef, program: Program<N>, origin: N, zero: N) -> bool {
    let values = program.params@[param_ref.0 as int].values;
    &&& shown.param_ref == param_ref
    &&& shown.name == program.params@[param_ref.0 as int].id
    &&& shown.value == values.initial_value
    &&& shown.min == values.min
    &&& shown.max == values.max
    &&& shown.step == values.resolution
    &&& shown.origin == origin
    &&& shown.modulation.value == zero
    &&& shown.modulation.config_source == None::<usize>
    &&& shown.modulation.config_amount == zero
    &&& shown.modulation.total_amount == zero
}

/// A parameter as the user interface first shows it keeps the reference it
/// was made for and takes each of its values from the same-named value of the
/// program's parameter: initial value, origin, minimum, maximum and
/// resolution as step.
pub proof fn law_param_from_program<N>(program: Program<N>, param_ref: ParamRef, zero: N)
    ensures
        shows_program_param(
            param_from(param_ref, program.params@[param_ref.0 as int], zero),
            param_ref,
            program,
            program.params@[param_ref.0 as int].values.origin,
            zero,
        ),
{
}

} // verus!
