use vstd::prelude::*;

verus! {

/// The modulation shown around a knob. `N` is the number type of its values
/// (the user interface uses `f64`).
#[derive(Debug, Clone, Copy, PartialEq, Eq, Structural)]
pub struct KnobModulationData<N> {
    /// The value of the modulation applied to the parameter, as the audio
    /// thread last reported it.
    pub value: N,
    /// While in configuration mode, the index of the source being configured.
    pub config_source: Option<usize>,
    /// The amount of modulation from the configured source.
    pub config_amount: N,
    /// The total amount of modulation from all the connected sources.
    pub total_amount: N,
}

impl<N: Copy> KnobModulationData<N> {
    pub fn new(value: N, config_source: Option<usize>, config_amount: N, total_amount: N) -> (data: KnobModulationData<N>)
        ensures
            data == (KnobModulationData { value, config_source, config_amount, total_amount }),
    {
        KnobModulationData { value, config_source, config_amount, total_amount }
    }
}

/// What a knob shows: the range, the step and the value of a parameter, its
/// modulation, and a context that the knob passes back to its callback.
#[derive(Debug, Clone)]
pub struct KnobData<N, T> {
    pub origin: N,
    pub min: N,
    pub max: N,
    pub step: N,
    pub value: N,
    pub modulation: KnobModulationData<N>,
    pub context: T,
}

impl<N: Copy, T> KnobData<N, T> {
    /// A knob over `min..=max` by `step`, drawn from `origin`, at `value`,
    /// with the given modulation.
    pub fn new(
        origin: N,
        min: N,
        max: N,
        step: N,
        value: N,
        modulation: KnobModulationData<N>,
        context: T,
    ) -> (data: KnobData<N, T>)
        ensures
            data == (KnobData { origin, min, max, step, value, modulation, context }),
    {
        KnobData { origin, min, max, step, value, modulation, context }
    }

    /// The same knob with another modulation.
    pub fn with_modulation(self, modulation_data: KnobModulationData<N>) -> (data: KnobData<N, T>)
        ensures
            data == (KnobData { modulation: modulation_data, ..self }),
    {
        KnobData { modulation: modulation_data, ..self }
    }
}

} // verus!
