pub mod kiro;
pub mod params;

use vstd::prelude::*;

use crate::refs::{ParamRef, SourceRef};

verus! {

/// The range of values of a parameter of the synth program. `F` is the
/// number type of the values.
#[derive(Debug, Clone, Copy, PartialEq, Eq, Structural)]
pub struct ParamValues<F> {
    pub initial_value: F,
    pub origin: F,
    pub min: F,
    pub max: F,
    pub resolution: F,
}

/// The modulation of a parameter by a source, by `amount`.
#[derive(Debug, Clone, Copy, PartialEq, Eq, Structural)]
pub struct ParamModulation<F> {
    pub source_ref: SourceRef,
    pub amount: F,
}

/// A parameter of the synth program: its identifier, its values and the
/// modulations that act on it.
#[derive(Debug, Clone)]
pub struct ProgramParam<F> {
    pub id: String,
    pub values: ParamValues<F>,
    pub modulations: Vec<ParamModulation<F>>,
}

/// A modulation source of the synth program.
#[derive(Debug, Clone)]
pub struct ProgramSource {
    pub id: String,
}

/// What the user interface reads of the synth program: its modulation
/// sources and its parameters, each at the position that its reference
/// holds.
#[derive(Debug, Clone)]
pub struct Program<F> {
    pub sources: Vec<ProgramSource>,
    pub params: Vec<ProgramParam<F>>,
}

impl<F> Program<F> {
    /// The source that `source_ref` refers to, if the program has it.
    pub fn get_source(&self, source_ref: SourceRef) -> (source: Option<&ProgramSource>)
        ensures
            source is Some <==> source_ref.0 < self.sources@.len(),
            source matches Some(s) ==> *s == self.sources@[source_ref.0 as int],
    {
        if source_ref.0 < self.sources.len() {
            Some(&self.sources[source_ref.0])
        } else {
            None
        }
    }

    /// The parameter that `param_ref` refers to, if the program has it.
    pub fn get_param(&self, param_ref: ParamRef) -> (param: Option<&ProgramParam<F>>)
        ensures
            param is Some <==> param_ref.0 < self.params@.len(),
            param matches Some(p) ==> *p == self.params@[param_ref.0 as int],
    {
        if param_ref.0 < self.params.len() {
            Some(&self.params[param_ref.0])
        } else {
            None
        }
    }
}

} // verus!
