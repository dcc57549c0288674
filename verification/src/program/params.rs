use vstd::prelude::*;

use crate::refs::ParamRef;

verus! {

/// A reference to one signal of the synth program.
#[derive(Debug, Clone, Copy, PartialEq, Eq, Structural)]
pub struct SignalRef(pub usize);

/// A parameter of the synth program: its reference, and the signal that
/// carries its value to the blocks that read it.
#[derive(Debug, Clone, Copy, PartialEq, Eq, Structural)]
pub struct ParamBlock {
    pub reference: ParamRef,
    pub signal: SignalRef,
}

/// The parameters of an envelope generator.
#[derive(Debug, Clone, Copy, PartialEq, Eq, Structural)]
pub struct EnvGenParams {
    pub attack: ParamBlock,
    pub decay: ParamBlock,
    pub sustain: ParamBlock,
    pub release: ParamBlock,
    pub mode: ParamBlock,
    pub legato: ParamBlock,
    pub reset_to_zero: ParamBlock,
    pub dca_mod: ParamBlock,
}

impl EnvGenParams {
    /// Whether every parameter refers to one of the first `n` parameters of
    /// the program.
    pub open spec fn refs_within(self, n: nat) -> bool {
        &&& self.attack.reference.0 < n
        &&& self.decay.reference.0 < n
        &&& self.sustain.reference.0 < n
        &&& self.release.reference.0 < n
        &&& self.mode.reference.0 < n
        &&& self.legato.reference.0 < n
        &&& self.reset_to_zero.reference.0 < n
        &&& self.dca_mod.reference.0 < n
    }

    /// The parameter blocks, in the order in which they are added to the
    /// program.
    pub open spec fn spec_param_blocks(self) -> Seq<ParamBlock> {
        seq![self.attack, self.decay, self.sustain, self.release, self.mode, self.legato, self.reset_to_zero, self.dca_mod]
    }

    /// The parameter blocks, in the order in which they are added to the
    /// program.
    pub fn param_blocks(&self) -> (blocks: Vec<ParamBlock>)
        ensures
            blocks@ == self.spec_param_blocks(),
    {
        let mut blocks: Vec<ParamBlock> = Vec::new();
        blocks.push(self.attack);
        blocks.push(self.decay);
        blocks.push(self.sustain);
        blocks.push(self.release);
        blocks.push(self.mode);
        blocks.push(self.legato);
        blocks.push(self.reset_to_zero);
        blocks.push(self.dca_mod);
        blocks
    }
}

/// The parameters of a low frequency oscillator.
#[derive(Debug, Clone, Copy, PartialEq, Eq, Structural)]
pub struct LfoParams {
    pub shape: ParamBlock,
    pub rate: ParamBlock,
    pub phase: ParamBlock,
    pub depth: ParamBlock,
}

impl LfoParams {
    /// Whether every parameter refers to one of the first `n` parameters of
    /// the program.
    pub open spec fn refs_within(self, n: nat) -> bool {
        &&& self.shape.reference.0 < n
        &&& self.rate.reference.0 < n
        &&& self.phase.reference.0 < n
        &&& self.depth.reference.0 < n
    }

    /// The parameter blocks, in the order in which they are added to the
    /// program.
    pub open spec fn spec_param_blocks(self) -> Seq<ParamBlock> {
        seq![self.shape, self.rate, self.phase, self.depth]
    }

    /// The parameter blocks, in the order in which they are added to the
    /// program.
    pub fn param_blocks(&self) -> (blocks: Vec<ParamBlock>)
        ensures
            blocks@ == self.spec_param_blocks(),
    {
        let mut blocks: Vec<ParamBlock> = Vec::new();
        blocks.push(self.shape);
        blocks.push(self.rate);
        blocks.push(self.phase);
        blocks.push(self.depth);
        blocks
    }
}

/// The parameters of an oscillator.
#[derive(Debug, Clone, Copy, PartialEq, Eq, Structural)]
pub struct OscParams {
    pub shape: ParamBlock,
    pub amplitude: ParamBlock,
    pub octaves: ParamBlock,
    pub semitones: ParamBlock,
    pub cents: ParamBlock,
}

impl OscParams {
    /// Whether every parameter refers to one of the first `n` parameters of
    /// the program.
    pub open spec fn refs_within(self, n: nat) -> bool {
        &&& self.shape.reference.0 < n
        &&& self.amplitude.reference.0 < n
        &&& self.octaves.reference.0 < n
        &&& self.semitones.reference.0 < n
        &&& self.cents.reference.0 < n
    }

    /// The parameter blocks, in the order in which they are added to the
    /// program.
    pub open spec fn spec_param_blocks(self) -> Seq<ParamBlock> {
        seq![self.shape, self.amplitude, self.octaves, self.semitones, self.cents]
    }

    /// The parameter blocks, in the order in which they are added to the
    /// program.
    pub fn param_blocks(&self) -> (blocks: Vec<ParamBlock>)
        ensures
            blocks@ == self.spec_param_blocks(),
    {
        let mut blocks: Vec<ParamBlock> = Vec::new();
        blocks.push(self.shape);
        blocks.push(self.amplitude);
        blocks.push(self.octaves);
        blocks.push(self.semitones);
        blocks.push(self.cents);
        blocks
    }
}

/// The parameters of a filter.
#[derive(Debug, Clone, Copy, PartialEq, Eq, Structural)]
pub struct FilterParams {
    pub mode: ParamBlock,
    pub freq: ParamBlock,
    pub q: ParamBlock,
}

impl FilterParams {
    /// Whether every parameter refers to one of the first `n` parameters of
    /// the program.
    pub open spec fn refs_within(self, n: nat) -> bool {
        &&& self.mode.reference.0 < n
        &&& self.freq.reference.0 < n
        &&& self.q.reference.0 < n
    }

    /// The parameter blocks, in the order in which they are added to the
    /// program.
    pub open spec fn spec_param_blocks(self) -> Seq<ParamBlock> {
        seq![self.mode, self.freq, self.q]
    }

    /// The parameter blocks, in the order in which they are added to the
    /// program.
    pub fn param_blocks(&self) -> (blocks: Vec<ParamBlock>)
        ensures
            blocks@ == self.spec_param_blocks(),
    {
        let mut blocks: Vec<ParamBlock> = Vec::new();
        blocks.push(self.mode);
        blocks.push(self.freq);
        blocks.push(self.q);
        blocks
    }
}

/// The parameters of the amplifier.
#[derive(Debug, Clone, Copy, PartialEq, Eq, Structural)]
pub struct DcaParams {
    pub amplitude: ParamBlock,
    pub pan: ParamBlock,
}

impl DcaParams {
    /// Whether every parameter refers to one of the first `n` parameters of
    /// the program.
    pub open spec fn refs_within(self, n: nat) -> bool {
        &&& self.amplitude.reference.0 < n
        &&& self.pan.reference.0 < n
    }

    /// The parameter blocks, in the order in which they are added to the
    /// program.
    pub open spec fn spec_param_blocks(self) -> Seq<ParamBlock> {
        seq![self.amplitude, self.pan]
    }

    /// The parameter blocks, in the order in which they are added to the
    /// program.
    pub fn param_blocks(&self) -> (blocks: Vec<ParamBlock>)
        ensures
            blocks@ == self.spec_param_blocks(),
    {
        let mut blocks: Vec<ParamBlock> = Vec::new();
        blocks.push(self.amplitude);
        blocks.push(self.pan);
        blocks
    }
}

} // verus!
