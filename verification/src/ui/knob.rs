use vstd::prelude::*;

verus! {

/// What a simple knob shows: a value and the
/// modulation applied to it.
#[derive(Debug, Clone, Copy, PartialEq, Eq, Structural)]
pub struct KnobModel<N> {
    pub value: N,
    pub modulation: N,
}

impl<N: Copy> KnobModel<N> {
    pub fn new(value: N, modulation: N) -> (model: KnobModel<N>)
        ensures
            model == (KnobModel { value, modulation }),
    {
        KnobModel { value, modulation }
    }
}

} // verus!
