use vstd::prelude::*;

verus! {

/// A reference to one parameter of the synth program: its position in the
/// program's parameter list.
#[derive(Debug, Clone, Copy, PartialEq, Eq, Structural, Hash)]
pub struct ParamRef(pub usize);

/// A reference to one modulation source of the synth program: its position in
/// the program's source list.
#[derive(Debug, Clone, Copy, PartialEq, Eq, Structural, Hash)]
pub struct SourceRef(pub usize);

impl ParamRef {
    pub fn new(index: usize) -> (r: ParamRef)
        ensures
            r.0 == index,
    {
        ParamRef(index)
    }

    /// The position of the parameter in the program.
    pub fn index(&self) -> (index: usize)
        ensures
            index == self.0,
    {
        self.0
    }
}

impl SourceRef {
    pub fn new(index: usize) -> (r: SourceRef)
        ensures
            r.0 == index,
    {
        SourceRef(index)
    }

    /// The position of the source in the program.
    pub fn index(&self) -> (index: usize)
        ensures
            index == self.0,
    {
        self.0
    }
}

} // verus!
