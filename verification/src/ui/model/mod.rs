pub mod dca;
pub mod eg;
pub mod filter;
pub mod lfo;
pub mod modulations;
pub mod oscillators;
pub mod param;
pub mod synth;

use vstd::prelude::*;

use crate::ui::model::synth::Synth;

verus! {

/// The lens from the synth to a tab index that is always 0: the amplifier,
/// of which there is one, is always the tab on view.
pub struct ZeroIndex;

impl ZeroIndex {
    /// The index that the lens shows: 0. Writing to it changes nothing.
    pub fn index<N>(&self, data: &Synth<N>) -> (index: usize)
        ensures
            index == 0,
    {
        0
    }

    /// Calls `f` on the index 0.
    pub fn with<N, V, F: FnOnce(&usize) -> V>(&self, data: &Synth<N>, f: F) -> (result: V)
        requires
            f.requires((&0usize,)),
        ensures
            f.ensures((&0usize,), result),
    {
        f(&0usize)
    }
}

} // verus!
