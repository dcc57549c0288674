use vstd::prelude::*;

verus! {

/// Fills the modulation feedback of the parameters: the entry of parameter
/// `i` becomes the value of the signal that carries its modulation,
/// `signals[mod_signal_refs[i]]`; entries past the parameters keep their
/// value.
pub fn gather_modulations<S: Copy>(mod_signal_refs: &Vec<usize>, signals: &Vec<S>, modulations: &mut Vec<S>)
    requires
        mod_signal_refs@.len() <= old(modulations)@.len(),
        forall|i: int| 0 <= i < mod_signal_refs@.len() ==> #[trigger] mod_signal_refs@[i] < signals@.len(),
    ensures
        final(modulations)@.len() == old(modulations)@.len(),
        forall|i: int| 0 <= i < mod_signal_refs@.len() ==> #[trigger] final(modulations)@[i] == signals@[mod_signal_refs@[i] as int],
        forall|i: int| mod_signal_refs@.len() <= i < old(modulations)@.len() ==> #[trigger] final(modulations)@[i] == old(modulations)@[i],
{
    let n = mod_signal_refs.len();
    for index in 0..n
        invariant
            n == mod_signal_refs@.len(),
            n <= old(modulations)@.len(),
            modulations@.len() == old(modulations)@.len(),
            forall|i: int| 0 <= i < n ==> #[trigger] mod_signal_refs@[i] < signals@.len(),
            forall|i: int| 0 <= i < index ==> #[trigger] modulations@[i] == signals@[mod_signal_refs@[i] as int],
            forall|i: int| index <= i < old(modulations)@.len() ==> #[trigger] modulations@[i] == old(modulations)@[i],
    {
        let signal_index = mod_signal_refs[index];
        modulations.set(index, signals[signal_index]);
    }
}

} // verus!
