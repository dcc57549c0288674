use vstd::prelude::*;

verus! {

/// A status code returned by CoreMidi.
#[derive(Debug, Clone, Copy, PartialEq, Eq, Structural)]
pub struct OSStatusError(pub i32);

/// Why the CoreMidi driver could not be set up.
#[derive(Debug, Clone, Copy, PartialEq, Eq, Structural)]
pub enum CoreMidiError {
    /// Creating the CoreMidi client failed.
    ClientCreate(OSStatusError),
    /// Creating the input port failed.
    PortCreate(OSStatusError),
}

} // verus!
