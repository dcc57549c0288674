pub mod coremidi;
pub mod jackmidi;

use vstd::prelude::*;

use crate::midi::drivers::coremidi::CoreMidiError;
use crate::midi::drivers::jackmidi::JackMidiError;

verus! {

/// The error of the platform's MIDI driver: CoreMidi on macOS, Jack on Linux.
#[derive(Debug, Clone, PartialEq, Eq)]
pub enum MidiErrorSource {
    CoreMidi(CoreMidiError),
    Jack(JackMidiError),
}

/// Why the MIDI input could not be set up.
#[derive(Debug, Clone, PartialEq, Eq)]
pub enum MidiError {
    /// The MIDI driver could not be initialised.
    DriverInit(MidiErrorSource),
}

impl From<MidiErrorSource> for MidiError {
    fn from(source: MidiErrorSource) -> (error: MidiError) {
        MidiError::DriverInit(source)
    }
}

impl vstd::std_specs::convert::FromSpecImpl<MidiErrorSource> for MidiError {
    open spec fn obeys_from_spec() -> bool {
        true
    }

    open spec fn from_spec(source: MidiErrorSource) -> MidiError {
        MidiError::DriverInit(source)
    }
}

} // verus!
