use vstd::prelude::*;

use crate::midi::mapper::{MidiMapper, ParamMessage};

verus! {

/// A MIDI channel message, as the MIDI decoder hands it over.
#[derive(Debug, Clone, Copy, PartialEq, Eq, Structural)]
pub enum MidiMessage {
    NoteOn { channel: u8, key: u8, velocity: u8 },
    NoteOff { channel: u8, key: u8, velocity: u8 },
    PitchBend { channel: u8, value: u16 },
    ControlChange { channel: u8, controller: u8, value: u8 },
    /// Any other message, which the synth ignores.
    Other,
}

/// What the synth is to be sent for a MIDI message. Velocities are the raw
/// 7-bit MIDI values; the synth takes them divided by 127.
#[derive(Debug, Clone, Copy, PartialEq, Eq, Structural)]
pub enum SynthAction {
    NoteOn { key: u8, velocity: u8 },
    NoteOff { key: u8, velocity: u8 },
    Param(ParamMessage),
}

/// What the synth is sent for `message`: notes on any channel go through as
/// notes, pitch bend and controllers through the mapper, and everything else
/// is ignored.
pub open spec fn action_for(mapper: crate::midi::mapper::MapperModel, message: MidiMessage) -> Option<SynthAction> {
    match message {
        MidiMessage::NoteOn { key, velocity, .. } => Some(SynthAction::NoteOn { key, velocity }),
        MidiMessage::NoteOff { key, velocity, .. } => Some(SynthAction::NoteOff { key, velocity }),
        MidiMessage::PitchBend { value, .. } => match mapper.pitch_bend_message(value) {
            Some(m) => Some(SynthAction::Param(m)),
            None => None,
        },
        MidiMessage::ControlChange { controller, value, .. } => match mapper.controller_message(controller, value) {
            Some(m) => Some(SynthAction::Param(m)),
            None => None,
        },
        MidiMessage::Other => None,
    }
}

/// Turns the MIDI messages of the input into what the synth is sent.
pub struct EventsMidiHandler {
    pub midi_mapper: MidiMapper,
}

impl EventsMidiHandler {
    pub fn new(midi_mapper: MidiMapper) -> (handler: EventsMidiHandler)
        ensures
            handler.midi_mapper@ == midi_mapper@,
    {
        EventsMidiHandler { midi_mapper }
    }

    /// What the synth is to be sent for `message`, if anything.
    pub fn on_message(&self, message: MidiMessage) -> (action: Option<SynthAction>)
        requires
            message matches MidiMessage::ControlChange { controller, .. } ==> self.midi_mapper@.controller_ready(
                controller,
            ),
        ensures
            action == action_for(self.midi_mapper@, message),
    {
        match message {
            MidiMessage::NoteOn { channel: _, key, velocity } => Some(SynthAction::NoteOn { key, velocity }),
            MidiMessage::NoteOff { channel: _, key, velocity } => Some(SynthAction::NoteOff { key, velocity }),
            MidiMessage::PitchBend { channel: _, value } => match self.midi_mapper.map_midi_pitch_bend(value) {
                Some(m) => Some(SynthAction::Param(m)),
                None => None,
            },
            MidiMessage::ControlChange { channel: _, controller, value } => match self.midi_mapper.map_midi_controller(
                controller,
                value,
            ) {
                Some(m) => Some(SynthAction::Param(m)),
                None => None,
            },
            _ => None,
        }
    }
}

/// A note message becomes the same note action on every channel and
/// whatever the mapper: its key and velocity go through unchanged, and the
/// channel plays no part. A controller or pitch bend message gives the same
/// action on every channel.
pub proof fn law_notes_on_every_channel(
    mapper: crate::midi::mapper::MapperModel,
    other: crate::midi::mapper::MapperModel,
    channel: u8,
    other_channel: u8,
    key: u8,
    velocity: u8,
    controller: u8,
    value: u8,
    bend: u16,
)
    ensures
        action_for(mapper, MidiMessage::NoteOn { channel, key, velocity }) == Some(SynthAction::NoteOn { key, velocity }),
        action_for(mapper, MidiMessage::NoteOff { channel, key, velocity }) == Some(SynthAction::NoteOff { key, velocity }),
        action_for(mapper, MidiMessage::NoteOn { channel, key, velocity })
            == action_for(other, MidiMessage::NoteOn { channel: other_channel, key, velocity }),
        action_for(mapper, MidiMessage::NoteOff { channel, key, velocity })
            == action_for(other, MidiMessage::NoteOff { channel: other_channel, key, velocity }),
        action_for(mapper, MidiMessage::ControlChange { channel, controller, value })
            == action_for(mapper, MidiMessage::ControlChange { channel: other_channel, controller, value }),
        action_for(mapper, MidiMessage::PitchBend { channel, value: bend })
            == action_for(mapper, MidiMessage::PitchBend { channel: other_channel, value: bend }),
        action_for(mapper, MidiMessage::Other) == None::<SynthAction>,
{
}

} // verus!
