//! Host-side logic of the Kiro synthesizer: the MIDI controller mapping tables,
//! the filling of audio buffers, the modulation list shown by the user
//! interface, and the user interface's data model.
pub mod audio;
pub mod midi;
pub mod midi_mapper;
pub mod program;
pub mod refs;
pub mod synth;
pub mod ui;
