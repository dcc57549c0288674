use kiro_synth_host::midi::mapper::MidiInput;
use kiro_synth_host::midi_mapper::{MidiMapper, ParamMessage, Transform};

#[test]
fn transforms_read_seven_or_fourteen_bits() {
    assert_eq!(Transform::UnipolarU7.param_input_from(200), MidiInput::U7(72));
    assert_eq!(Transform::BipolarU7.param_input_from(127), MidiInput::U7(127));
    assert_eq!(Transform::MinMaxU7.param_input_from(128), MidiInput::U7(0));
    assert_eq!(Transform::UnipolarU14.param_input_from(16384 + 3), MidiInput::U14(3));
    assert_eq!(Transform::BipolarU14.param_input_from(8192), MidiInput::U14(8192));
    assert_eq!(Transform::MinMaxU14.param_input_from(16383), MidiInput::U14(16383));
}

#[test]
fn legacy_pitch_bend_and_controllers() {
    let mut mapper = MidiMapper::new();
    assert_eq!(mapper.map_midi_pitch_bend(1), None);
    assert_eq!(mapper.map_midi_controller(7, 1), None);

    mapper.pitch_bend(Some(2));
    mapper.controller(7, Some(5));
    mapper.controller(8, None);
    assert_eq!(
        mapper.map_midi_pitch_bend(300),
        Some(ParamMessage { index: 2, transform: Transform::MinMaxU14, input: MidiInput::U14(300) })
    );
    assert_eq!(
        mapper.map_midi_controller(7, 100),
        Some(ParamMessage { index: 5, transform: Transform::MinMaxU7, input: MidiInput::U7(100) })
    );
    assert_eq!(mapper.map_midi_controller(8, 100), None);

    mapper.controller(7, Some(6));
    assert_eq!(
        mapper.map_midi_controller(7, 1),
        Some(ParamMessage { index: 6, transform: Transform::MinMaxU7, input: MidiInput::U7(1) })
    );
}
