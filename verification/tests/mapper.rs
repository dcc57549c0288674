use kiro_synth_host::midi::mapper::{MidiInput, MidiMapper, ParamMessage, Transform};
use kiro_synth_host::refs::ParamRef;

#[test]
fn transform_inputs_keep_low_bits() {
    assert_eq!(Transform::MinMaxU14.param_input_from(0), MidiInput::U14(0));
    assert_eq!(Transform::MinMaxU14.param_input_from(16383), MidiInput::U14(16383));
    assert_eq!(Transform::MinMaxU14.param_input_from(16384 + 5), MidiInput::U14(5));
    assert_eq!(Transform::Relative64.param_input_from(64), MidiInput::Steps(0));
    assert_eq!(Transform::Relative64.param_input_from(65), MidiInput::Steps(1));
    assert_eq!(Transform::Relative64.param_input_from(63), MidiInput::Steps(-1));
    assert_eq!(Transform::Relative64.param_input_from(0), MidiInput::Steps(-64));
    assert_eq!(Transform::Relative64.param_input_from(127), MidiInput::Steps(63));
    assert_eq!(Transform::Relative64.param_input_from(128 + 66), MidiInput::Steps(2));
}

#[test]
fn new_mapper_maps_nothing() {
    let mapper = MidiMapper::new();
    assert_eq!(mapper.map_midi_pitch_bend(8192), None);
    for controller in 0..128u8 {
        assert_eq!(mapper.map_midi_controller(controller, 64), None);
    }
}

#[test]
fn pitch_bend_maps_to_value() {
    let mut mapper = MidiMapper::new();
    mapper.pitch_bend(None);
    assert_eq!(mapper.map_midi_pitch_bend(100), None);
    mapper.pitch_bend(Some(ParamRef(7)));
    assert_eq!(
        mapper.map_midi_pitch_bend(8192),
        Some(ParamMessage::ParamValue {
            param_ref: ParamRef(7),
            transform: Transform::MinMaxU14,
            input: MidiInput::U14(8192),
        })
    );
    mapper.pitch_bend(None);
    assert_eq!(
        mapper.map_midi_pitch_bend(0),
        Some(ParamMessage::ParamValue {
            param_ref: ParamRef(7),
            transform: Transform::MinMaxU14,
            input: MidiInput::U14(0),
        })
    );
}

#[test]
fn relative_controller_maps_to_change() {
    let mut mapper = MidiMapper::new();
    mapper.rel_controller(30, Some(ParamRef(3)));
    assert_eq!(
        mapper.map_midi_controller(30, 66),
        Some(ParamMessage::ParamChange {
            param_ref: ParamRef(3),
            transform: Transform::Relative64,
            input: MidiInput::Steps(2),
        })
    );
    assert_eq!(mapper.map_midi_controller(31, 66), None);
}

#[test]
fn controller_without_param_is_not_mapped() {
    let mut mapper = MidiMapper::new();
    mapper.rel_controller(30, None);
    assert_eq!(mapper.map_midi_controller(30, 66), None);
}

#[test]
fn latest_controller_mapping_wins() {
    let mut mapper = MidiMapper::new();
    mapper.rel_controller(30, Some(ParamRef(3)));
    mapper.rel_controller(31, Some(ParamRef(4)));
    mapper.rel_controller(30, Some(ParamRef(9)));
    assert_eq!(
        mapper.map_midi_controller(30, 60),
        Some(ParamMessage::ParamChange {
            param_ref: ParamRef(9),
            transform: Transform::Relative64,
            input: MidiInput::Steps(-4),
        })
    );
    assert_eq!(
        mapper.map_midi_controller(31, 65),
        Some(ParamMessage::ParamChange {
            param_ref: ParamRef(4),
            transform: Transform::Relative64,
            input: MidiInput::Steps(1),
        })
    );
}

#[test]
fn centred_relative_controller_is_silent() {
    let mut mapper = MidiMapper::new();
    mapper.rel_controller(31, Some(ParamRef(4)));
    assert_eq!(mapper.map_midi_controller(31, 64), None);
    assert_eq!(mapper.map_midi_controller(31, 64 + 128), None);
    assert_eq!(
        mapper.map_midi_controller(31, 63),
        Some(ParamMessage::ParamChange {
            param_ref: ParamRef(4),
            transform: Transform::Relative64,
            input: MidiInput::Steps(-1),
        })
    );
}

#[test]
fn mapper_holds_a_full_table() {
    let mut mapper = MidiMapper::new();
    for controller in 0..128u8 {
        mapper.rel_controller(controller, Some(ParamRef(1000 + controller as usize)));
    }
    for controller in 0..128u8 {
        assert_eq!(
            mapper.map_midi_controller(controller, 127),
            Some(ParamMessage::ParamChange {
                param_ref: ParamRef(1000 + controller as usize),
                transform: Transform::Relative64,
                input: MidiInput::Steps(63),
            })
        );
    }
}

#[test]
fn full_mapper_drops_new_mappings() {
    let mut mapper = MidiMapper::new();
    for controller in 0..128u8 {
        mapper.rel_controller(controller, Some(ParamRef(controller as usize)));
    }
    mapper.rel_controller(200, Some(ParamRef(7)));
    assert_eq!(mapper.map_midi_controller(200, 65), None);
    mapper.rel_controller(3, Some(ParamRef(99)));
    assert_eq!(
        mapper.map_midi_controller(3, 65),
        Some(ParamMessage::ParamChange {
            param_ref: ParamRef(3),
            transform: Transform::Relative64,
            input: MidiInput::Steps(1),
        })
    );
}

#[test]
fn full_list_keeps_other_controllers() {
    let mut mapper = MidiMapper::new();
    for param in 0..128usize {
        mapper.rel_controller(10, Some(ParamRef(param)));
    }
    mapper.rel_controller(11, Some(ParamRef(500)));
    assert_eq!(
        mapper.map_midi_controller(10, 63),
        Some(ParamMessage::ParamChange {
            param_ref: ParamRef(127),
            transform: Transform::Relative64,
            input: MidiInput::Steps(-1),
        })
    );
    assert_eq!(mapper.map_midi_controller(12, 63), None);
}
