use kiro_synth_host::midi::handler::{EventsMidiHandler, MidiMessage, SynthAction};
use kiro_synth_host::midi::mapper::{MidiInput, ParamMessage, Transform};
use kiro_synth_host::program::kiro::{create_midi_mapper, KiroParams};
use kiro_synth_host::program::params::{
    DcaParams, EnvGenParams, FilterParams, LfoParams, OscParams, ParamBlock, SignalRef,
};
use kiro_synth_host::program::{ParamValues, Program, ProgramParam};
use kiro_synth_host::refs::ParamRef;

fn block(index: usize) -> ParamBlock {
    ParamBlock { reference: ParamRef(index), signal: SignalRef(100 + index) }
}

fn osc(first: usize) -> OscParams {
    OscParams {
        shape: block(first),
        amplitude: block(first + 1),
        octaves: block(first + 2),
        semitones: block(first + 3),
        cents: block(first + 4),
    }
}

fn kiro_params() -> KiroParams {
    KiroParams {
        pitch_bend: block(0),
        eg1: EnvGenParams {
            attack: block(1),
            decay: block(2),
            sustain: block(3),
            release: block(4),
            mode: block(5),
            legato: block(6),
            reset_to_zero: block(7),
            dca_mod: block(8),
        },
        osc1: osc(9),
        osc2: osc(14),
        osc3: osc(19),
        osc4: osc(24),
        filt1: FilterParams { mode: block(29), freq: block(30), q: block(31) },
        dca: DcaParams { amplitude: block(32), pan: block(33) },
    }
}

fn program(num_params: usize) -> Program<f32> {
    let params = (0..num_params)
        .map(|i| ProgramParam {
            id: format!("param-{}", i),
            values: ParamValues { initial_value: 0.0, origin: 0.0, min: 0.0, max: 1.0, resolution: 0.01 },
            modulations: vec![],
        })
        .collect();
    Program { sources: vec![], params }
}

fn change(param: usize, steps: i8) -> Option<ParamMessage> {
    Some(ParamMessage::ParamChange {
        param_ref: ParamRef(param),
        transform: Transform::Relative64,
        input: MidiInput::Steps(steps),
    })
}

#[test]
fn kiro_mapper_controllers() {
    let params = kiro_params();
    let mapper = create_midi_mapper(&program(34), &params);
    let expected: [(u8, usize); 23] = [
        (26, 32),
        (27, 33),
        (29, 1),
        (30, 2),
        (31, 3),
        (32, 4),
        (33, 5),
        (34, 6),
        (35, 7),
        (36, 8),
        (41, 20),
        (42, 19),
        (43, 21),
        (44, 22),
        (45, 23),
        (49, 25),
        (50, 24),
        (51, 26),
        (52, 27),
        (53, 28),
        (54, 29),
        (55, 30),
        (56, 31),
    ];
    for (controller, param) in expected.iter() {
        assert_eq!(mapper.map_midi_controller(*controller, 65), change(*param, 1));
    }
    for controller in [0u8, 25, 28, 37, 40, 46, 48, 57, 127] {
        assert_eq!(mapper.map_midi_controller(controller, 65), None);
    }
    assert_eq!(
        mapper.map_midi_pitch_bend(16383),
        Some(ParamMessage::ParamValue {
            param_ref: ParamRef(0),
            transform: Transform::MinMaxU14,
            input: MidiInput::U14(16383),
        })
    );
}

#[test]
fn kiro_mapper_skips_missing_params() {
    let mapper = create_midi_mapper(&program(21), &kiro_params());
    assert_eq!(mapper.map_midi_controller(41, 66), change(20, 2));
    assert_eq!(mapper.map_midi_controller(43, 66), None);
    assert_eq!(mapper.map_midi_controller(56, 66), None);
    assert_eq!(mapper.map_midi_controller(29, 66), change(1, 2));
    assert!(mapper.map_midi_pitch_bend(1).is_some());
    let empty = create_midi_mapper(&program(0), &kiro_params());
    assert_eq!(empty.map_midi_pitch_bend(1), None);
    assert_eq!(empty.map_midi_controller(26, 66), None);
}

#[test]
fn handler_dispatches_messages() {
    let handler = EventsMidiHandler::new(create_midi_mapper(&program(34), &kiro_params()));
    assert_eq!(
        handler.on_message(MidiMessage::NoteOn { channel: 3, key: 60, velocity: 100 }),
        Some(SynthAction::NoteOn { key: 60, velocity: 100 })
    );
    assert_eq!(
        handler.on_message(MidiMessage::NoteOff { channel: 0, key: 61, velocity: 0 }),
        Some(SynthAction::NoteOff { key: 61, velocity: 0 })
    );
    assert_eq!(
        handler.on_message(MidiMessage::PitchBend { channel: 0, value: 8192 }),
        Some(SynthAction::Param(ParamMessage::ParamValue {
            param_ref: ParamRef(0),
            transform: Transform::MinMaxU14,
            input: MidiInput::U14(8192),
        }))
    );
    assert_eq!(
        handler.on_message(MidiMessage::ControlChange { channel: 0, controller: 55, value: 60 }),
        Some(SynthAction::Param(change(30, -4).unwrap()))
    );
    assert_eq!(handler.on_message(MidiMessage::ControlChange { channel: 0, controller: 1, value: 60 }), None);
    assert_eq!(handler.on_message(MidiMessage::Other), None);
}

#[test]
fn param_blocks_in_program_order() {
    let params = kiro_params();
    let eg: Vec<usize> = params.eg1.param_blocks().iter().map(|b| b.reference.0).collect();
    assert_eq!(eg, vec![1, 2, 3, 4, 5, 6, 7, 8]);
    let o: Vec<usize> = params.osc2.param_blocks().iter().map(|b| b.reference.0).collect();
    assert_eq!(o, vec![14, 15, 16, 17, 18]);
    let f: Vec<usize> = params.filt1.param_blocks().iter().map(|b| b.signal.0).collect();
    assert_eq!(f, vec![129, 130, 131]);
    let d: Vec<usize> = params.dca.param_blocks().iter().map(|b| b.reference.0).collect();
    assert_eq!(d, vec![32, 33]);
    let lfo = LfoParams { shape: block(40), rate: block(41), phase: block(42), depth: block(43) };
    let l: Vec<usize> = lfo.param_blocks().iter().map(|b| b.reference.0).collect();
    assert_eq!(l, vec![40, 41, 42, 43]);
}
