use kiro_synth_host::audio::{count_frames, write_frames};
use kiro_synth_host::refs::{ParamRef, SourceRef};
use kiro_synth_host::synth::audio_handler::gather_modulations;
use kiro_synth_host::synth::client::{Event, Message, SynthClient};

#[test]
fn frames_of_a_buffer() {
    assert_eq!(count_frames(8, 2), 4);
    assert_eq!(count_frames(9, 2), 5);
    assert_eq!(count_frames(0, 2), 0);
    assert_eq!(count_frames(7, 1), 7);
    assert_eq!(count_frames(10, 3), 4);
}

#[test]
fn stereo_frames_interleave() {
    let mut data = [0.0f32; 6];
    write_frames(&mut data, 2, &vec![(1.0, -1.0), (2.0, -2.0), (3.0, -3.0)], 0.0);
    assert_eq!(data, [1.0, -1.0, 2.0, -2.0, 3.0, -3.0]);
}

#[test]
fn extra_channels_are_silent() {
    let mut data = [9i32; 8];
    write_frames(&mut data, 3, &vec![(1, 2), (3, 4), (5, 6)], 0);
    assert_eq!(data, [1, 2, 0, 3, 4, 0, 5, 6]);
}

#[test]
fn mono_takes_left_samples() {
    let mut data = [0u8; 3];
    write_frames(&mut data, 1, &vec![(1, 10), (2, 20), (3, 30)], 0);
    assert_eq!(data, [1, 2, 3]);
}

#[test]
fn modulations_follow_signals() {
    let mut modulations = vec![0.0f64, 0.0, 0.0, 7.5];
    gather_modulations(&vec![2, 0, 2], &vec![0.25, 0.5, 0.75], &mut modulations);
    assert_eq!(modulations, vec![0.75, 0.25, 0.75, 7.5]);
}

#[test]
fn client_events_are_due_at_once() {
    assert_eq!(
        SynthClient::<f32>::note_on_event(60, 0.5),
        Event { timestamp: 0, message: Message::NoteOn { key: 60, velocity: 0.5 } }
    );
    assert_eq!(
        SynthClient::<f32>::note_off_event(61, 0.0),
        Event { timestamp: 0, message: Message::NoteOff { key: 61, velocity: 0.0 } }
    );
    assert_eq!(
        SynthClient::<f32>::param_value_event(ParamRef(3), 0.25),
        Event { timestamp: 0, message: Message::ParamValue { param_ref: ParamRef(3), value: 0.25 } }
    );
    assert_eq!(
        SynthClient::<f32>::param_change_event(ParamRef(4), -0.1),
        Event { timestamp: 0, message: Message::ParamChange { param_ref: ParamRef(4), change: -0.1 } }
    );
    assert_eq!(
        SynthClient::<f32>::modulation_amount_event(SourceRef(1), ParamRef(2), 0.3),
        Event {
            timestamp: 0,
            message: Message::ModulationAmount { source_ref: SourceRef(1), param_ref: ParamRef(2), amount: 0.3 },
        }
    );
    assert_eq!(Event::new(5, Message::NoteOn { key: 1, velocity: 1.0f32 }).timestamp, 5);
}

#[test]
fn client_queues_events_until_full() {
    let (producer, mut consumer) = ringbuf::RingBuffer::<Event<f32>>::new(2).split();
    let mut client = SynthClient::new(producer);
    client.send_note_on(60, 1.0);
    client.send_param_value(ParamRef(3), 0.5);
    client.send_note_off(60, 0.0);
    assert_eq!(consumer.pop(), Some(SynthClient::<f32>::note_on_event(60, 1.0)));
    assert_eq!(consumer.pop(), Some(SynthClient::<f32>::param_value_event(ParamRef(3), 0.5)));
    assert_eq!(consumer.pop(), None);
    client.send_param_change(ParamRef(1), 0.25);
    client.send_modulation_amount(SourceRef(0), ParamRef(1), 0.5);
    assert_eq!(consumer.pop(), Some(SynthClient::<f32>::param_change_event(ParamRef(1), 0.25)));
    assert_eq!(
        consumer.pop(),
        Some(SynthClient::<f32>::modulation_amount_event(SourceRef(0), ParamRef(1), 0.5))
    );
}
