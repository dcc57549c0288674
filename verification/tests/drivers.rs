use kiro_synth_host::midi::drivers::coremidi::{CoreMidiError, OSStatusError};
use kiro_synth_host::midi::drivers::jackmidi::{ClientStatusError, JackMidiError, PortRegisterError};
use kiro_synth_host::midi::drivers::{MidiError, MidiErrorSource};

#[test]
fn jack_client_error_keeps_status() {
    assert_eq!(JackMidiError::client_create(Some(0x21)), JackMidiError::ClientCreate(ClientStatusError(0x21)));
    assert_eq!(JackMidiError::client_create(None), JackMidiError::ClientCreate(ClientStatusError(0)));
}

#[test]
fn jack_port_error_names_port() {
    assert_eq!(
        JackMidiError::port_create(Some("midi-in".to_string())),
        JackMidiError::PortCreate(PortRegisterError("midi-in".to_string()))
    );
    assert_eq!(
        JackMidiError::port_create(None),
        JackMidiError::PortCreate(PortRegisterError("Unknown".to_string()))
    );
}

#[test]
fn driver_errors_become_init_errors() {
    let core = MidiErrorSource::CoreMidi(CoreMidiError::PortCreate(OSStatusError(-50)));
    assert_eq!(MidiError::from(core.clone()), MidiError::DriverInit(core));
    let jack = MidiErrorSource::Jack(JackMidiError::client_create(Some(1)));
    let error: MidiError = jack.clone().into();
    assert_eq!(error, MidiError::DriverInit(jack));
}
