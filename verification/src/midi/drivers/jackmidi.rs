use vstd::prelude::*;

verus! {

/// The status flags (`jack::ClientStatus` bits) that Jack returned.
#[derive(Debug, Clone, Copy, PartialEq, Eq, Structural)]
pub struct ClientStatusError(pub u32);

/// The name of the port that Jack failed to register.
#[derive(Debug, Clone, PartialEq, Eq)]
pub struct PortRegisterError(pub String);

/// Why the Jack MIDI driver could not be set up.
#[derive(Debug, Clone, PartialEq, Eq)]
pub enum JackMidiError {
    /// Creating the Jack client failed.
    ClientCreate(ClientStatusError),
    /// Registering the input port failed.
    PortCreate(PortRegisterError),
}

impl JackMidiError {
    /// The error for a failed client creation: the status that Jack reported
    /// with the error, or no flags when the error carried none.
    pub fn client_create(reported_status: Option<u32>) -> (error: JackMidiError)
        ensures
            error == JackMidiError::ClientCreate(ClientStatusError(match reported_status {
                Some(bits) => bits,
                None => 0,
            })),
    {
        let status = match reported_status {
            Some(bits) => bits,
            None => 0,
        };
        JackMidiError::ClientCreate(ClientStatusError(status))
    }

    /// The error for a failed port registration: the port name that Jack
    /// reported with the error, or `"Unknown"` when the error carried none.
    pub fn port_create(reported_port_name: Option<String>) -> (error: JackMidiError)
        ensures
            reported_port_name matches Some(name) ==> error == JackMidiError::PortCreate(PortRegisterError(name)),
            reported_port_name is None ==> (error matches JackMidiError::PortCreate(PortRegisterError(name))
                && name@ == "Unknown"@),
    {
        let port_name = match reported_port_name {
            Some(name) => name,
            None => {
                let unknown = "Unknown";
                proof {
                    reveal_strlit("Unknown");
                }
                String::from_str(unknown)
            },
        };
        JackMidiError::PortCreate(PortRegisterError(port_name))
    }
}

} // verus!
