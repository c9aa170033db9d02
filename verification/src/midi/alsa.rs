//! The ALSA engine shell: it stores the chosen device and accepts sends;
//! real input never worked on this backend, so receiving reports an error.
//! Enumerating ALSA devices is device I/O and lives outside the library.

use vstd::prelude::*;
use vstd::string::StringExecFns;

use crate::midi::engine::{MidiEngine, MidiError, MidiMessage};

verus! {

pub struct AlsaMidiEngine {
    #[allow(dead_code)]
    device_name: Option<String>,
}

impl AlsaMidiEngine {
    /// Remember the device binding; opening happens elsewhere.
    pub fn new(device_name: Option<String>) -> (r: Result<AlsaMidiEngine, MidiError>)
        ensures
            r is Ok,
    {
        Ok(AlsaMidiEngine { device_name })
    }
}

impl MidiEngine for AlsaMidiEngine {
    fn send(&mut self, _msg: MidiMessage) -> Result<(), MidiError> {
        Ok(())
    }

    fn recv(&self) -> Result<MidiMessage, MidiError> {
        Err(MidiError::RecvError("MIDI input is not available on this backend".to_owned()))
    }
}

} // verus!
