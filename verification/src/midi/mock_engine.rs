//! A MIDI engine stand-in for tests: accepts every send, and every receive
//! yields a clock tick.

use vstd::prelude::*;
use vstd::string::StringExecFns;

use crate::midi::engine::{MidiEngine, MidiError, MidiMessage};

verus! {

pub struct MockMidiEngine;

impl MockMidiEngine {
    /// Always connects, whatever the device name.
    pub fn new(_device_name: Option<String>) -> (r: Result<MockMidiEngine, MidiError>)
        ensures
            r is Ok,
    {
        Ok(MockMidiEngine)
    }

    /// The fixed pair of pretend devices.
    pub fn list_devices() -> (r: Vec<String>)
        ensures
            r@.len() == 2,
            r@[0]@ == "Mock Device 1"@,
            r@[1]@ == "Mock Device 2"@,
    {
        let mut devices: Vec<String> = Vec::new();
        devices.push("Mock Device 1".to_owned());
        devices.push("Mock Device 2".to_owned());
        devices
    }
}

impl MidiEngine for MockMidiEngine {
    fn send(&mut self, _msg: MidiMessage) -> Result<(), MidiError> {
        Ok(())
    }

    fn recv(&self) -> Result<MidiMessage, MidiError> {
        Ok(MidiMessage::Clock)
    }
}

} // verus!
