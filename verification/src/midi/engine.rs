//! Core MIDI message types, byte-level codecs, and the engine interface.

use vstd::prelude::*;
use vstd::string::StringExecFns;

verus! {

/// Errors of MIDI operations.
#[derive(Debug)]
pub enum MidiError {
    /// Error when sending a MIDI message.
    SendError(String),
    /// Error when receiving a MIDI message.
    RecvError(String),
    /// Error when connecting to a MIDI device.
    ConnectionError(String),
}

impl MidiError {
    /// The message rendered for humans, as a prefix naming the operation
    /// followed by the detail text.
    pub open spec fn message_spec(&self) -> Seq<char> {
        match self {
            MidiError::SendError(m) => "MIDI send error: "@ + m@,
            MidiError::RecvError(m) => "MIDI receive error: "@ + m@,
            MidiError::ConnectionError(m) => "MIDI connection error: "@ + m@,
        }
    }

    /// Render the error for humans.
    pub fn message(&self) -> (r: String)
        ensures
            r@ == self.message_spec(),
    {
        match self {
            MidiError::SendError(m) => {
                let mut s = "MIDI send error: ".to_owned();
                s.append(m.as_str());
                s
            },
            MidiError::RecvError(m) => {
                let mut s = "MIDI receive error: ".to_owned();
                s.append(m.as_str());
                s
            },
            MidiError::ConnectionError(m) => {
                let mut s = "MIDI connection error: ".to_owned();
                s.append(m.as_str());
                s
            },
        }
    }
}

/// A MIDI message that can be sent or received.
#[derive(Debug, Clone, Copy, PartialEq, Eq, Structural)]
pub enum MidiMessage {
    /// Note On with note number and velocity.
    NoteOn { channel: u8, note: u8, velocity: u8 },
    /// Note Off with note number and velocity.
    NoteOff { channel: u8, note: u8, velocity: u8 },
    /// Control Change with controller number and value.
    ControlChange { channel: u8, controller: u8, value: u8 },
    /// Program Change with program number.
    ProgramChange { channel: u8, program: u8 },
    /// MIDI Clock timing message.
    Clock,
    /// MIDI Start message.
    Start,
    /// MIDI Stop message.
    Stop,
    /// MIDI Continue message.
    Continue,
}

/// What a raw inbound byte string means: system realtime messages are decided
/// by the first byte alone; channel voice messages also need their data
/// bytes. Anything else is not a message on this path.
pub open spec fn parse_midi_message_spec(data: Seq<u8>) -> Option<MidiMessage> {
    if data.len() == 0 {
        None
    } else {
        let first = data[0];
        if first >= 0xF0 {
            if first == 0xF8 {
                Some(MidiMessage::Clock)
            } else if first == 0xFA {
                Some(MidiMessage::Start)
            } else if first == 0xFC {
                Some(MidiMessage::Stop)
            } else if first == 0xFB {
                Some(MidiMessage::Continue)
            } else {
                None
            }
        } else {
            let status = first & 0xF0;
            let channel = first & 0x0F;
            if status == 0x90 && data.len() >= 3 {
                Some(MidiMessage::NoteOn { channel, note: data[1], velocity: data[2] })
            } else if status == 0x80 && data.len() >= 3 {
                Some(MidiMessage::NoteOff { channel, note: data[1], velocity: data[2] })
            } else if status == 0xB0 && data.len() >= 3 {
                Some(
                    MidiMessage::ControlChange { channel, controller: data[1], value: data[2] },
                )
            } else if status == 0xC0 && data.len() >= 2 {
                Some(MidiMessage::ProgramChange { channel, program: data[1] })
            } else {
                None
            }
        }
    }
}

/// Classify a raw inbound MIDI byte string.
pub fn parse_midi_message(data: &[u8]) -> (r: Option<MidiMessage>)
    ensures
        r == parse_midi_message_spec(data@),
{
    if data.len() == 0 {
        return None;
    }

    let first = data[0];

    if first >= 0xF0 {
        return if first == 0xF8 {
            Some(MidiMessage::Clock)
        } else if first == 0xFA {
            Some(MidiMessage::Start)
        } else if first == 0xFC {
            Some(MidiMessage::Stop)
        } else if first == 0xFB {
            Some(MidiMessage::Continue)
        } else {
            None
        };
    }

    let status = first & 0xF0;
    let channel = first & 0x0F;

    if status == 0x90 && data.len() >= 3 {
        Some(MidiMessage::NoteOn { channel, note: data[1], velocity: data[2] })
    } else if status == 0x80 && data.len() >= 3 {
        Some(MidiMessage::NoteOff { channel, note: data[1], velocity: data[2] })
    } else if status == 0xB0 && data.len() >= 3 {
        Some(MidiMessage::ControlChange { channel, controller: data[1], value: data[2] })
    } else if status == 0xC0 && data.len() >= 2 {
        Some(MidiMessage::ProgramChange { channel, program: data[1] })
    } else {
        None
    }
}

/// The wire bytes of a message, status byte first.
pub open spec fn message_to_bytes_spec(msg: MidiMessage) -> Seq<u8> {
    match msg {
        MidiMessage::NoteOn { channel, note, velocity } => seq![
            (0x90u8 | (channel & 0x0F)) as u8,
            note,
            velocity,
        ],
        MidiMessage::NoteOff { channel, note, velocity } => seq![
            (0x80u8 | (channel & 0x0F)) as u8,
            note,
            velocity,
        ],
        MidiMessage::ControlChange { channel, controller, value } => seq![
            (0xB0u8 | (channel & 0x0F)) as u8,
            controller,
            value,
        ],
        MidiMessage::ProgramChange { channel, program } => seq![
            (0xC0u8 | (channel & 0x0F)) as u8,
            program,
        ],
        MidiMessage::Clock => seq![0xF8u8],
        MidiMessage::Start => seq![0xFAu8],
        MidiMessage::Stop => seq![0xFCu8],
        MidiMessage::Continue => seq![0xFBu8],
    }
}

/// Encode a message for the wire.
pub fn message_to_bytes(msg: &MidiMessage) -> (r: Vec<u8>)
    ensures
        r@ == message_to_bytes_spec(*msg),
{
    match *msg {
        MidiMessage::NoteOn { channel, note, velocity } => {
            vec![0x90u8 | (channel & 0x0F), note, velocity]
        },
        MidiMessage::NoteOff { channel, note, velocity } => {
            vec![0x80u8 | (channel & 0x0F), note, velocity]
        },
        MidiMessage::ControlChange { channel, controller, value } => {
            vec![0xB0u8 | (channel & 0x0F), controller, value]
        },
        MidiMessage::ProgramChange { channel, program } => {
            vec![0xC0u8 | (channel & 0x0F), program]
        },
        MidiMessage::Clock => vec![0xF8u8],
        MidiMessage::Start => vec![0xFAu8],
        MidiMessage::Stop => vec![0xFCu8],
        MidiMessage::Continue => vec![0xFBu8],
    }
}

/// Whether a message's channel fits in the four bits the wire gives it.
pub open spec fn channel_in_range(msg: MidiMessage) -> bool {
    match msg {
        MidiMessage::NoteOn { channel, note: _, velocity: _ } => channel < 16,
        MidiMessage::NoteOff { channel, note: _, velocity: _ } => channel < 16,
        MidiMessage::ControlChange { channel, controller: _, value: _ } => channel < 16,
        MidiMessage::ProgramChange { channel, program: _ } => channel < 16,
        _ => true,
    }
}

/// Round trip: the wire bytes of a message parse back to the message itself,
/// whenever its channel fits in the four bits the wire gives it.
pub proof fn lemma_wire_round_trip(msg: MidiMessage)
    requires
        channel_in_range(msg),
    ensures
        parse_midi_message_spec(message_to_bytes_spec(msg)) == Some(msg),
{
    match msg {
        MidiMessage::NoteOn { channel, note: _, velocity: _ } => {
            let b = (0x90u8 | (channel & 0x0F)) as u8;
            assert(b & 0xF0 == 0x90 && b & 0x0F == channel && b < 0xF0) by (bit_vector)
                requires
                    b == (0x90u8 | (channel & 0x0F)) as u8 && channel < 16,
            ;
        },
        MidiMessage::NoteOff { channel, note: _, velocity: _ } => {
            let b = (0x80u8 | (channel & 0x0F)) as u8;
            assert(b & 0xF0 == 0x80 && b & 0x0F == channel && b < 0xF0) by (bit_vector)
                requires
                    b == (0x80u8 | (channel & 0x0F)) as u8 && channel < 16,
            ;
        },
        MidiMessage::ControlChange { channel, controller: _, value: _ } => {
            let b = (0xB0u8 | (channel & 0x0F)) as u8;
            assert(b & 0xF0 == 0xB0 && b & 0x0F == channel && b < 0xF0 && b & 0xF0 != 0x90 && b
                & 0xF0 != 0x80) by (bit_vector)
                requires
                    b == (0xB0u8 | (channel & 0x0F)) as u8 && channel < 16,
            ;
        },
        MidiMessage::ProgramChange { channel, program: _ } => {
            let b = (0xC0u8 | (channel & 0x0F)) as u8;
            assert(b & 0xF0 == 0xC0 && b & 0x0F == channel && b < 0xF0 && b & 0xF0 != 0x90 && b
                & 0xF0 != 0x80 && b & 0xF0 != 0xB0) by (bit_vector)
                requires
                    b == (0xC0u8 | (channel & 0x0F)) as u8 && channel < 16,
            ;
        },
        _ => {},
    }
}

/// The interface of MIDI engine implementations. Engines that talk to real
/// hardware live outside the library; the implementations here are pure.
pub trait MidiEngine: Send {
    /// Send a MIDI message to the device.
    fn send(&mut self, msg: MidiMessage) -> Result<(), MidiError>;

    /// Receive a MIDI message from the device.
    fn recv(&self) -> Result<MidiMessage, MidiError>;
}

} // verus!
