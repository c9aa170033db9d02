//! MIDI message vocabulary, byte-level parsing, clocks and engines.
//!
//! The engines that talk to real devices live outside the library; the types,
//! the byte codecs, the tempo estimator and the clock state machines are all
//! here, on plain values.

pub mod alsa;
pub mod clock;
pub mod engine;
pub mod external_clock;
pub mod internal_engine;
pub mod mock_engine;

pub use clock::{BpmCalculator, ClockCore, ClockMessage};
pub use engine::{parse_midi_message, MidiEngine, MidiError, MidiMessage};
pub use external_clock::ExternalClock;
pub use internal_engine::InternalEngine;
pub use mock_engine::MockMidiEngine;
