//! Tick-synchronized MIDI transport and event-scheduling engine.
//!
//! The library derives a shared musical clock (tick count, beat, bar, tempo)
//! from a stream of clock events and drives tick-keyed deferred MIDI event
//! delivery from that clock. Device I/O, terminal UI and logging live outside
//! the library; everything here works on plain values.

pub mod config;
pub mod event_loop;
pub mod midi;
pub mod midi_output;
pub mod musical_graph;
pub mod state;
pub mod web;
