//! Shared transport record: playback state, tick position and tempo.
//!
//! The record is owned by the event loop for writes; other collaborators read
//! snapshots of it. Beat and bar are pure functions of the tick count,
//! recomputed on every tick.

use vstd::prelude::*;

use crate::config::{BEATS_PER_BAR, TICKS_PER_BEAT};

verus! {

/// Playback state of the transport.
#[derive(Clone, Copy, Debug, PartialEq, Eq, Structural)]
pub enum TransportState {
    Stopped,
    Playing,
}

/// Largest tick count the transport accepts: keeps the 1-indexed bar number
/// within `u32` after one more tick.
pub const TICK_COUNT_LIMIT: u64 = 96 * 0xFFFF_FFFE;

/// The 1-indexed beat within the bar that a tick count denotes.
pub open spec fn beat_of(tick_count: u64) -> u32 {
    ((tick_count as int / TICKS_PER_BEAT as int) % BEATS_PER_BAR as int + 1) as u32
}

/// The 1-indexed bar that a tick count denotes.
pub open spec fn bar_of(tick_count: u64) -> u32 {
    (tick_count as int / (TICKS_PER_BEAT as int * BEATS_PER_BAR as int) + 1) as u32
}

/// The beat is always one of `1..=BEATS_PER_BAR`, and the bar is always at
/// least 1: both are pure functions of the tick count alone.
pub proof fn lemma_position_in_range(tick_count: u64)
    requires
        tick_count <= TICK_COUNT_LIMIT,
    ensures
        1 <= beat_of(tick_count) <= BEATS_PER_BAR,
        bar_of(tick_count) >= 1,
{
    assert(tick_count as int / 96 <= 0xFFFF_FFFE) by (nonlinear_arith)
        requires
            tick_count <= 96 * 0xFFFF_FFFE,
    ;
}

/// Transport position and tempo shared across the system.
#[derive(Debug)]
pub struct SharedState {
    pub bpm: u32,
    pub tick_count: u64,
    pub current_beat: u32,
    pub current_bar: u32,
    pub transport_state: TransportState,
    pub recording: bool,
    pub recording_target: Option<String>,
}

/// The record with its playback state replaced.
pub open spec fn with_playing(s: SharedState, playing: bool) -> SharedState {
    SharedState {
        transport_state: if playing {
            TransportState::Playing
        } else {
            TransportState::Stopped
        },
        ..s
    }
}

/// The record with a measured tempo written, rounded from thousandths of a
/// beat per minute to the nearest whole beat per minute.
pub open spec fn with_milli_tempo(s: SharedState, milli_bpm: u64) -> SharedState {
    SharedState { bpm: ((milli_bpm + 500) as int / 1000) as u32, ..s }
}

/// The record one tick later: while playing the position advances and the
/// beat and bar are recomputed; while stopped nothing moves.
pub open spec fn ticked(s: SharedState) -> SharedState {
    if s.transport_state == TransportState::Playing {
        SharedState {
            tick_count: (s.tick_count + 1) as u64,
            current_beat: beat_of((s.tick_count + 1) as u64),
            current_bar: bar_of((s.tick_count + 1) as u64),
            ..s
        }
    } else {
        s
    }
}

impl SharedState {
    /// A fresh transport: stopped, at position zero, with no tempo measured
    /// yet. The configured tempo is ignored here on purpose: the displayed
    /// tempo always comes from measurements.
    pub fn new(_bpm: u32) -> (s: SharedState)
        ensures
            s.bpm == 0,
            s.tick_count == 0,
            s.current_beat == 0,
            s.current_bar == 0,
            s.transport_state == TransportState::Stopped,
            s.recording == false,
            s.recording_target is None,
    {
        SharedState {
            bpm: 0,
            tick_count: 0,
            current_beat: 0,
            current_bar: 0,
            transport_state: TransportState::Stopped,
            recording: false,
            recording_target: None,
        }
    }

    /// Advance the clock by one tick. While stopped this is a no-op: the tick
    /// count never moves outside of the playing state. While playing, the
    /// beat and bar are recomputed from the new tick count.
    pub fn tick_update(&mut self)
        requires
            old(self).tick_count < TICK_COUNT_LIMIT,
        ensures
            *final(self) == ticked(*old(self)),
            old(self).transport_state == TransportState::Stopped ==> *final(self) == *old(self),
            old(self).transport_state == TransportState::Playing ==> {
                &&& final(self).tick_count == old(self).tick_count + 1
                &&& final(self).current_beat == beat_of((old(self).tick_count + 1) as u64)
                &&& final(self).current_bar == bar_of((old(self).tick_count + 1) as u64)
                &&& final(self).bpm == old(self).bpm
                &&& final(self).transport_state == old(self).transport_state
                &&& final(self).recording == old(self).recording
                &&& final(self).recording_target == old(self).recording_target
            },
    {
        if self.transport_state != TransportState::Playing {
            return;
        }

        self.tick_count = self.tick_count + 1;

        let beat_number: u64 = (self.tick_count / TICKS_PER_BEAT) % BEATS_PER_BAR;
        let bar_number: u64 = self.tick_count / (TICKS_PER_BEAT * BEATS_PER_BAR);

        self.current_beat = (beat_number + 1) as u32;
        self.current_bar = (bar_number + 1) as u32;
    }

    /// Set the playback state without touching the position.
    pub fn set_playing(&mut self, playing: bool)
        ensures
            *final(self) == with_playing(*old(self), playing),
            final(self).transport_state == if playing {
                TransportState::Playing
            } else {
                TransportState::Stopped
            },
            final(self).bpm == old(self).bpm,
            final(self).tick_count == old(self).tick_count,
            final(self).current_beat == old(self).current_beat,
            final(self).current_bar == old(self).current_bar,
            final(self).recording == old(self).recording,
            final(self).recording_target == old(self).recording_target,
    {
        self.transport_state = if playing {
            TransportState::Playing
        } else {
            TransportState::Stopped
        };
    }

    /// Store a measured tempo, given in thousandths of a beat per minute,
    /// rounded to the nearest whole beat per minute.
    pub fn set_tempo(&mut self, milli_bpm: u64)
        requires
            milli_bpm <= 4_000_000_000_000,
        ensures
            *final(self) == with_milli_tempo(*old(self), milli_bpm),
            final(self).bpm == (milli_bpm + 500) as int / 1000,
            final(self).tick_count == old(self).tick_count,
            final(self).current_beat == old(self).current_beat,
            final(self).current_bar == old(self).current_bar,
            final(self).transport_state == old(self).transport_state,
            final(self).recording == old(self).recording,
            final(self).recording_target == old(self).recording_target,
    {
        self.bpm = ((milli_bpm + 500) / 1000) as u32;
    }

    /// Record whether audio capture is running, and where it writes.
    pub fn set_recording(&mut self, on: bool, target: Option<String>)
        ensures
            final(self).recording == on,
            final(self).recording_target == target,
            final(self).bpm == old(self).bpm,
            final(self).tick_count == old(self).tick_count,
            final(self).current_beat == old(self).current_beat,
            final(self).current_bar == old(self).current_bar,
            final(self).transport_state == old(self).transport_state,
    {
        self.recording = on;
        self.recording_target = target;
    }

    /// The tempo last written, in whole beats per minute.
    pub fn get_bpm(&self) -> (r: u32)
        ensures
            r == self.bpm,
    {
        self.bpm
    }

    /// Ticks seen since the transport last started playing.
    pub fn get_tick_count(&self) -> (r: u64)
        ensures
            r == self.tick_count,
    {
        self.tick_count
    }

    /// The 1-indexed beat within the current bar.
    pub fn get_current_beat(&self) -> (r: u32)
        ensures
            r == self.current_beat,
    {
        self.current_beat
    }

    /// The 1-indexed current bar.
    pub fn get_current_bar(&self) -> (r: u32)
        ensures
            r == self.current_bar,
    {
        self.current_bar
    }
}

} // verus!
