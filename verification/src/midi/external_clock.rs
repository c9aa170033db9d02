//! External clock: translates an inbound MIDI realtime stream into transport
//! changes and tempo updates, and enforces liveness with a watchdog.
//!
//! The surrounding program reads bytes from the device and hands every parsed
//! message here with its arrival time; it also calls the watchdog check once
//! a second. When the stream has been silent for longer than the timeout the
//! watchdog forces the transport to stopped and tells the caller to end its
//! loop: silent free-running after losing sync is worse than stopping.

use vstd::prelude::*;

use crate::midi::clock::{bpm_estimate, window_after_tick, BpmCalculator, ClockMessage};
use crate::midi::engine::MidiMessage;
use crate::state::{ticked, with_milli_tempo, with_playing, SharedState, TICK_COUNT_LIMIT};
use crate::state::TransportState;

verus! {

/// How long the inbound stream may stay silent, in microseconds.
pub const INACTIVITY_TIMEOUT_US: u64 = 5_000_000;

/// The clock-message reading of an inbound MIDI message; anything that is
/// not a realtime transport message is ignored on this path.
pub open spec fn convert_midi_to_clock_spec(msg: MidiMessage) -> Option<ClockMessage> {
    match msg {
        MidiMessage::Clock => Some(ClockMessage::Tick),
        MidiMessage::Start => Some(ClockMessage::Start),
        MidiMessage::Stop => Some(ClockMessage::Stop),
        MidiMessage::Continue => Some(ClockMessage::Continue),
        _ => None,
    }
}

/// Whether the stream has been silent past the timeout.
pub open spec fn watchdog_expired(last_us: u64, now_us: u64) -> bool {
    last_us <= now_us && now_us - last_us > INACTIVITY_TIMEOUT_US
}

/// Consumes an external MIDI realtime stream and drives the shared transport
/// record and the tempo estimator from it.
pub struct ExternalClock {
    pub bpm_calculator: BpmCalculator,
    pub shared_state: SharedState,
    pub last_message_time: u64,
}

impl ExternalClock {
    /// The clock is consistent when its estimator is.
    pub open spec fn wf(&self) -> bool {
        self.bpm_calculator.wf()
    }

    /// A clock around a fresh estimator; the stream counts as alive now.
    pub fn new(shared_state: SharedState, now_us: u64) -> (r: ExternalClock)
        ensures
            r.wf(),
            r.shared_state == shared_state,
            r.last_message_time == now_us,
            !r.bpm_calculator.is_playing,
            r.bpm_calculator.last_tick_time is None,
            r.bpm_calculator.intervals@ == Seq::<u64>::empty(),
    {
        ExternalClock {
            bpm_calculator: BpmCalculator::new(),
            shared_state,
            last_message_time: now_us,
        }
    }

    /// Take one inbound message, stamped with its arrival time: the stream
    /// counts as alive again, and a realtime transport message moves the
    /// transport record and the estimator. Every tick drives the transport;
    /// the tempo is written whenever the estimator has one, and never gates
    /// the advance.
    pub fn handle_midi_message(&mut self, msg: MidiMessage, now_us: u64)
        requires
            old(self).wf(),
            old(self).shared_state.tick_count < TICK_COUNT_LIMIT,
        ensures
            final(self).wf(),
            final(self).last_message_time == now_us,
            ({
                let cm = convert_midi_to_clock_spec(msg);
                &&& (cm is None ==> {
                    &&& final(self).bpm_calculator == old(self).bpm_calculator
                    &&& final(self).shared_state == old(self).shared_state
                })
                &&& (cm == Some(ClockMessage::Start) ==> {
                    &&& final(self).shared_state == with_playing(old(self).shared_state, true)
                    &&& final(self).bpm_calculator.is_playing
                    &&& final(self).bpm_calculator.last_tick_time is None
                    &&& final(self).bpm_calculator.intervals@ == Seq::<u64>::empty()
                })
                &&& (cm == Some(ClockMessage::Stop) ==> {
                    &&& final(self).shared_state == with_playing(old(self).shared_state, false)
                    &&& !final(self).bpm_calculator.is_playing
                    &&& final(self).bpm_calculator.last_tick_time == old(
                        self,
                    ).bpm_calculator.last_tick_time
                    &&& final(self).bpm_calculator.intervals@ == old(
                        self,
                    ).bpm_calculator.intervals@
                })
                &&& (cm == Some(ClockMessage::Continue) ==> {
                    &&& final(self).shared_state == with_playing(old(self).shared_state, true)
                    &&& final(self).bpm_calculator.is_playing
                    &&& final(self).bpm_calculator.last_tick_time == old(
                        self,
                    ).bpm_calculator.last_tick_time
                    &&& final(self).bpm_calculator.intervals@ == old(
                        self,
                    ).bpm_calculator.intervals@
                })
                &&& (cm == Some(ClockMessage::Tick) && old(self).bpm_calculator.is_playing ==> {
                    let w = window_after_tick(
                        old(self).bpm_calculator.intervals@,
                        old(self).bpm_calculator.last_tick_time,
                        now_us,
                    );
                    &&& final(self).bpm_calculator.is_playing
                    &&& final(self).bpm_calculator.last_tick_time == Some(now_us)
                    &&& final(self).bpm_calculator.intervals@ == w
                    &&& final(self).shared_state == ticked(
                        match bpm_estimate(w) {
                            Some(v) => with_milli_tempo(old(self).shared_state, v),
                            None => old(self).shared_state,
                        },
                    )
                })
                &&& (cm == Some(ClockMessage::Tick) && !old(self).bpm_calculator.is_playing ==> {
                    &&& final(self).bpm_calculator == old(self).bpm_calculator
                    &&& final(self).shared_state == ticked(old(self).shared_state)
                })
            }),
    {
        self.last_message_time = now_us;

        let clock_msg = self.convert_midi_to_clock_message(msg);

        match clock_msg {
            Some(cm) => self.process_clock_message(cm, now_us),
            None => (),
        }
    }

    fn convert_midi_to_clock_message(&self, msg: MidiMessage) -> (r: Option<ClockMessage>)
        ensures
            r == convert_midi_to_clock_spec(msg),
    {
        match msg {
            MidiMessage::Clock => Some(ClockMessage::Tick),
            MidiMessage::Start => Some(ClockMessage::Start),
            MidiMessage::Stop => Some(ClockMessage::Stop),
            MidiMessage::Continue => Some(ClockMessage::Continue),
            _ => None,
        }
    }

    fn process_clock_message(&mut self, clock_msg: ClockMessage, now_us: u64)
        requires
            old(self).wf(),
            old(self).shared_state.tick_count < TICK_COUNT_LIMIT,
        ensures
            final(self).wf(),
            final(self).last_message_time == old(self).last_message_time,
            clock_msg == ClockMessage::Start ==> {
                &&& final(self).shared_state == with_playing(old(self).shared_state, true)
                &&& final(self).bpm_calculator.is_playing
                &&& final(self).bpm_calculator.last_tick_time is None
                &&& final(self).bpm_calculator.intervals@ == Seq::<u64>::empty()
            },
            clock_msg == ClockMessage::Stop ==> {
                &&& final(self).shared_state == with_playing(old(self).shared_state, false)
                &&& !final(self).bpm_calculator.is_playing
                &&& final(self).bpm_calculator.last_tick_time == old(
                    self,
                ).bpm_calculator.last_tick_time
                &&& final(self).bpm_calculator.intervals@ == old(self).bpm_calculator.intervals@
            },
            clock_msg == ClockMessage::Continue ==> {
                &&& final(self).shared_state == with_playing(old(self).shared_state, true)
                &&& final(self).bpm_calculator.is_playing
                &&& final(self).bpm_calculator.last_tick_time == old(
                    self,
                ).bpm_calculator.last_tick_time
                &&& final(self).bpm_calculator.intervals@ == old(self).bpm_calculator.intervals@
            },
            clock_msg == ClockMessage::Tick && old(self).bpm_calculator.is_playing ==> {
                let w = window_after_tick(
                    old(self).bpm_calculator.intervals@,
                    old(self).bpm_calculator.last_tick_time,
                    now_us,
                );
                &&& final(self).bpm_calculator.is_playing
                &&& final(self).bpm_calculator.last_tick_time == Some(now_us)
                &&& final(self).bpm_calculator.intervals@ == w
                &&& final(self).shared_state == ticked(
                    match bpm_estimate(w) {
                        Some(v) => with_milli_tempo(old(self).shared_state, v),
                        None => old(self).shared_state,
                    },
                )
            },
            clock_msg == ClockMessage::Tick && !old(self).bpm_calculator.is_playing ==> {
                &&& final(self).bpm_calculator == old(self).bpm_calculator
                &&& final(self).shared_state == ticked(old(self).shared_state)
            },
    {
        self.handle_transport_state_changes(&clock_msg);
        self.update_bpm_and_handle_ticks(&clock_msg, now_us);
    }

    fn handle_transport_state_changes(&mut self, clock_msg: &ClockMessage)
        ensures
            final(self).bpm_calculator == old(self).bpm_calculator,
            final(self).last_message_time == old(self).last_message_time,
            final(self).shared_state == match clock_msg {
                ClockMessage::Start => with_playing(old(self).shared_state, true),
                ClockMessage::Stop => with_playing(old(self).shared_state, false),
                ClockMessage::Continue => with_playing(old(self).shared_state, true),
                ClockMessage::Tick => old(self).shared_state,
            },
    {
        match clock_msg {
            ClockMessage::Start => self.shared_state.set_playing(true),
            ClockMessage::Stop => self.shared_state.set_playing(false),
            ClockMessage::Continue => self.shared_state.set_playing(true),
            ClockMessage::Tick => (),
        }
    }

    fn update_bpm_and_handle_ticks(&mut self, clock_msg: &ClockMessage, now_us: u64)
        requires
            old(self).wf(),
            old(self).shared_state.tick_count < TICK_COUNT_LIMIT,
        ensures
            final(self).wf(),
            final(self).last_message_time == old(self).last_message_time,
            *clock_msg != ClockMessage::Tick ==> final(self).shared_state == old(
                self,
            ).shared_state,
            *clock_msg == ClockMessage::Start ==> {
                &&& final(self).bpm_calculator.is_playing
                &&& final(self).bpm_calculator.last_tick_time is None
                &&& final(self).bpm_calculator.intervals@ == Seq::<u64>::empty()
            },
            *clock_msg == ClockMessage::Stop ==> {
                &&& !final(self).bpm_calculator.is_playing
                &&& final(self).bpm_calculator.last_tick_time == old(
                    self,
                ).bpm_calculator.last_tick_time
                &&& final(self).bpm_calculator.intervals@ == old(self).bpm_calculator.intervals@
            },
            *clock_msg == ClockMessage::Continue ==> {
                &&& final(self).bpm_calculator.is_playing
                &&& final(self).bpm_calculator.last_tick_time == old(
                    self,
                ).bpm_calculator.last_tick_time
                &&& final(self).bpm_calculator.intervals@ == old(self).bpm_calculator.intervals@
            },
            *clock_msg == ClockMessage::Tick && old(self).bpm_calculator.is_playing ==> {
                let w = window_after_tick(
                    old(self).bpm_calculator.intervals@,
                    old(self).bpm_calculator.last_tick_time,
                    now_us,
                );
                &&& final(self).bpm_calculator.is_playing
                &&& final(self).bpm_calculator.last_tick_time == Some(now_us)
                &&& final(self).bpm_calculator.intervals@ == w
                &&& final(self).shared_state == ticked(
                    match bpm_estimate(w) {
                        Some(v) => with_milli_tempo(old(self).shared_state, v),
                        None => old(self).shared_state,
                    },
                )
            },
            *clock_msg == ClockMessage::Tick && !old(self).bpm_calculator.is_playing ==> {
                &&& final(self).bpm_calculator == old(self).bpm_calculator
                &&& final(self).shared_state == ticked(old(self).shared_state)
            },
    {
        let bpm = self.bpm_calculator.process_message(*clock_msg, now_us);

        match bpm {
            Some(b) => self.shared_state.set_tempo(b),
            None => (),
        }

        match clock_msg {
            ClockMessage::Tick => self.shared_state.tick_update(),
            _ => (),
        }
    }

    /// The watchdog: when the stream has been silent past the timeout, force
    /// the shared transport to stopped and answer false, upon which the
    /// caller ends its processing loop — a fatal, non-retrying condition.
    pub fn check_connection_status(&mut self, now_us: u64) -> (r: bool)
        ensures
            r == !watchdog_expired(old(self).last_message_time, now_us),
            final(self).last_message_time == old(self).last_message_time,
            final(self).bpm_calculator == old(self).bpm_calculator,
            watchdog_expired(old(self).last_message_time, now_us) ==> final(self).shared_state
                == with_playing(old(self).shared_state, false),
            !watchdog_expired(old(self).last_message_time, now_us) ==> final(self).shared_state
                == old(self).shared_state,
    {
        if now_us >= self.last_message_time && now_us - self.last_message_time
            > INACTIVITY_TIMEOUT_US {
            self.shared_state.set_playing(false);
            false
        } else {
            true
        }
    }

    /// Stop playback on the shared transport record.
    pub fn stop(&mut self)
        ensures
            final(self).shared_state == with_playing(old(self).shared_state, false),
            final(self).bpm_calculator == old(self).bpm_calculator,
            final(self).last_message_time == old(self).last_message_time,
    {
        self.shared_state.set_playing(false);
    }

    /// Whether the shared transport record says the clock is playing.
    pub fn is_playing(&self) -> (r: bool)
        ensures
            r == (self.shared_state.transport_state == TransportState::Playing),
    {
        self.shared_state.transport_state == TransportState::Playing
    }

    /// The tempo of the estimator's current window, without touching state.
    pub fn current_bpm(&self) -> (r: Option<u64>)
        requires
            self.wf(),
        ensures
            r == bpm_estimate(self.bpm_calculator.intervals@),
    {
        self.bpm_calculator.current_bpm()
    }
}

} // verus!
