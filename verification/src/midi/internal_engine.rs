//! Internal engine: feeds self-generated messages into a clock core.
//!
//! The timing loop that generates the ticks sleeps and therefore lives
//! outside the library; it hands every message here with its emission time.

use vstd::prelude::*;

use crate::midi::clock::{
    bpm_estimate, clock_message_of_midi, window_after_tick, ClockCore, ClockMessage,
};
use crate::midi::engine::MidiMessage;
use crate::state::{ticked, with_milli_tempo, with_playing, SharedState, TICK_COUNT_LIMIT};

verus! {

/// A clock core fed by the program's own tick generator.
pub struct InternalEngine {
    pub clock_core: ClockCore,
}

impl InternalEngine {
    /// The engine is consistent when its core is.
    pub open spec fn wf(&self) -> bool {
        self.clock_core.wf()
    }

    /// An engine around a fresh clock core, driving the given transport.
    pub fn new(shared_state: SharedState) -> (r: InternalEngine)
        ensures
            r.wf(),
            r.clock_core.shared_state == shared_state,
            !r.clock_core.bpm_calculator.is_playing,
            r.clock_core.bpm_calculator.last_tick_time is None,
            r.clock_core.bpm_calculator.intervals@ == Seq::<u64>::empty(),
    {
        InternalEngine { clock_core: ClockCore::new(shared_state) }
    }

    /// Feed one timestamped message to the clock core, read as a clock
    /// message; any message that is not a realtime transport message stands
    /// in for a tick.
    pub fn handle_message(&mut self, msg: MidiMessage, now_us: u64) -> (r: Option<u64>)
        requires
            old(self).wf(),
            old(self).clock_core.shared_state.tick_count < TICK_COUNT_LIMIT,
        ensures
            final(self).wf(),
            ({
                let cm = clock_message_of_midi(msg);
                &&& (cm == ClockMessage::Start ==> {
                    &&& final(self).clock_core.shared_state == with_playing(
                        old(self).clock_core.shared_state,
                        true,
                    )
                    &&& final(self).clock_core.bpm_calculator.is_playing
                    &&& final(self).clock_core.bpm_calculator.intervals@ == Seq::<u64>::empty()
                    &&& r is None
                })
                &&& (cm == ClockMessage::Stop ==> {
                    &&& final(self).clock_core.shared_state == with_playing(
                        old(self).clock_core.shared_state,
                        false,
                    )
                    &&& !final(self).clock_core.bpm_calculator.is_playing
                    &&& final(self).clock_core.bpm_calculator.intervals@ == old(
                        self,
                    ).clock_core.bpm_calculator.intervals@
                    &&& r is None
                })
                &&& (cm == ClockMessage::Continue ==> {
                    &&& final(self).clock_core.shared_state == with_playing(
                        old(self).clock_core.shared_state,
                        true,
                    )
                    &&& final(self).clock_core.bpm_calculator.is_playing
                    &&& final(self).clock_core.bpm_calculator.intervals@ == old(
                        self,
                    ).clock_core.bpm_calculator.intervals@
                    &&& r is None
                })
                &&& (cm == ClockMessage::Tick && old(self).clock_core.bpm_calculator.is_playing ==> {
                    &&& final(self).clock_core.bpm_calculator.last_tick_time == Some(now_us)
                    &&& final(self).clock_core.bpm_calculator.intervals@ == window_after_tick(
                        old(self).clock_core.bpm_calculator.intervals@,
                        old(self).clock_core.bpm_calculator.last_tick_time,
                        now_us,
                    )
                    &&& r == bpm_estimate(final(self).clock_core.bpm_calculator.intervals@)
                })
                &&& (cm == ClockMessage::Tick && !old(self).clock_core.bpm_calculator.is_playing ==> {
                    &&& final(self).clock_core.bpm_calculator == old(self).clock_core.bpm_calculator
                    &&& r is None
                })
                &&& (cm == ClockMessage::Tick ==> final(self).clock_core.shared_state == (match r {
                    Some(v) => with_milli_tempo(ticked(old(self).clock_core.shared_state), v),
                    None => ticked(old(self).clock_core.shared_state),
                }))
            }),
    {
        self.clock_core.process_message(ClockMessage::from(msg), now_us)
    }

    /// The clock core, for callers that read the transport through it.
    pub fn clock_core(&self) -> (r: &ClockCore)
        ensures
            *r == self.clock_core,
    {
        &self.clock_core
    }
}

} // verus!
