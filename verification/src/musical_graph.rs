//! Musical event generation: decides, from tick position, whether a musical
//! event fires on this tick.
//!
//! The generator keeps its own tick counter, distinct from the transport's
//! tick count, so that it can be reset and retriggered independently of raw
//! transport position. The counter is an explicit field, never process-wide
//! state.

use vstd::prelude::*;

use crate::config::{BEATS_PER_BAR, TICKS_PER_BEAT};
use crate::state::{SharedState, TransportState};

verus! {

/// How often the generator fires, in bars.
pub const TRIGGER_EVERY_N_BARS: u64 = 1;

/// Whether a generator whose counter has just reached `count` fires: on the
/// first tick of the first beat of a bar, that is when the counter is a
/// multiple of a whole bar of ticks.
pub open spec fn middle_c_triggered(count: u64) -> bool {
    &&& count % TICKS_PER_BEAT == 0
    &&& (count as int / TICKS_PER_BEAT as int) % (BEATS_PER_BAR as int) == 0
}

/// Stateless-per-call event decision with its own independent tick counter.
pub struct MusicalEventGenerator {
    musical_tick_count: u64,
}

impl MusicalEventGenerator {
    /// The generator's independent tick counter.
    pub closed spec fn count(&self) -> u64 {
        self.musical_tick_count
    }

    /// A fresh generator, with its counter at zero.
    pub fn new() -> (g: MusicalEventGenerator)
        ensures
            g.count() == 0,
    {
        MusicalEventGenerator { musical_tick_count: 0 }
    }

    /// Advance the generator by one tick and decide whether the musical event
    /// fires on this tick. While the transport is stopped the counter does
    /// not move and nothing fires. The shared state is only read.
    pub fn process_tick(&mut self, shared_state: &mut SharedState) -> (r: bool)
        requires
            old(self).count() < u64::MAX,
        ensures
            *final(shared_state) == *old(shared_state),
            old(shared_state).transport_state == TransportState::Stopped ==> {
                &&& r == false
                &&& final(self).count() == old(self).count()
            },
            old(shared_state).transport_state == TransportState::Playing ==> {
                &&& final(self).count() == old(self).count() + 1
                &&& r == middle_c_triggered((old(self).count() + 1) as u64)
            },
    {
        if shared_state.transport_state != TransportState::Playing {
            return false;
        }

        self.musical_tick_count = self.musical_tick_count + 1;

        let beat: u64 = (self.musical_tick_count / TICKS_PER_BEAT) % BEATS_PER_BAR;

        beat == 0 && TRIGGER_EVERY_N_BARS > 0 && self.musical_tick_count % TICKS_PER_BEAT == 0
    }

    /// Put the counter back to zero; called when the transport stops.
    pub fn reset_musical_tick_count(&mut self)
        ensures
            final(self).count() == 0,
    {
        self.musical_tick_count = 0;
    }
}

} // verus!
