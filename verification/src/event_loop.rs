//! The event loop: single consumer of the engine message stream.
//!
//! On each tick it records the gap since the previous tick, recomputes the
//! displayed tempo, advances the shared transport, asks the musical event
//! generator whether an event fires, and lets the scheduler flush and key
//! deferred note-offs. On a transport command it drives the Start/Stop state
//! machine and tells the caller what to do about audio capture. The channel,
//! the locks and the device sends live in the surrounding program; it calls
//! in here with plain values.

use vstd::arithmetic::div_mod::{
    lemma_div_is_ordered, lemma_fundamental_div_mod_converse,
};
use vstd::prelude::*;

use crate::midi::clock::{elapsed_between, sum_of};
use crate::midi_output::{
    can_schedule, due_at, emitted_now, flushed_table, schedule_events, EventScheduler, MidiMessage,
};
use crate::musical_graph::{middle_c_triggered, MusicalEventGenerator};
use crate::state::{ticked, SharedState, TransportState, TICK_COUNT_LIMIT};

verus! {

/// Number of inter-tick gaps the event loop remembers: one bar's worth.
pub const TICK_HISTORY_SIZE: usize = 24 * 4;

/// How long the fixed musical event is held, in ticks.
pub const MIDDLE_C_DURATION_TICKS: u64 = 48;

/// The vocabulary flowing from any clock source to the event loop.
#[derive(Debug, Clone, Copy, PartialEq, Eq, Structural)]
pub enum EngineMessage {
    Tick,
    TransportCommand(TransportAction),
}

/// A transport command.
#[derive(Debug, Clone, Copy, PartialEq, Eq, Structural)]
pub enum TransportAction {
    Start,
    Stop,
}

/// What the surrounding program must do about audio capture after a
/// transport transition.
#[derive(Debug, Clone, Copy, PartialEq, Eq, Structural)]
pub enum RecordingAction {
    Start,
    Stop,
}

/// The gap history after one more recording: appended, with the oldest entry
/// evicted once the bound is passed.
pub open spec fn history_push(h: Seq<u64>, duration_us: u64) -> Seq<u64> {
    let pushed = h.push(duration_us);
    if pushed.len() <= TICK_HISTORY_SIZE as nat {
        pushed
    } else {
        pushed.drop_first()
    }
}

/// The gap history after a tick at `now_us`: the first tick only sets the
/// reference point.
pub open spec fn history_after_tick(h: Seq<u64>, last: Option<u64>, now_us: u64) -> Seq<u64> {
    match last {
        Some(l) => history_push(h, elapsed_between(l, now_us)),
        None => h,
    }
}

/// The whole tempo a gap history denotes: sixty seconds over the average gap
/// times the ticks per beat, rounded to the nearest whole beat per minute —
/// and sixty when there is nothing to average.
pub open spec fn calculate_bpm_spec(h: Seq<u64>) -> u32 {
    if h.len() == 0 {
        60
    } else {
        let avg = sum_of(h) / h.len() as int;
        if avg == 0 {
            60
        } else {
            ((5_000_000 + avg) / (2 * avg)) as u32
        }
    }
}

/// Append one gap to the history, evicting the oldest entry once the history
/// holds more than a bar of gaps.
pub fn update_tick_history(tick_history: &mut Vec<u64>, duration_us: u64)
    ensures
        final(tick_history)@ == history_push(old(tick_history)@, duration_us),
{
    tick_history.push(duration_us);
    if tick_history.len() > TICK_HISTORY_SIZE {
        remove_oldest(tick_history);
    }
}

/// Drop the oldest entry.
fn remove_oldest(tick_history: &mut Vec<u64>)
    requires
        old(tick_history)@.len() > 0,
    ensures
        final(tick_history)@ == old(tick_history)@.drop_first(),
{
    tick_history.remove(0);
    proof {
        assert(final(tick_history)@ =~= old(tick_history)@.drop_first());
    }
}

/// The whole tempo of a gap history, exactly as `calculate_bpm_spec` states
/// it.
pub fn calculate_bpm(tick_history: &Vec<u64>) -> (r: u32)
    ensures
        r == calculate_bpm_spec(tick_history@),
{
    let n = tick_history.len();
    if n == 0 {
        return 60;
    }

    let mut total: u128 = 0;
    let mut i: usize = 0;

    proof {
        assert(tick_history@.subrange(0, 0) =~= Seq::<u64>::empty());
    }

    while i < n
        invariant
            i <= n,
            n == tick_history@.len(),
            total == sum_of(tick_history@.subrange(0, i as int)),
            total <= i * 0xFFFF_FFFF_FFFF_FFFF,
        decreases n - i,
    {
        proof {
            assert(tick_history@.subrange(0, i + 1) =~= tick_history@.subrange(0, i as int).push(
                tick_history@[i as int],
            ));
            crate::midi::clock::lemma_sum_push(
                tick_history@.subrange(0, i as int),
                tick_history@[i as int],
            );
            assert((i + 1) * 0xFFFF_FFFF_FFFF_FFFF == i * 0xFFFF_FFFF_FFFF_FFFF
                + 0xFFFF_FFFF_FFFF_FFFF) by (nonlinear_arith);
        }
        total = total + (tick_history[i] as u128);
        i = i + 1;
    }

    proof {
        assert(tick_history@.subrange(0, n as int) =~= tick_history@);
        assert(n * 0xFFFF_FFFF_FFFF_FFFF < u128::MAX) by (nonlinear_arith)
            requires
                n <= 0xFFFF_FFFF_FFFF_FFFF,
        ;
    }

    let avg: u128 = total / (n as u128);
    if avg == 0 {
        return 60;
    }

    proof {
        let a = avg as int;
        assert((n as int) * 0xFFFF_FFFF_FFFF_FFFF == 0xFFFF_FFFF_FFFF_FFFF * (n as int) + 0)
            by (nonlinear_arith);
        lemma_fundamental_div_mod_converse(
            (n as int) * 0xFFFF_FFFF_FFFF_FFFF,
            n as int,
            0xFFFF_FFFF_FFFF_FFFF,
            0,
        );
        lemma_div_is_ordered(total as int, (n as int) * 0xFFFF_FFFF_FFFF_FFFF, n as int);
        assert(a <= 0xFFFF_FFFF_FFFF_FFFF);
        assert(5_000_001 * a == 2_500_000 * (2 * a) + a) by (nonlinear_arith);
        lemma_fundamental_div_mod_converse(5_000_001 * a, 2 * a, 2_500_000, a);
        assert(5_000_000 + a <= 5_000_001 * a) by (nonlinear_arith)
            requires
                a >= 1,
        ;
        lemma_div_is_ordered(5_000_000 + a, 5_000_001 * a, 2 * a);
        assert((5_000_000 + a) / (2 * a) <= 2_500_000);
    }

    let bpm: u128 = (5_000_000 + avg) / (2 * avg);
    bpm as u32
}

/// Where the transport record goes on a command: Start from stopped begins
/// playing; Stop while playing stops and puts the whole position back to
/// zero, keeping the measured tempo; anything else is ignored.
pub open spec fn command_next_state(s: SharedState, action: TransportAction) -> SharedState {
    match (s.transport_state, action) {
        (TransportState::Stopped, TransportAction::Start) => SharedState {
            transport_state: TransportState::Playing,
            ..s
        },
        (TransportState::Playing, TransportAction::Stop) => SharedState {
            transport_state: TransportState::Stopped,
            tick_count: 0,
            current_beat: 0,
            current_bar: 0,
            ..s
        },
        _ => s,
    }
}

/// What a command asks the audio-capture collaborator to do: exactly the two
/// real transitions have an effect; repeated commands have none.
pub open spec fn command_effect(s: SharedState, action: TransportAction) -> Option<
    RecordingAction,
> {
    match (s.transport_state, action) {
        (TransportState::Stopped, TransportAction::Start) => Some(RecordingAction::Start),
        (TransportState::Playing, TransportAction::Stop) => Some(RecordingAction::Stop),
        _ => None,
    }
}

/// Whether a command puts the musical event generator's counter back to zero.
pub open spec fn command_resets_generator(s: SharedState, action: TransportAction) -> bool {
    s.transport_state == TransportState::Playing && action == TransportAction::Stop
}

/// The single consumer of the engine message stream.
pub struct EventLoop {
    /// When the previous tick arrived, in microseconds.
    pub last_tick_time: Option<u64>,
    /// The last bar's worth of inter-tick gaps, oldest first.
    pub tick_history: Vec<u64>,
    /// The musical event decision, with its own independent counter.
    pub musical_graph: MusicalEventGenerator,
    /// The tick-keyed deferred-delivery table.
    pub scheduler: EventScheduler,
}

impl EventLoop {
    /// The loop's internal consistency: the gap history stays within a bar.
    pub open spec fn wf(&self) -> bool {
        self.tick_history@.len() <= TICK_HISTORY_SIZE
    }

    /// A fresh event loop: no tick seen, nothing scheduled, generator at
    /// zero.
    pub fn new() -> (r: EventLoop)
        ensures
            r.wf(),
            r.last_tick_time is None,
            r.tick_history@ == Seq::<u64>::empty(),
            r.musical_graph.count() == 0,
            r.scheduler@ == Map::<u64, Seq<MidiMessage>>::empty(),
    {
        let r = EventLoop {
            last_tick_time: None,
            tick_history: Vec::new(),
            musical_graph: MusicalEventGenerator::new(),
            scheduler: EventScheduler::new(),
        };
        proof {
            assert(r.tick_history@ =~= Seq::<u64>::empty());
        }
        r
    }

    /// One tick of work, stamped with its arrival time. A tick while the
    /// transport is stopped — a residual clock burst — is discarded: nothing
    /// is recorded, written or flushed, and only the reference point for the
    /// next gap moves. While playing, the gap since the previous tick is
    /// recorded and the tempo recomputed from the history; the transport
    /// advances; the musical event generator is consulted; and the scheduler
    /// flushes what is due at the new tick — before any new note-on of the
    /// same tick — then keys the note-offs of the new events. Returns what
    /// goes out, in order.
    pub fn handle_tick(&mut self, state: &mut SharedState, now_us: u64) -> (out: Vec<MidiMessage>)
        requires
            old(self).wf(),
            old(state).tick_count < TICK_COUNT_LIMIT,
            old(self).musical_graph.count() < u64::MAX,
        ensures
            final(self).wf(),
            final(self).last_tick_time == Some(now_us),
            old(state).transport_state == TransportState::Stopped ==> {
                &&& *final(state) == *old(state)
                &&& out@ == Seq::<MidiMessage>::empty()
                &&& final(self).scheduler@ == old(self).scheduler@
                &&& final(self).tick_history == old(self).tick_history
                &&& final(self).musical_graph.count() == old(self).musical_graph.count()
            },
            old(state).transport_state == TransportState::Playing ==> {
                &&& final(self).tick_history@ == history_after_tick(
                    old(self).tick_history@,
                    old(self).last_tick_time,
                    now_us,
                )
                &&& *final(state) == ticked(
                    if old(self).last_tick_time is Some {
                        SharedState {
                            bpm: calculate_bpm_spec(
                                history_after_tick(
                                    old(self).tick_history@,
                                    old(self).last_tick_time,
                                    now_us,
                                ),
                            ),
                            ..*old(state)
                        }
                    } else {
                        *old(state)
                    },
                )
                &&& final(self).musical_graph.count() == old(self).musical_graph.count() + 1
                &&& ({
                    let events = tick_events(*old(state), old(self).musical_graph.count());
                    &&& out@ == emitted_now(
                        due_at(old(self).scheduler@, final(state).tick_count),
                        events,
                    )
                    &&& final(self).scheduler@ == schedule_events(
                        flushed_table(old(self).scheduler@, final(state).tick_count),
                        final(state).tick_count,
                        events,
                    )
                })
            },
    {
        if state.transport_state == TransportState::Stopped {
            self.last_tick_time = Some(now_us);
            let out: Vec<MidiMessage> = Vec::new();
            proof {
                assert(out@ =~= Seq::<MidiMessage>::empty());
            }
            return out;
        }

        match self.last_tick_time {
            Some(l) => {
                let duration = if now_us >= l {
                    now_us - l
                } else {
                    0
                };
                update_tick_history(&mut self.tick_history, duration);
                let bpm = calculate_bpm(&self.tick_history);
                state.bpm = bpm;
            },
            None => {},
        }
        self.last_tick_time = Some(now_us);

        state.tick_update();

        let events = self.get_midi_events_from_musical_graph(state);

        let current_tick = state.get_tick_count();
        proof {
            assert(forall|i: int|
                0 <= i < events@.len() ==> can_schedule(#[trigger] events@[i], current_tick));
        }
        self.scheduler.process_tick_events(current_tick, events)
    }

    /// The musical events of one tick: the fixed middle-C note-on whenever
    /// the generator fires.
    pub fn get_midi_events_from_musical_graph(&mut self, state: &mut SharedState) -> (events: Vec<
        MidiMessage,
    >)
        requires
            old(self).musical_graph.count() < u64::MAX,
        ensures
            *final(state) == *old(state),
            final(self).last_tick_time == old(self).last_tick_time,
            final(self).tick_history == old(self).tick_history,
            final(self).scheduler == old(self).scheduler,
            old(state).transport_state == TransportState::Playing ==> final(self).musical_graph.count() == old(self).musical_graph.count() + 1,
            old(state).transport_state == TransportState::Stopped ==> final(self).musical_graph.count() == old(self).musical_graph.count(),
            events@ == tick_events(*old(state), old(self).musical_graph.count()),
    {
        let triggered = self.musical_graph.process_tick(state);

        let mut events: Vec<MidiMessage> = Vec::new();
        proof {
            assert(events@ =~= Seq::<MidiMessage>::empty());
        }
        if triggered {
            events.push(
                MidiMessage::NoteOn {
                    channel: 1,
                    note: 60,
                    velocity: 100,
                    duration_ticks: MIDDLE_C_DURATION_TICKS,
                },
            );
            proof {
                assert(events@ =~= Seq::<MidiMessage>::empty().push(middle_c_note_on()));
            }
        }
        events
    }

    /// Drive one transport command through the state machine and say what the
    /// audio-capture collaborator must do. A Start while already playing and
    /// a Stop while already stopped are ignored.
    pub fn handle_transport_command(&mut self, state: &mut SharedState, action: TransportAction)
        -> (r: Option<RecordingAction>)
        ensures
            *final(state) == command_next_state(*old(state), action),
            r == command_effect(*old(state), action),
            final(self).musical_graph.count() == if command_resets_generator(
                *old(state),
                action,
            ) {
                0
            } else {
                old(self).musical_graph.count()
            },
            final(self).last_tick_time == old(self).last_tick_time,
            final(self).tick_history == old(self).tick_history,
            final(self).scheduler == old(self).scheduler,
    {
        match (state.transport_state, action) {
            (TransportState::Stopped, TransportAction::Start) => {
                state.transport_state = TransportState::Playing;
                Some(RecordingAction::Start)
            },
            (TransportState::Playing, TransportAction::Stop) => {
                state.transport_state = TransportState::Stopped;
                state.tick_count = 0;
                state.current_beat = 0;
                state.current_bar = 0;
                self.musical_graph.reset_musical_tick_count();
                Some(RecordingAction::Stop)
            },
            (TransportState::Playing, TransportAction::Start) => None,
            (TransportState::Stopped, TransportAction::Stop) => None,
        }
    }
}

/// The fixed musical event: middle C, held for two beats.
pub open spec fn middle_c_note_on() -> MidiMessage {
    MidiMessage::NoteOn { channel: 1, note: 60, velocity: 100, duration_ticks: MIDDLE_C_DURATION_TICKS }
}

/// The musical events of one tick, given the transport record and the
/// generator's counter before the tick.
pub open spec fn tick_events(s: SharedState, count_before: u64) -> Seq<MidiMessage> {
    if s.transport_state == TransportState::Playing && middle_c_triggered(
        (count_before + 1) as u64,
    ) {
        seq![middle_c_note_on()]
    } else {
        Seq::empty()
    }
}

/// The command a transport toggle sends: stop when playing, start when
/// stopped.
pub fn toggle_action(current: TransportState) -> (r: TransportAction)
    ensures
        r == if current == TransportState::Playing {
            TransportAction::Stop
        } else {
            TransportAction::Start
        },
{
    match current {
        TransportState::Playing => TransportAction::Stop,
        TransportState::Stopped => TransportAction::Start,
    }
}

/// What an inbound realtime status byte means on the engine channel: a clock
/// byte is a tick, start and stop bytes are transport commands, and anything
/// else is ignored on this path.
pub open spec fn classify_realtime_byte_spec(byte: u8) -> Option<EngineMessage> {
    if byte == 0xF8 {
        Some(EngineMessage::Tick)
    } else if byte == 0xFA {
        Some(EngineMessage::TransportCommand(TransportAction::Start))
    } else if byte == 0xFC {
        Some(EngineMessage::TransportCommand(TransportAction::Stop))
    } else {
        None
    }
}

/// Classify the leading status byte of an inbound realtime message.
pub fn classify_realtime_byte(byte: u8) -> (r: Option<EngineMessage>)
    ensures
        r == classify_realtime_byte_spec(byte),
{
    if byte == 0xF8 {
        Some(EngineMessage::Tick)
    } else if byte == 0xFA {
        Some(EngineMessage::TransportCommand(TransportAction::Start))
    } else if byte == 0xFC {
        Some(EngineMessage::TransportCommand(TransportAction::Stop))
    } else {
        None
    }
}

/// Idempotence of Start: after any Start the transport is playing, so a
/// second Start in a row changes nothing — position and tempo stay, no second
/// recording start is asked for, and the generator is untouched.
pub proof fn lemma_start_idempotent(s: SharedState)
    ensures
        ({
            let s1 = command_next_state(s, TransportAction::Start);
            &&& command_next_state(s1, TransportAction::Start) == s1
            &&& command_effect(s1, TransportAction::Start) == None::<RecordingAction>
            &&& !command_resets_generator(s1, TransportAction::Start)
        }),
{
}

/// The states the running system can reach: whenever the transport is
/// stopped, the whole position and the generator's counter are at zero.
pub open spec fn stopped_at_origin(s: SharedState, generator_count: u64) -> bool {
    s.transport_state == TransportState::Stopped ==> {
        &&& s.tick_count == 0
        &&& s.current_beat == 0
        &&& s.current_bar == 0
        &&& generator_count == 0
    }
}

/// Reset law: from any reachable state, Stop leaves the tick count, beat and
/// bar at zero and the generator's counter at zero, whatever they were — and
/// keeps the measured tempo.
pub proof fn lemma_stop_resets(s: SharedState, generator_count: u64)
    requires
        stopped_at_origin(s, generator_count),
    ensures
        ({
            let s1 = command_next_state(s, TransportAction::Stop);
            let count1 = if command_resets_generator(s, TransportAction::Stop) {
                0
            } else {
                generator_count
            };
            &&& s1.transport_state == TransportState::Stopped
            &&& s1.tick_count == 0
            &&& s1.current_beat == 0
            &&& s1.current_bar == 0
            &&& count1 == 0
            &&& s1.bpm == s.bpm
        }),
{
}

/// Commands keep the system in reachable states.
pub proof fn lemma_command_preserves_origin(
    s: SharedState,
    generator_count: u64,
    action: TransportAction,
)
    requires
        stopped_at_origin(s, generator_count),
    ensures
        stopped_at_origin(
            command_next_state(s, action),
            if command_resets_generator(s, action) {
                0
            } else {
                generator_count
            },
        ),
{
}

/// Ticks keep the system in reachable states: while stopped, a tick moves
/// neither the position nor the generator — the tick count never changes
/// outside of the playing state.
pub proof fn lemma_tick_preserves_origin(s: SharedState, generator_count: u64, bpm: u32)
    requires
        stopped_at_origin(s, generator_count),
    ensures
        stopped_at_origin(ticked(s), generator_count),
        stopped_at_origin(ticked(SharedState { bpm, ..s }), generator_count),
        s.transport_state == TransportState::Stopped ==> ticked(s) == s,
{
}

} // verus!
