//! Outbound MIDI messages and the tick-keyed deferred-event scheduler.
//!
//! A note-on that carries a duration is sent at once, and its matching
//! note-off is held in a table keyed by the absolute tick at which it falls
//! due. On every tick the entries keyed exactly at the current tick are
//! removed and delivered, before any new note-ons of the same tick are
//! processed, so that stale note-offs are never reordered after fresh
//! note-ons. A note-on with duration zero keys its note-off at the tick that
//! was already flushed, so in a monotonic tick stream that note-off is never
//! delivered — only processing the same tick again would flush it; that
//! consequence of the flush-before-insert order is kept deliberately.
//!
//! Sending bytes to a device is done by the surrounding program; the library
//! decides what is sent, in what order, and what stays scheduled.

use std::collections::HashMap;

use vstd::prelude::*;

verus! {

/// An outbound MIDI message. A note-on carries how many ticks the note is to
/// be held; the matching note-off is scheduled by the event table.
#[derive(Debug, Clone, Copy, PartialEq, Eq, Structural)]
pub enum MidiMessage {
    NoteOn { channel: u8, note: u8, velocity: u8, duration_ticks: u64 },
    NoteOff { channel: u8, note: u8 },
    AllNotesOff { channel: u8 },
}

/// The wire bytes of an outbound message, status byte first.
pub open spec fn to_bytes_spec(m: MidiMessage) -> Seq<u8> {
    match m {
        MidiMessage::NoteOn { channel, note, velocity, duration_ticks: _ } => seq![
            (0x90u8 | (channel & 0x0F)) as u8,
            note,
            velocity,
        ],
        MidiMessage::NoteOff { channel, note } => seq![
            (0x80u8 | (channel & 0x0F)) as u8,
            note,
            0u8,
        ],
        MidiMessage::AllNotesOff { channel } => seq![
            (0xB0u8 | (channel & 0x0F)) as u8,
            123u8,
            0u8,
        ],
    }
}

/// The form in which a message goes out now: a note-on's duration has been
/// consumed by the scheduler, so the sent copy carries none.
pub open spec fn immediate_form(m: MidiMessage) -> MidiMessage {
    match m {
        MidiMessage::NoteOn { channel, note, velocity, duration_ticks: _ } => {
            MidiMessage::NoteOn { channel, note, velocity, duration_ticks: 0 }
        },
        _ => m,
    }
}

/// Whether the note-off a message asks for can be keyed without leaving the
/// tick range.
pub open spec fn can_schedule(m: MidiMessage, current_tick: u64) -> bool {
    match m {
        MidiMessage::NoteOn { channel: _, note: _, velocity: _, duration_ticks } => {
            current_tick + duration_ticks <= u64::MAX
        },
        _ => true,
    }
}

/// One new event applied to the table: a note-on appends its note-off at the
/// tick it falls due; anything else leaves the table alone.
pub open spec fn schedule_one(
    m: Map<u64, Seq<MidiMessage>>,
    current_tick: u64,
    e: MidiMessage,
) -> Map<u64, Seq<MidiMessage>> {
    match e {
        MidiMessage::NoteOn { channel, note, velocity: _, duration_ticks } => {
            let key = (current_tick + duration_ticks) as u64;
            let existing = if m.contains_key(key) {
                m[key]
            } else {
                Seq::empty()
            };
            m.insert(key, existing.push(MidiMessage::NoteOff { channel, note }))
        },
        _ => m,
    }
}

/// A batch of new events applied to the table, in order.
pub open spec fn schedule_events(
    m: Map<u64, Seq<MidiMessage>>,
    current_tick: u64,
    events: Seq<MidiMessage>,
) -> Map<u64, Seq<MidiMessage>>
    decreases events.len(),
{
    if events.len() == 0 {
        m
    } else {
        schedule_one(schedule_events(m, current_tick, events.drop_last()), current_tick, events.last())
    }
}

/// What the table holds for a tick.
pub open spec fn due_at(m: Map<u64, Seq<MidiMessage>>, tick: u64) -> Seq<MidiMessage> {
    if m.contains_key(tick) {
        m[tick]
    } else {
        Seq::empty()
    }
}

/// The table once a tick has been flushed.
pub open spec fn flushed_table(m: Map<u64, Seq<MidiMessage>>, tick: u64) -> Map<
    u64,
    Seq<MidiMessage>,
> {
    if m.contains_key(tick) {
        m.remove(tick)
    } else {
        m
    }
}

/// Everything that goes out on a tick: the deferred messages due now, then
/// the new events in their immediate form.
pub open spec fn emitted_now(flushed: Seq<MidiMessage>, events: Seq<MidiMessage>) -> Seq<
    MidiMessage,
> {
    flushed + events.map_values(|e: MidiMessage| immediate_form(e))
}

/// The tick-keyed deferred-delivery table.
pub struct EventScheduler {
    scheduled_notes: HashMap<u64, Vec<MidiMessage>>,
}

impl View for EventScheduler {
    type V = Map<u64, Seq<MidiMessage>>;

    closed spec fn view(&self) -> Map<u64, Seq<MidiMessage>> {
        Map::new(
            |t: u64| self.scheduled_notes@.contains_key(t),
            |t: u64| self.scheduled_notes@[t]@,
        )
    }
}

impl EventScheduler {
    /// An empty table.
    pub fn new() -> (r: EventScheduler)
        ensures
            r@ == Map::<u64, Seq<MidiMessage>>::empty(),
    {
        let r = EventScheduler { scheduled_notes: HashMap::new() };
        proof {
            assert(r@ =~= Map::<u64, Seq<MidiMessage>>::empty());
        }
        r
    }

    /// Atomically remove and return the messages due exactly at this tick,
    /// in the order they were scheduled.
    pub fn process_scheduled_events(&mut self, current_tick: u64) -> (out: Vec<MidiMessage>)
        ensures
            out@ == due_at(old(self)@, current_tick),
            final(self)@ == flushed_table(old(self)@, current_tick),
    {
        let removed = self.scheduled_notes.remove(&current_tick);
        match removed {
            Some(events) => {
                proof {
                    assert(final(self)@ =~= old(self)@.remove(current_tick));
                }
                events
            },
            None => {
                proof {
                    assert(final(self)@ =~= old(self)@);
                }
                Vec::new()
            },
        }
    }

    /// Process one new event: a note-on goes out at once with its duration
    /// consumed and leaves its note-off in the table; anything else goes out
    /// unchanged.
    fn process_single_event(&mut self, event: MidiMessage, current_tick: u64) -> (sent:
        MidiMessage)
        requires
            can_schedule(event, current_tick),
        ensures
            sent == immediate_form(event),
            final(self)@ == schedule_one(old(self)@, current_tick, event),
    {
        match event {
            MidiMessage::NoteOn { channel: _, note: _, velocity: _, duration_ticks: _ } => {
                self.process_note_on(&event, current_tick)
            },
            _ => event,
        }
    }

    /// Send a note-on at once and key its note-off at the tick it falls due.
    fn process_note_on(&mut self, note_event: &MidiMessage, current_tick: u64) -> (sent:
        MidiMessage)
        requires
            *note_event is NoteOn,
            can_schedule(*note_event, current_tick),
        ensures
            sent == immediate_form(*note_event),
            final(self)@ == schedule_one(old(self)@, current_tick, *note_event),
    {
        match *note_event {
            MidiMessage::NoteOn { channel, note, velocity, duration_ticks } => {
                let target_tick = current_tick + duration_ticks;
                let off = MidiMessage::NoteOff { channel, note };

                let mut entry = match self.scheduled_notes.remove(&target_tick) {
                    Some(v) => v,
                    None => Vec::new(),
                };
                entry.push(off);
                self.scheduled_notes.insert(target_tick, entry);

                proof {
                    assert(final(self)@ =~= schedule_one(old(self)@, current_tick, *note_event));
                }

                MidiMessage::NoteOn { channel, note, velocity, duration_ticks: 0 }
            },
            _ => *note_event,
        }
    }

    /// One tick's worth of work: flush everything due exactly now — before
    /// any new note-on of the same tick is processed — then send each new
    /// event and key its note-off. Returns what goes out, in order.
    pub fn process_tick_events(&mut self, current_tick: u64, new_events: Vec<MidiMessage>) -> (out:
        Vec<MidiMessage>)
        requires
            forall|i: int|
                0 <= i < new_events@.len() ==> can_schedule(#[trigger] new_events@[i], current_tick),
        ensures
            out@ == emitted_now(due_at(old(self)@, current_tick), new_events@),
            final(self)@ == schedule_events(
                flushed_table(old(self)@, current_tick),
                current_tick,
                new_events@,
            ),
    {
        let mut out = self.process_scheduled_events(current_tick);

        let ghost base = flushed_table(old(self)@, current_tick);
        let ghost due = due_at(old(self)@, current_tick);

        proof {
            assert(new_events@.subrange(0, 0) =~= Seq::<MidiMessage>::empty());
            assert(out@ =~= emitted_now(due, new_events@.subrange(0, 0)));
        }

        let mut i: usize = 0;
        while i < new_events.len()
            invariant
                i <= new_events@.len(),
                forall|k: int|
                    0 <= k < new_events@.len() ==> can_schedule(
                        #[trigger] new_events@[k],
                        current_tick,
                    ),
                self@ == schedule_events(base, current_tick, new_events@.subrange(0, i as int)),
                out@ == emitted_now(due, new_events@.subrange(0, i as int)),
            decreases new_events@.len() - i,
        {
            let e = new_events[i];
            let sent = self.process_single_event(e, current_tick);
            out.push(sent);
            proof {
                let prefix = new_events@.subrange(0, i as int);
                let next = new_events@.subrange(0, i + 1);
                assert(next =~= prefix.push(e));
                assert(next.drop_last() =~= prefix);
                assert(emitted_now(due, next) =~= emitted_now(due, prefix).push(
                    immediate_form(e),
                ));
            }
            i = i + 1;
        }

        proof {
            assert(new_events@.subrange(0, new_events@.len() as int) =~= new_events@);
        }

        out
    }
}

impl MidiMessage {
    /// Encode the message for the wire.
    pub fn to_bytes(&self) -> (r: Vec<u8>)
        ensures
            r@ == to_bytes_spec(*self),
    {
        match *self {
            MidiMessage::NoteOn { channel, note, velocity, duration_ticks: _ } => {
                vec![0x90u8 | (channel & 0x0F), note, velocity]
            },
            MidiMessage::NoteOff { channel, note } => {
                vec![0x80u8 | (channel & 0x0F), note, 0u8]
            },
            MidiMessage::AllNotesOff { channel } => {
                vec![0xB0u8 | (channel & 0x0F), 123u8, 0u8]
            },
        }
    }
}

/// Scheduler exactness: a note-on at tick `t` with duration `d` leaves
/// exactly one deferred note-off, keyed at `t + d` — every other tick of the
/// table is untouched, so flushing any tick but `t + d` delivers nothing of
/// it, and flushing `t + d` delivers exactly that note-off.
pub proof fn lemma_scheduler_exactness(
    m: Map<u64, Seq<MidiMessage>>,
    t: u64,
    channel: u8,
    note: u8,
    velocity: u8,
    d: u64,
    t2: u64,
)
    requires
        t + d <= u64::MAX,
        !m.contains_key((t + d) as u64),
    ensures
        ({
            let e = MidiMessage::NoteOn { channel, note, velocity, duration_ticks: d };
            let m2 = schedule_one(m, t, e);
            &&& m2.contains_key((t + d) as u64)
            &&& m2[(t + d) as u64] == seq![MidiMessage::NoteOff { channel, note }]
            &&& due_at(m2, (t + d) as u64) == seq![MidiMessage::NoteOff { channel, note }]
            &&& t2 != (t + d) as u64 ==> due_at(m2, t2) == due_at(m, t2)
        }),
{
    let e = MidiMessage::NoteOn { channel, note, velocity, duration_ticks: d };
    let m2 = schedule_one(m, t, e);
    assert(Seq::<MidiMessage>::empty().push(MidiMessage::NoteOff { channel, note }) =~= seq![
        MidiMessage::NoteOff { channel, note },
    ]);
}

} // verus!
