use phasorsyncrs::midi_output::{EventScheduler, MidiMessage};

#[test]
fn test_note_on_goes_out_at_once_with_duration_consumed() {
    let mut scheduler = EventScheduler::new();
    let out = scheduler.process_tick_events(
        10,
        vec![MidiMessage::NoteOn {
            channel: 1,
            note: 60,
            velocity: 100,
            duration_ticks: 5,
        }],
    );
    assert_eq!(
        out,
        vec![MidiMessage::NoteOn {
            channel: 1,
            note: 60,
            velocity: 100,
            duration_ticks: 0,
        }]
    );
}

#[test]
fn test_note_off_delivered_exactly_once_at_due_tick() {
    // A note-on at tick T with duration D yields exactly one note-off, when
    // tick T + D is processed, and none at any other tick.
    let mut scheduler = EventScheduler::new();
    let t = 100u64;
    let d = 7u64;
    scheduler.process_tick_events(
        t,
        vec![MidiMessage::NoteOn {
            channel: 2,
            note: 64,
            velocity: 90,
            duration_ticks: d,
        }],
    );

    let mut note_offs = 0;
    for tick in (t + 1)..(t + 20) {
        let out = scheduler.process_tick_events(tick, Vec::new());
        for m in &out {
            assert!(matches!(m, MidiMessage::NoteOff { .. }));
            assert_eq!(
                *m,
                MidiMessage::NoteOff {
                    channel: 2,
                    note: 64
                }
            );
            assert_eq!(tick, t + d, "note-off delivered at the wrong tick");
            note_offs += 1;
        }
    }
    assert_eq!(note_offs, 1, "exactly one note-off must be delivered");
}

#[test]
fn test_flush_comes_before_new_note_ons() {
    // A stale note-off due at this tick goes out before a new note-on of the
    // same tick.
    let mut scheduler = EventScheduler::new();
    scheduler.process_tick_events(
        0,
        vec![MidiMessage::NoteOn {
            channel: 1,
            note: 50,
            velocity: 80,
            duration_ticks: 4,
        }],
    );

    let out = scheduler.process_tick_events(
        4,
        vec![MidiMessage::NoteOn {
            channel: 1,
            note: 52,
            velocity: 80,
            duration_ticks: 4,
        }],
    );
    assert_eq!(
        out,
        vec![
            MidiMessage::NoteOff {
                channel: 1,
                note: 50
            },
            MidiMessage::NoteOn {
                channel: 1,
                note: 52,
                velocity: 80,
                duration_ticks: 0,
            },
        ]
    );
}

#[test]
fn test_zero_duration_note_off_is_one_tick_late() {
    // The flush happens before the insert, so a note-on with duration zero
    // keys its note-off at a tick that was already flushed: it does not go
    // out on this tick, and the very next tick does not deliver it either.
    let mut scheduler = EventScheduler::new();
    let out = scheduler.process_tick_events(
        5,
        vec![MidiMessage::NoteOn {
            channel: 1,
            note: 60,
            velocity: 100,
            duration_ticks: 0,
        }],
    );
    assert_eq!(out.len(), 1);
    assert!(matches!(out[0], MidiMessage::NoteOn { .. }));

    let next = scheduler.process_tick_events(6, Vec::new());
    assert!(next.is_empty());

    // The entry stays keyed at tick 5; only re-processing that tick flushes
    // it.
    let replay = scheduler.process_tick_events(5, Vec::new());
    assert_eq!(
        replay,
        vec![MidiMessage::NoteOff {
            channel: 1,
            note: 60
        }]
    );
}

#[test]
fn test_non_note_on_messages_pass_through() {
    let mut scheduler = EventScheduler::new();
    let out = scheduler.process_tick_events(
        3,
        vec![
            MidiMessage::AllNotesOff { channel: 1 },
            MidiMessage::NoteOff {
                channel: 1,
                note: 61,
            },
        ],
    );
    assert_eq!(
        out,
        vec![
            MidiMessage::AllNotesOff { channel: 1 },
            MidiMessage::NoteOff {
                channel: 1,
                note: 61
            },
        ]
    );

    // Nothing was scheduled.
    for tick in 0..10 {
        assert!(scheduler.process_tick_events(tick, Vec::new()).is_empty());
    }
}

#[test]
fn test_two_notes_due_same_tick_keep_order() {
    let mut scheduler = EventScheduler::new();
    scheduler.process_tick_events(
        0,
        vec![
            MidiMessage::NoteOn {
                channel: 1,
                note: 60,
                velocity: 100,
                duration_ticks: 3,
            },
            MidiMessage::NoteOn {
                channel: 1,
                note: 64,
                velocity: 100,
                duration_ticks: 3,
            },
        ],
    );

    let out = scheduler.process_tick_events(3, Vec::new());
    assert_eq!(
        out,
        vec![
            MidiMessage::NoteOff {
                channel: 1,
                note: 60
            },
            MidiMessage::NoteOff {
                channel: 1,
                note: 64
            },
        ]
    );
}

#[test]
fn test_to_bytes_exact_values() {
    assert_eq!(
        MidiMessage::NoteOn {
            channel: 1,
            note: 60,
            velocity: 100,
            duration_ticks: 0,
        }
        .to_bytes(),
        vec![0x91, 60, 100]
    );
    assert_eq!(
        MidiMessage::NoteOff {
            channel: 1,
            note: 60
        }
        .to_bytes(),
        vec![0x81, 60, 0]
    );
    assert_eq!(
        MidiMessage::AllNotesOff { channel: 2 }.to_bytes(),
        vec![0xB2, 123, 0]
    );
    // The channel is masked to four bits.
    assert_eq!(
        MidiMessage::NoteOff {
            channel: 0x1F,
            note: 10
        }
        .to_bytes(),
        vec![0x8F, 10, 0]
    );
}
