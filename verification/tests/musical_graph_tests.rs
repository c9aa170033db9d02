use phasorsyncrs::musical_graph::MusicalEventGenerator;
use phasorsyncrs::state::{SharedState, TransportState};

#[test]
fn test_middle_c_trigger_condition() {
    let mut generator = MusicalEventGenerator::new();

    // Create a SharedState instance with dummy values.
    let mut state = SharedState {
        tick_count: 0,
        current_beat: 0,
        current_bar: 8, // 8 is a multiple of 8 and > 0.
        bpm: 120,
        transport_state: TransportState::Stopped,
        recording: false,
        recording_target: None,
    };

    // Call process_tick; this should not trigger Middle C because transport is stopped
    let triggered = generator.process_tick(&mut state);

    // Verify Middle C was not triggered because transport is stopped
    assert_eq!(triggered, false);
    assert_eq!(state.current_bar, 8);
    assert_eq!(state.current_beat, 0);
}

#[test]
fn test_middle_c_triggers_only_once_per_bar() {
    // A fresh generator gives a clean state.
    let mut generator = MusicalEventGenerator::new();

    // Create a SharedState instance
    let mut state = SharedState {
        tick_count: 0,
        current_beat: 0,
        current_bar: 0,
        bpm: 120,
        transport_state: TransportState::Playing,
        recording: false,
        recording_target: None,
    };

    let mut trigger_count = 0;

    // Simulate ticks for 8 bars (8 bars * 4 beats * 24 ticks = 768 ticks)
    // This should trigger Middle C on every bar
    for _ in 0..768 {
        let triggered = generator.process_tick(&mut state);
        if triggered {
            trigger_count += 1;
        }
    }

    // Check that Middle C was triggered on every bar
    assert_eq!(
        trigger_count, 8,
        "Middle C should be triggered on every bar"
    );
}

#[test]
fn test_reset_musical_tick_count() {
    let mut generator = MusicalEventGenerator::new();
    let mut state = SharedState::new(120);
    state.transport_state = TransportState::Playing;

    // Advance half a bar, then reset: the next trigger must come a full bar
    // after the reset, not earlier.
    for _ in 0..48 {
        generator.process_tick(&mut state);
    }
    generator.reset_musical_tick_count();

    let mut ticks_until_trigger = 0;
    loop {
        ticks_until_trigger += 1;
        if generator.process_tick(&mut state) {
            break;
        }
        assert!(ticks_until_trigger < 200, "trigger never fired");
    }
    assert_eq!(ticks_until_trigger, 96);
}
