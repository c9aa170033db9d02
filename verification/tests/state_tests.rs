use phasorsyncrs::state::{SharedState, TransportState};

#[test]
fn test_shared_state_initializes_with_zero_bpm() {
    // Create shared state with any BPM value
    let state = SharedState::new(120);

    // Verify that BPM is initialized to 0 regardless of input
    assert_eq!(
        state.get_bpm(),
        0,
        "BPM should initialize to 0 regardless of config"
    );
}

#[test]
fn test_new_state_is_stopped_at_origin() {
    let state = SharedState::new(90);
    assert_eq!(state.transport_state, TransportState::Stopped);
    assert_eq!(state.get_tick_count(), 0);
    assert_eq!(state.get_current_beat(), 0);
    assert_eq!(state.get_current_bar(), 0);
    assert!(!state.recording);
    assert!(state.recording_target.is_none());
}

#[test]
fn test_tick_update_while_stopped_changes_nothing() {
    let mut state = SharedState::new(120);
    for _ in 0..10 {
        state.tick_update();
    }
    assert_eq!(state.get_tick_count(), 0);
    assert_eq!(state.get_current_beat(), 0);
    assert_eq!(state.get_current_bar(), 0);
}

#[test]
fn test_tick_update_advances_position_while_playing() {
    let mut state = SharedState::new(120);
    state.transport_state = TransportState::Playing;

    state.tick_update();
    assert_eq!(state.get_tick_count(), 1);
    assert_eq!(state.get_current_beat(), 1);
    assert_eq!(state.get_current_bar(), 1);

    // One full beat: 24 ticks.
    for _ in 0..23 {
        state.tick_update();
    }
    assert_eq!(state.get_tick_count(), 24);
    assert_eq!(state.get_current_beat(), 2);
    assert_eq!(state.get_current_bar(), 1);
}

#[test]
fn test_beat_stays_in_range_over_many_ticks() {
    let mut state = SharedState::new(120);
    state.transport_state = TransportState::Playing;
    for _ in 0..500 {
        state.tick_update();
        let beat = state.get_current_beat();
        assert!((1..=4).contains(&beat), "beat {} out of range", beat);
        assert!(state.get_current_bar() >= 1);
    }
}

#[test]
fn test_bar_advances_every_96_ticks() {
    let mut state = SharedState::new(120);
    state.transport_state = TransportState::Playing;
    for _ in 0..96 {
        state.tick_update();
    }
    assert_eq!(state.get_current_bar(), 2);
    assert_eq!(state.get_current_beat(), 1);

    for _ in 0..96 {
        state.tick_update();
    }
    assert_eq!(state.get_current_bar(), 3);
    assert_eq!(state.get_current_beat(), 1);
}

#[test]
fn test_set_playing_only_touches_transport_state() {
    let mut state = SharedState::new(120);
    state.transport_state = TransportState::Playing;
    for _ in 0..30 {
        state.tick_update();
    }
    let ticks = state.get_tick_count();

    state.set_playing(false);
    assert_eq!(state.transport_state, TransportState::Stopped);
    assert_eq!(state.get_tick_count(), ticks);

    state.set_playing(true);
    assert_eq!(state.transport_state, TransportState::Playing);
    assert_eq!(state.get_tick_count(), ticks);
}

#[test]
fn test_set_tempo_rounds_to_whole_bpm() {
    let mut state = SharedState::new(120);
    state.set_tempo(120_001);
    assert_eq!(state.get_bpm(), 120);
    state.set_tempo(120_500);
    assert_eq!(state.get_bpm(), 121);
    state.set_tempo(119_499);
    assert_eq!(state.get_bpm(), 119);
}

#[test]
fn test_set_recording_stores_target() {
    let mut state = SharedState::new(120);
    state.set_recording(true, Some("wav_files/take.wav".to_string()));
    assert!(state.recording);
    assert_eq!(state.recording_target.as_deref(), Some("wav_files/take.wav"));

    state.set_recording(false, None);
    assert!(!state.recording);
    assert!(state.recording_target.is_none());
}
