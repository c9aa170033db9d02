use phasorsyncrs::midi::{BpmCalculator, ClockCore, ClockMessage, ExternalClock, InternalEngine};
use phasorsyncrs::midi::engine::MidiMessage;
use phasorsyncrs::midi::external_clock::INACTIVITY_TIMEOUT_US;
use phasorsyncrs::state::{SharedState, TransportState};

// 120 BPM at 24 PPQN: one tick every 20,833 µs.
const TICK_INTERVAL_US: u64 = 20_833;

/// Tempo tolerance in thousandths of a beat per minute.
const BPM_TOLERANCE_MILLI: u64 = 2_000;

fn milli_bpm_close_to(actual: u64, expected: u64) -> bool {
    actual.abs_diff(expected) <= BPM_TOLERANCE_MILLI
}

#[test]
fn test_bpm_calculator_start_stop() {
    let mut calc = BpmCalculator::new();

    // Initially no BPM
    assert_eq!(calc.process_message(ClockMessage::Tick, 0), None);

    // Start message
    assert_eq!(calc.process_message(ClockMessage::Start, 100), None);
    assert!(calc.is_playing());

    // Stop message
    assert_eq!(calc.process_message(ClockMessage::Stop, 200), None);
    assert!(!calc.is_playing());

    // Ticks while stopped should return None
    assert_eq!(calc.process_message(ClockMessage::Tick, 300), None);
}

#[test]
fn test_transport_state_transitions() {
    let mut calc = BpmCalculator::new();

    // Initial state should be stopped
    assert!(!calc.is_playing());

    // Start -> Running
    calc.process_message(ClockMessage::Start, 0);
    assert!(calc.is_playing());

    // Start while already running should reset but stay running
    calc.process_message(ClockMessage::Start, 10);
    assert!(calc.is_playing());

    // Stop -> Stopped
    calc.process_message(ClockMessage::Stop, 20);
    assert!(!calc.is_playing());

    // Continue -> Running
    calc.process_message(ClockMessage::Continue, 30);
    assert!(calc.is_playing());

    // Stop -> Stopped again
    calc.process_message(ClockMessage::Stop, 40);
    assert!(!calc.is_playing());

    // Multiple stops should keep it stopped
    calc.process_message(ClockMessage::Stop, 50);
    assert!(!calc.is_playing());
}

#[test]
fn test_transport_state_with_ticks() {
    let mut calc = BpmCalculator::new();

    // Ticks while stopped should not affect state
    calc.process_message(ClockMessage::Tick, 0);
    assert!(!calc.is_playing());

    // Start and verify ticks are processed
    calc.process_message(ClockMessage::Start, 10);
    assert!(calc.is_playing());
    calc.process_message(ClockMessage::Tick, 20);
    assert!(calc.is_playing());

    // Stop and verify ticks don't restart
    calc.process_message(ClockMessage::Stop, 30);
    assert!(!calc.is_playing());
    calc.process_message(ClockMessage::Tick, 40);
    assert!(!calc.is_playing());

    // Continue and verify ticks are processed again
    calc.process_message(ClockMessage::Continue, 50);
    assert!(calc.is_playing());
    calc.process_message(ClockMessage::Tick, 60);
    assert!(calc.is_playing());
}

#[test]
fn test_bpm_converges_at_120() {
    // Feeding 24+ synthetic ticks spaced exactly 20,833 µs apart (120 BPM at
    // 24 PPQN) must yield a tempo within 2 BPM of 120.
    let mut calc = BpmCalculator::new();
    calc.process_message(ClockMessage::Start, 0);

    let mut now = 0u64;
    let mut last_estimate = None;
    for _ in 0..30 {
        last_estimate = calc.process_message(ClockMessage::Tick, now);
        now += TICK_INTERVAL_US;
    }

    let milli_bpm = last_estimate.expect("expected a tempo estimate");
    assert!(
        milli_bpm_close_to(milli_bpm, 120_000),
        "expected about 120 BPM, got {} milli-BPM",
        milli_bpm
    );
    assert_eq!(calc.current_bpm(), Some(milli_bpm));
}

#[test]
fn test_outlier_intervals_are_rejected() {
    // A single 500 µs or 500 ms anomalous gap in an otherwise steady 120 BPM
    // stream must not move the estimate beyond the tolerance.
    let mut calc = BpmCalculator::new();
    calc.process_message(ClockMessage::Start, 0);

    let mut now = 0u64;
    for _ in 0..24 {
        calc.process_message(ClockMessage::Tick, now);
        now += TICK_INTERVAL_US;
    }
    let steady = calc.current_bpm().expect("expected a tempo estimate");

    // A 500 µs double-fire.
    now += 500;
    calc.process_message(ClockMessage::Tick, now);
    let after_short = calc.current_bpm().expect("expected a tempo estimate");
    assert_eq!(after_short, steady, "a 500 µs gap must be dropped");

    // A 500 ms stall.
    now += 500_000;
    calc.process_message(ClockMessage::Tick, now);
    let after_long = calc.current_bpm().expect("expected a tempo estimate");
    assert_eq!(after_long, steady, "a 500 ms gap must be dropped");

    assert!(milli_bpm_close_to(after_long, 120_000));

    // Once the steady cadence resumes, the follow-on gaps land in the trimmed
    // quartiles and the estimate stays within tolerance.
    for _ in 0..24 {
        now += TICK_INTERVAL_US;
        calc.process_message(ClockMessage::Tick, now);
    }
    let resumed = calc.current_bpm().expect("expected a tempo estimate");
    assert!(
        milli_bpm_close_to(resumed, 120_000),
        "expected about 120 BPM after the anomalies, got {} milli-BPM",
        resumed
    );
}

#[test]
fn test_current_bpm_is_an_idempotent_read() {
    let mut calc = BpmCalculator::new();
    calc.process_message(ClockMessage::Start, 0);
    let mut now = 0u64;
    for _ in 0..10 {
        calc.process_message(ClockMessage::Tick, now);
        now += TICK_INTERVAL_US;
    }
    let first = calc.current_bpm();
    let second = calc.current_bpm();
    assert_eq!(first, second);
    assert!(first.is_some());
}

#[test]
fn test_stop_retains_last_tempo() {
    let mut calc = BpmCalculator::new();
    calc.process_message(ClockMessage::Start, 0);
    let mut now = 0u64;
    for _ in 0..24 {
        calc.process_message(ClockMessage::Tick, now);
        now += TICK_INTERVAL_US;
    }
    let before = calc.current_bpm();
    calc.process_message(ClockMessage::Stop, now);
    assert_eq!(calc.current_bpm(), before, "Stop keeps the window");

    calc.process_message(ClockMessage::Start, now);
    assert_eq!(calc.current_bpm(), None, "Start clears the window");
}

#[test]
fn test_external_transport_state() {
    let shared_state = SharedState::new(120);
    let mut clock = ExternalClock::new(shared_state, 0);

    // Start playback
    clock.handle_midi_message(MidiMessage::Start, 10);
    assert!(
        clock.is_playing(),
        "Transport should be playing after Start"
    );

    // Send some clock ticks
    let mut now = 10u64;
    for _ in 0..24 {
        now += TICK_INTERVAL_US;
        clock.handle_midi_message(MidiMessage::Clock, now);
    }

    // Stop playback
    clock.handle_midi_message(MidiMessage::Stop, now + 10);
    assert!(
        !clock.is_playing(),
        "Transport should be stopped after Stop"
    );

    // Send more clock ticks while stopped - should not affect playing state
    for _ in 0..24 {
        now += TICK_INTERVAL_US;
        clock.handle_midi_message(MidiMessage::Clock, now);
        assert!(
            !clock.is_playing(),
            "Transport should remain stopped when receiving ticks while stopped"
        );
    }

    // Continue playback
    clock.handle_midi_message(MidiMessage::Continue, now + 10);
    assert!(
        clock.is_playing(),
        "Transport should be playing after Continue"
    );
}

#[test]
fn test_external_clock_updates_tempo_and_position() {
    let shared_state = SharedState::new(120);
    let mut clock = ExternalClock::new(shared_state, 0);

    clock.handle_midi_message(MidiMessage::Start, 0);
    let mut now = 0u64;
    for _ in 0..30 {
        now += TICK_INTERVAL_US;
        clock.handle_midi_message(MidiMessage::Clock, now);
    }

    // Every tick advances the transport, whether or not a tempo estimate
    // exists yet.
    assert_eq!(clock.shared_state.tick_count, 30);
    let bpm = clock.shared_state.get_bpm();
    assert!(
        (118..=122).contains(&bpm),
        "expected about 120 BPM, got {}",
        bpm
    );
}

#[test]
fn test_external_clock_advances_from_the_first_tick() {
    // The first beats of a session must not be lost: the transport advances
    // from the very first tick after Start, before any tempo estimate is
    // available.
    let shared_state = SharedState::new(120);
    let mut clock = ExternalClock::new(shared_state, 0);

    clock.handle_midi_message(MidiMessage::Start, 0);
    clock.handle_midi_message(MidiMessage::Clock, TICK_INTERVAL_US);
    assert_eq!(clock.shared_state.tick_count, 1);
    assert_eq!(clock.shared_state.get_bpm(), 0, "no estimate yet");

    clock.handle_midi_message(MidiMessage::Clock, 2 * TICK_INTERVAL_US);
    clock.handle_midi_message(MidiMessage::Clock, 3 * TICK_INTERVAL_US);
    assert_eq!(clock.shared_state.tick_count, 3);
}

#[test]
fn test_watchdog_forces_stop_after_timeout() {
    // An external clock source that receives nothing for more than the
    // five-second timeout forces the transport to Stopped and tells its
    // caller to end the processing loop.
    let mut shared_state = SharedState::new(120);
    shared_state.transport_state = TransportState::Playing;
    let mut clock = ExternalClock::new(shared_state, 0);

    // Just within the timeout: still alive.
    assert!(clock.check_connection_status(INACTIVITY_TIMEOUT_US));
    assert!(clock.is_playing());

    // Past the timeout: the loop must end and the transport is stopped.
    assert!(!clock.check_connection_status(INACTIVITY_TIMEOUT_US + 1));
    assert!(!clock.is_playing());
}

#[test]
fn test_watchdog_resets_on_traffic() {
    let mut shared_state = SharedState::new(120);
    shared_state.transport_state = TransportState::Playing;
    let mut clock = ExternalClock::new(shared_state, 0);

    // A message four seconds in keeps the stream alive well past the first
    // deadline.
    clock.handle_midi_message(MidiMessage::Start, 4_000_000);
    assert!(clock.check_connection_status(8_000_000));
    assert!(clock.is_playing());
}

#[test]
fn test_clock_core_drives_transport_and_tempo() {
    let shared_state = SharedState::new(120);
    let mut core = ClockCore::new(shared_state);

    assert!(!core.is_playing());
    core.process_message(ClockMessage::Start, 0);
    assert!(core.is_playing());

    let mut now = 0u64;
    for _ in 0..30 {
        now += TICK_INTERVAL_US;
        core.process_message(ClockMessage::Tick, now);
    }
    assert_eq!(core.shared_state.tick_count, 30);
    let milli = core.current_bpm().expect("expected a tempo estimate");
    assert!(milli_bpm_close_to(milli, 120_000));
    let bpm = core.shared_state.get_bpm();
    assert!((118..=122).contains(&bpm));

    core.process_message(ClockMessage::Stop, now + 10);
    assert!(!core.is_playing());
}

#[test]
fn test_internal_engine_feeds_clock_core() {
    let shared_state = SharedState::new(120);
    let mut engine = InternalEngine::new(shared_state);

    engine.handle_message(MidiMessage::Start, 0);
    let mut now = 0u64;
    for _ in 0..24 {
        now += TICK_INTERVAL_US;
        engine.handle_message(MidiMessage::Clock, now);
    }
    assert_eq!(engine.clock_core.shared_state.tick_count, 24);
    assert!(engine.clock_core.is_playing());

    engine.handle_message(MidiMessage::Stop, now + 10);
    assert!(!engine.clock_core.is_playing());
}

#[test]
fn test_clock_message_from_midi_message() {
    assert_eq!(ClockMessage::from(MidiMessage::Clock), ClockMessage::Tick);
    assert_eq!(ClockMessage::from(MidiMessage::Start), ClockMessage::Start);
    assert_eq!(ClockMessage::from(MidiMessage::Stop), ClockMessage::Stop);
    assert_eq!(
        ClockMessage::from(MidiMessage::Continue),
        ClockMessage::Continue
    );
    // Anything else stands in for a tick on this path.
    assert_eq!(
        ClockMessage::from(MidiMessage::NoteOn {
            channel: 0,
            note: 60,
            velocity: 100
        }),
        ClockMessage::Tick
    );
}
