use phasorsyncrs::config::{parse_u32_decimal, tick_interval_us, ClockSource, Config};

#[test]
fn test_parse_u32_decimal() {
    assert_eq!(parse_u32_decimal("0"), Some(0));
    assert_eq!(parse_u32_decimal("120"), Some(120));
    assert_eq!(parse_u32_decimal("4294967295"), Some(u32::MAX));
    assert_eq!(parse_u32_decimal("4294967296"), None);
    assert_eq!(parse_u32_decimal("99999999999999999999"), None);
    assert_eq!(parse_u32_decimal(""), None);
    assert_eq!(parse_u32_decimal("12a"), None);
    assert_eq!(parse_u32_decimal("-5"), None);
    assert_eq!(parse_u32_decimal(" 5"), None);
}

#[test]
fn test_parse_bpm_defaults_to_120() {
    assert_eq!(Config::parse_bpm(None), 120);
    assert_eq!(Config::parse_bpm(Some(&"abc".to_string())), 120);
    assert_eq!(Config::parse_bpm(Some(&"90".to_string())), 90);
    assert_eq!(Config::parse_bpm(Some(&"".to_string())), 120);
}

#[test]
fn test_determine_clock_source() {
    // Binding to a device forces the external clock.
    assert_eq!(
        Config::determine_clock_source(None, true),
        ClockSource::External
    );
    assert_eq!(
        Config::determine_clock_source(Some(&"internal".to_string()), true),
        ClockSource::External
    );

    // Otherwise the explicit argument decides.
    assert_eq!(
        Config::determine_clock_source(Some(&"external".to_string()), false),
        ClockSource::External
    );
    assert_eq!(
        Config::determine_clock_source(Some(&"internal".to_string()), false),
        ClockSource::Internal
    );
    assert_eq!(
        Config::determine_clock_source(None, false),
        ClockSource::Internal
    );
}

#[test]
fn test_config_new() {
    let config = Config::new(
        Some("132".to_string()),
        None,
        Some("OP-1".to_string()),
        Some("Synth".to_string()),
        true,
        false,
    );
    assert_eq!(config.bpm, 132);
    assert_eq!(config.clock_source, ClockSource::External);
    assert_eq!(config.bind_to_device.as_deref(), Some("OP-1"));
    assert_eq!(config.midi_output_device.as_deref(), Some("Synth"));
    assert!(config.send_test_note);
    assert!(!config.direct_test);
    assert!(config.default_phasor_length.is_none());
}

#[test]
fn test_config_new_defaults() {
    let config = Config::new(None, None, None, None, false, false);
    assert_eq!(config.bpm, 120);
    assert_eq!(config.clock_source, ClockSource::Internal);
    assert!(config.bind_to_device.is_none());
    assert!(config.midi_output_device.is_none());
    assert!(!config.send_test_note);
    assert!(!config.direct_test);
}

#[test]
fn test_tick_interval_us() {
    // One beat at 120 BPM is 500 ms; a tick is one twenty-fourth of that.
    assert_eq!(tick_interval_us(120), 20_833);
    assert_eq!(tick_interval_us(60), 41_666);
    assert_eq!(tick_interval_us(122), 20_491);
    assert_eq!(tick_interval_us(1), 2_500_000);
}
