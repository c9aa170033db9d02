//! Run configuration: tempo, clock-source selection and device bindings.
//!
//! The surrounding program parses the raw command line and hands the values
//! here as plain options and flags; the decisions — which clock source runs,
//! what tempo a textual argument means — are made and proved here.

use vstd::prelude::*;
use vstd::std_specs::iter::IteratorSpec;
use vstd::string::StringExecFns;

verus! {

/// MIDI-standard pulses (ticks) per quarter note.
pub const TICKS_PER_BEAT: u64 = 24;

/// Beats in one bar.
pub const BEATS_PER_BAR: u64 = 4;

/// Bars in one phrase.
pub const BARS_PER_PHRASE: u64 = 4;

/// The tempo used when none is given or the given one cannot be read.
pub const DEFAULT_BPM: u32 = 120;

/// Where ticks come from.
#[derive(Debug, Clone, Copy, PartialEq, Eq, Structural)]
pub enum ClockSource {
    Internal,
    External,
}

/// The program's run configuration.
#[derive(Debug)]
pub struct Config {
    pub bpm: u32,
    pub clock_source: ClockSource,
    pub default_phasor_length: Option<u32>,
    pub bind_to_device: Option<String>,
    pub midi_output_device: Option<String>,
    pub send_test_note: bool,
    pub direct_test: bool,
}

/// A decimal digit.
pub open spec fn is_decimal_digit(c: char) -> bool {
    '0' <= c && c <= '9'
}

/// The value of one digit.
pub open spec fn digit_value(c: char) -> int {
    c as int - '0' as int
}

/// Whether every character is a decimal digit.
pub open spec fn all_digits(s: Seq<char>) -> bool {
    forall|i: int| 0 <= i < s.len() ==> is_decimal_digit(#[trigger] s[i])
}

/// The number a digit string denotes, most significant digit first.
pub open spec fn decimal_value(s: Seq<char>) -> int
    decreases s.len(),
{
    if s.len() == 0 {
        0
    } else {
        decimal_value(s.drop_last()) * 10 + digit_value(s.last())
    }
}

/// What a string parses to as a `u32`: it must be non-empty, all digits, and
/// within range.
pub open spec fn parse_u32_spec(s: Seq<char>) -> Option<u32> {
    if s.len() > 0 && all_digits(s) && decimal_value(s) <= u32::MAX {
        Some(decimal_value(s) as u32)
    } else {
        None
    }
}

/// Parse a plain decimal `u32`, exactly as `parse_u32_spec` states it.
pub fn parse_u32_decimal(s: &str) -> (r: Option<u32>)
    ensures
        r == parse_u32_spec(s@),
{
    broadcast use vstd::string::next_postcondition;
    broadcast use vstd::string::axiom_spec_iter;

    if s.is_empty() {
        return None;
    }

    let ghost all: Seq<char> = s@;
    let mut it = s.chars();
    let mut acc: u64 = 0;
    let mut overflowed: bool = false;
    let ghost mut k: int = 0;

    loop
        invariant
            all == s@,
            0 <= k <= all.len(),
            all.len() > 0,
            it.obeys_prophetic_iter_laws(),
            it.remaining() == all.skip(k),
            all_digits(all.subrange(0, k)),
            !overflowed ==> acc == decimal_value(all.subrange(0, k)) && acc <= u32::MAX,
            overflowed ==> decimal_value(all.subrange(0, k)) > u32::MAX,
        decreases all.len() - k,
    {
        let next_char = it.next();
        match next_char {
            None => {
                proof {
                    assert(all.skip(k).len() == 0);
                    assert(k == all.len());
                    assert(all.subrange(0, k) =~= all);
                }
                if overflowed {
                    return None;
                }
                return Some(acc as u32);
            },
            Some(c) => {
                proof {
                    assert(all.skip(k).len() > 0);
                    assert(all.skip(k)[0] == all[k]);
                    assert(c == all[k]);
                    assert(all.skip(k).drop_first() =~= all.skip(k + 1));
                }
                if c < '0' || c > '9' {
                    proof {
                        assert(!is_decimal_digit(all[k]));
                        assert(!all_digits(all));
                    }
                    return None;
                }
                let d: u64 = (c as u64) - ('0' as u64);
                let ghost prefix = all.subrange(0, k);
                proof {
                    assert(all.subrange(0, k + 1) =~= prefix.push(c));
                    assert(all.subrange(0, k + 1).drop_last() =~= prefix);
                    assert(decimal_value(all.subrange(0, k + 1)) == decimal_value(prefix) * 10
                        + digit_value(c));
                }
                if overflowed || acc > 429_496_729 || (acc == 429_496_729 && d > 5) {
                    proof {
                        if !overflowed {
                            assert(decimal_value(prefix) * 10 + digit_value(c) > u32::MAX);
                        } else {
                            assert(decimal_value(prefix) > u32::MAX);
                            assert(decimal_value(prefix) * 10 + digit_value(c) > u32::MAX);
                        }
                    }
                    overflowed = true;
                } else {
                    acc = acc * 10 + d;
                }
                proof {
                    k = k + 1;
                }
            },
        }
    }
}

/// The view of an optional string.
pub open spec fn opt_chars(o: Option<&String>) -> Option<Seq<char>> {
    match o {
        Some(s) => Some(s@),
        None => None,
    }
}

/// The tempo an optional textual argument means: its decimal value, or the
/// default when it is absent or not a plain decimal number.
pub open spec fn parse_bpm_spec(arg: Option<Seq<char>>) -> u32 {
    match arg {
        Some(s) => match parse_u32_spec(s) {
            Some(v) => v,
            None => DEFAULT_BPM,
        },
        None => DEFAULT_BPM,
    }
}

/// Which clock source a run uses: binding to an external device forces the
/// external clock; otherwise the explicit argument decides, and the internal
/// clock is the default.
pub open spec fn determine_clock_source_spec(
    clock_source_arg: Option<Seq<char>>,
    bind_to_device: bool,
) -> ClockSource {
    if bind_to_device {
        ClockSource::External
    } else {
        match clock_source_arg {
            Some(s) => if s == "external"@ {
                ClockSource::External
            } else {
                ClockSource::Internal
            },
            None => ClockSource::Internal,
        }
    }
}

impl Config {
    /// Read the tempo argument.
    pub fn parse_bpm(bpm_arg: Option<&String>) -> (r: u32)
        ensures
            r == parse_bpm_spec(opt_chars(bpm_arg)),
    {
        match bpm_arg {
            Some(s) => match parse_u32_decimal(s.as_str()) {
                Some(v) => v,
                None => DEFAULT_BPM,
            },
            None => DEFAULT_BPM,
        }
    }

    /// Decide the clock source.
    pub fn determine_clock_source(clock_source_arg: Option<&String>, bind_to_device: bool) -> (r:
        ClockSource)
        ensures
            r == determine_clock_source_spec(opt_chars(clock_source_arg), bind_to_device),
    {
        if bind_to_device {
            return ClockSource::External;
        }
        match clock_source_arg {
            Some(s) => {
                let external = "external".to_owned();
                if *s == external {
                    ClockSource::External
                } else {
                    ClockSource::Internal
                }
            },
            None => ClockSource::Internal,
        }
    }

    /// Assemble the configuration from the raw command-line values.
    pub fn new(
        bpm_arg: Option<String>,
        clock_source_arg: Option<String>,
        bind_to_device: Option<String>,
        midi_output_device: Option<String>,
        send_test_note: bool,
        direct_test: bool,
    ) -> (c: Config)
        ensures
            c.bpm == parse_bpm_spec(
                match bpm_arg {
                    Some(s) => Some(s@),
                    None => None,
                },
            ),
            c.clock_source == determine_clock_source_spec(
                match clock_source_arg {
                    Some(s) => Some(s@),
                    None => None,
                },
                bind_to_device is Some,
            ),
            c.default_phasor_length is None,
            c.bind_to_device == bind_to_device,
            c.midi_output_device == midi_output_device,
            c.send_test_note == send_test_note,
            c.direct_test == direct_test,
    {
        let bpm = Self::parse_bpm(bpm_arg.as_ref());
        let clock_source = Self::determine_clock_source(
            clock_source_arg.as_ref(),
            bind_to_device.is_some(),
        );

        Config {
            bpm,
            clock_source,
            default_phasor_length: None,
            bind_to_device,
            midi_output_device,
            send_test_note,
            direct_test,
        }
    }
}

/// Microseconds between ticks of the internal clock at a whole tempo: one
/// minute over the tempo gives the beat, and a beat holds 24 ticks.
pub fn tick_interval_us(bpm: u32) -> (r: u64)
    requires
        1 <= bpm,
    ensures
        r == 60_000_000 as int / bpm as int / TICKS_PER_BEAT as int,
{
    (60_000_000u64 / (bpm as u64)) / TICKS_PER_BEAT
}

} // verus!
