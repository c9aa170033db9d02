//! MIDI clock messages and tempo estimation.
//!
//! The estimator turns a stream of tick timestamps into a smoothed tempo: it
//! records the gaps between consecutive ticks, keeps a bounded window of
//! plausible gaps, and averages the window after discarding the lowest and
//! highest quartile, so that single jitter outliers cannot move the estimate.
//! All times are in microseconds; tempos are in thousandths of a beat per
//! minute, so that no floating point is needed.

use vstd::prelude::*;
use vstd::relations::{sorted_by, total_ordering};
use vstd::seq_lib::lemma_sorted_unique;

use vstd::arithmetic::div_mod::{
    lemma_div_is_ordered_by_denominator, lemma_fundamental_div_mod,
    lemma_fundamental_div_mod_converse,
};

use crate::midi::engine::MidiMessage;
use crate::state::{
    ticked, with_milli_tempo, with_playing, SharedState, TransportState, TICK_COUNT_LIMIT,
};

verus! {

/// MIDI-standard pulses per quarter note.
pub const PPQ: u32 = 24;

/// Number of inter-tick gaps the estimator averages over: one beat's worth.
pub const BPM_WINDOW_SIZE: usize = 24;

/// A gap at or under this many microseconds is a spurious double-fire.
pub const MIN_ACCEPTED_INTERVAL_US: u64 = 1_000;

/// A gap at or over this many microseconds is a stall.
pub const MAX_ACCEPTED_INTERVAL_US: u64 = 100_000;

/// Thousandths of a beat per minute for a one-microsecond tick gap:
/// 60,000,000 µs per minute, over 24 ticks per beat, times 1000.
pub const MILLI_BPM_DIVIDEND: u64 = 2_500_000_000;

/// The clock vocabulary the estimator understands.
#[derive(Debug, Clone, Copy, PartialEq, Eq, Structural)]
#[non_exhaustive]
pub enum ClockMessage {
    Tick,
    Start,
    Stop,
    Continue,
}

/// The order the estimator sorts its window by.
pub open spec fn u64_le() -> spec_fn(u64, u64) -> bool {
    |a: u64, b: u64| a <= b
}

/// Whether a gap between consecutive ticks is plausible enough to record.
pub open spec fn interval_accepted(elapsed_us: u64) -> bool {
    MIN_ACCEPTED_INTERVAL_US < elapsed_us && elapsed_us < MAX_ACCEPTED_INTERVAL_US
}

/// The gap from `last_us` to `now_us`, clamped to zero if time did not move
/// forward.
pub open spec fn elapsed_between(last_us: u64, now_us: u64) -> u64 {
    if now_us >= last_us {
        (now_us - last_us) as u64
    } else {
        0
    }
}

/// The window after recording one accepted gap: the gap is appended and the
/// oldest entries beyond the window size are evicted.
pub open spec fn window_push(iv: Seq<u64>, elapsed: u64) -> Seq<u64> {
    let pushed = iv.push(elapsed);
    if pushed.len() <= BPM_WINDOW_SIZE as nat {
        pushed
    } else {
        pushed.subrange(pushed.len() - BPM_WINDOW_SIZE as int, pushed.len() as int)
    }
}

/// The window after one tick at `now_us`: the first tick only sets the
/// reference point, and a gap outside the plausible range is dropped.
pub open spec fn window_after_tick(iv: Seq<u64>, last: Option<u64>, now_us: u64) -> Seq<u64> {
    match last {
        Some(l) => {
            let e = elapsed_between(l, now_us);
            if interval_accepted(e) {
                window_push(iv, e)
            } else {
                iv
            }
        },
        None => iv,
    }
}

/// Sum of a sequence of gaps.
pub open spec fn sum_of(s: Seq<u64>) -> int
    decreases s.len(),
{
    if s.len() == 0 {
        0
    } else {
        s[0] + sum_of(s.drop_first())
    }
}

/// The middle of the sorted window: the lowest and highest quartile are
/// dropped.
pub open spec fn trimmed_window(iv: Seq<u64>) -> Seq<u64> {
    iv.sort_by(u64_le()).subrange(iv.len() as int / 4, iv.len() as int * 3 / 4)
}

/// The tempo the window denotes, in thousandths of a beat per minute: the
/// trimmed mean of the gaps, turned into ticks per minute and divided by the
/// pulses per quarter note. A window of fewer than three gaps says nothing.
pub open spec fn bpm_estimate(iv: Seq<u64>) -> Option<u64> {
    if iv.len() >= 3 {
        let mid = trimmed_window(iv);
        let avg = sum_of(mid) / mid.len() as int;
        Some((MILLI_BPM_DIVIDEND as int / avg) as u64)
    } else {
        None
    }
}

/// `u64_le` is a total order.
proof fn lemma_u64_le_total()
    ensures
        total_ordering(u64_le()),
{
    let leq = u64_le();
    assert forall|a: u64| #[trigger] leq(a, a) by {}
}

/// Quartile indices are in order: for a window of at least three entries the
/// trimmed middle is non-empty and within bounds.
proof fn lemma_quartile_bounds(n: int)
    requires
        3 <= n,
    ensures
        0 <= n / 4 < n * 3 / 4 <= n,
{
    let q = n / 4;
    let r = n % 4;
    lemma_fundamental_div_mod(n, 4);
    if r == 0 {
        lemma_fundamental_div_mod_converse(n * 3, 4, 3 * q, 0);
    } else if r == 1 {
        lemma_fundamental_div_mod_converse(n * 3, 4, 3 * q, 3);
    } else if r == 2 {
        lemma_fundamental_div_mod_converse(n * 3, 4, 3 * q + 1, 2);
    } else {
        lemma_fundamental_div_mod_converse(n * 3, 4, 3 * q + 2, 1);
    }
}

/// Appending to a sequence adds its value to the sum.
pub proof fn lemma_sum_push(s: Seq<u64>, x: u64)
    ensures
        sum_of(s.push(x)) == sum_of(s) + x,
    decreases s.len(),
{
    if s.len() == 0 {
        assert(s.push(x).drop_first() =~= Seq::<u64>::empty());
        assert(s.push(x)[0] == x);
        assert(sum_of(s.push(x)) == x + sum_of(Seq::<u64>::empty()));
        assert(sum_of(Seq::<u64>::empty()) == 0);
        assert(sum_of(s) == 0);
    } else {
        assert(s.push(x).drop_first() =~= s.drop_first().push(x));
        lemma_sum_push(s.drop_first(), x);
        assert(s.push(x)[0] == s[0]);
        assert(sum_of(s.push(x)) == s[0] + sum_of(s.drop_first().push(x)));
        assert(sum_of(s) == s[0] + sum_of(s.drop_first()));
    }
}

/// Two sequences with the same multiset of entries satisfy the same
/// entry-wise range bound.
proof fn lemma_multiset_preserves_range(a: Seq<u64>, b: Seq<u64>, lo: u64, hi: u64)
    requires
        a.to_multiset() == b.to_multiset(),
        forall|i: int| 0 <= i < a.len() ==> lo < #[trigger] a[i] < hi,
    ensures
        forall|i: int| 0 <= i < b.len() ==> lo < #[trigger] b[i] < hi,
{
    broadcast use vstd::seq_lib::group_to_multiset_ensures;

    assert forall|i: int| 0 <= i < b.len() implies lo < #[trigger] b[i] < hi by {
        assert(b.contains(b[i]));
        assert(a.to_multiset().count(b[i]) > 0);
        assert(a.contains(b[i]));
        let j = choose|j: int| 0 <= j < a.len() && a[j] == b[i];
        assert(lo < a[j] < hi);
    }
}

/// Insert a value into a sorted vector, keeping it sorted.
fn insert_sorted(r: &mut Vec<u64>, x: u64)
    requires
        sorted_by(old(r)@, u64_le()),
    ensures
        sorted_by(final(r)@, u64_le()),
        final(r)@.to_multiset() == old(r)@.to_multiset().insert(x),
        final(r)@.len() == old(r)@.len() + 1,
{
    broadcast use vstd::seq_lib::group_to_multiset_ensures;
    broadcast use vstd::multiset::group_multiset_axioms;

    let mut j: usize = 0;
    while j < r.len() && r[j] <= x
        invariant
            sorted_by(r@, u64_le()),
            r@ == old(r)@,
            j <= r@.len(),
            forall|k: int| 0 <= k < j ==> r@[k] <= x,
        decreases r@.len() - j,
    {
        j = j + 1;
    }

    let ghost before = r@;
    r.insert(j, x);

    proof {
        let leq = u64_le();
        let now = r@;
        assert(now == before.insert(j as int, x));
        assert(now[j as int] == x);
        assert forall|m: int, n: int| 0 <= m < n < now.len() implies #[trigger] leq(
            now[m],
            now[n],
        ) by {
            if m < j && n < j {
                assert(now[m] == before[m] && now[n] == before[n]);
            } else if m < j && n == j {
                assert(now[m] == before[m] && before[m] <= x);
            } else if m < j && n > j {
                assert(now[m] == before[m] && now[n] == before[n - 1]);
                if n - 1 == j as int {
                    assert(before[m] <= x);
                    assert(j < before.len());
                    assert(x <= before[j as int]);
                } else {
                    assert(leq(before[m], before[n - 1]));
                }
            } else if m == j {
                assert(now[n] == before[n - 1]);
                assert(n - 1 >= j);
                if n - 1 == j as int {
                    assert(x <= before[j as int]);
                } else {
                    assert(j < before.len());
                    assert(x <= before[j as int]);
                    assert(leq(before[j as int], before[n - 1]));
                }
            } else {
                assert(now[m] == before[m - 1] && now[n] == before[n - 1]);
                assert(leq(before[m - 1], before[n - 1]));
            }
        }

        // The multiset gains exactly one copy of `x`.
        assert(now.remove(j as int) =~= before);
        assert(now.remove(j as int).to_multiset() =~= now.to_multiset().remove(now[j as int]));
        assert(now.contains(x));
        assert(now.to_multiset().count(x) > 0);
        assert(now.to_multiset() =~= before.to_multiset().insert(x));
    }
}

/// A sorted copy of the vector; the argument is untouched.
fn sorted_copy(v: &Vec<u64>) -> (r: Vec<u64>)
    ensures
        r@ == v@.sort_by(u64_le()),
{
    broadcast use vstd::seq_lib::group_to_multiset_ensures;

    let mut r: Vec<u64> = Vec::new();
    let mut i: usize = 0;

    proof {
        assert(v@.subrange(0, 0) =~= Seq::<u64>::empty());
        assert(r@ =~= Seq::<u64>::empty());
        assert(r@.to_multiset() =~= v@.subrange(0, 0).to_multiset());
    }

    while i < v.len()
        invariant
            i <= v@.len(),
            sorted_by(r@, u64_le()),
            r@.to_multiset() == v@.subrange(0, i as int).to_multiset(),
            r@.len() == i,
        decreases v@.len() - i,
    {
        let x = v[i];
        insert_sorted(&mut r, x);
        proof {
            assert(v@.subrange(0, i + 1) =~= v@.subrange(0, i as int).push(x));
            vstd::seq_lib::to_multiset_build(v@.subrange(0, i as int), x);
        }
        i = i + 1;
    }

    proof {
        assert(v@.subrange(0, v@.len() as int) =~= v@);
        lemma_u64_le_total();
        v@.lemma_sort_by_ensures(u64_le());
        lemma_sorted_unique(r@, v@.sort_by(u64_le()), u64_le());
    }

    r
}

/// The trimmed-mean tempo of a window, exactly as `bpm_estimate` states it.
fn compute_estimate(intervals: &Vec<u64>) -> (r: Option<u64>)
    requires
        intervals@.len() <= BPM_WINDOW_SIZE,
        forall|i: int| 0 <= i < intervals@.len() ==> interval_accepted(#[trigger] intervals@[i]),
    ensures
        r == bpm_estimate(intervals@),
        r matches Some(v) ==> v <= 2_500_000,
{
    broadcast use vstd::seq_lib::group_to_multiset_ensures;

    let n = intervals.len();
    if n < 3 {
        return None;
    }

    let sorted = sorted_copy(intervals);

    proof {
        lemma_u64_le_total();
        intervals@.lemma_sort_by_ensures(u64_le());
        assert(sorted@.to_multiset() == intervals@.to_multiset());
        assert(sorted@.to_multiset().len() == sorted@.len());
        assert(intervals@.to_multiset().len() == intervals@.len());
        assert(sorted@.len() == intervals@.len());
        lemma_multiset_preserves_range(
            intervals@,
            sorted@,
            MIN_ACCEPTED_INTERVAL_US,
            MAX_ACCEPTED_INTERVAL_US,
        );
        lemma_quartile_bounds(n as int);
    }

    let start = n / 4;
    let end = n * 3 / 4;
    let ghost mid = trimmed_window(intervals@);

    let mut sum: u64 = 0;
    let mut k = start;

    proof {
        assert(sorted@.subrange(start as int, start as int) =~= Seq::<u64>::empty());
    }

    while k < end
        invariant
            start <= k <= end <= sorted@.len(),
            sorted@.len() <= BPM_WINDOW_SIZE,
            forall|i: int|
                0 <= i < sorted@.len() ==> MIN_ACCEPTED_INTERVAL_US < #[trigger] sorted@[i]
                    < MAX_ACCEPTED_INTERVAL_US,
            sum == sum_of(sorted@.subrange(start as int, k as int)),
            sum >= (k - start) * (MIN_ACCEPTED_INTERVAL_US + 1),
            sum <= (k - start) * MAX_ACCEPTED_INTERVAL_US,
        decreases end - k,
    {
        proof {
            assert(sorted@.subrange(start as int, k + 1) =~= sorted@.subrange(
                start as int,
                k as int,
            ).push(sorted@[k as int]));
            lemma_sum_push(sorted@.subrange(start as int, k as int), sorted@[k as int]);
            assert((k + 1 - start) * (MIN_ACCEPTED_INTERVAL_US + 1) == (k - start) * (
            MIN_ACCEPTED_INTERVAL_US + 1) + (MIN_ACCEPTED_INTERVAL_US + 1)) by (nonlinear_arith);
            assert((k + 1 - start) * MAX_ACCEPTED_INTERVAL_US == (k - start)
                * MAX_ACCEPTED_INTERVAL_US + MAX_ACCEPTED_INTERVAL_US) by (nonlinear_arith);
        }
        sum = sum + sorted[k];
        k = k + 1;
    }

    let count = (end - start) as u64;
    proof {
        assert(sorted@.subrange(start as int, end as int) == mid);
        assert(mid.len() == count);
    }

    let avg = sum / count;
    proof {
        assert(avg == sum_of(mid) / mid.len() as int);
        assert(sum >= count * 1_001);
        assert(avg >= 1_001) by (nonlinear_arith)
            requires
                sum >= count * 1_001,
                count >= 1,
                avg == sum / count,
        ;
        lemma_div_is_ordered_by_denominator(MILLI_BPM_DIVIDEND as int, 1_001, avg as int);
        assert(MILLI_BPM_DIVIDEND as int / 1_001 <= 2_500_000);
    }

    let est = MILLI_BPM_DIVIDEND / avg;
    Some(est)
}

/// Turns a stream of clock-message timestamps into a smoothed tempo.
#[derive(Debug)]
pub struct BpmCalculator {
    /// When the previous tick arrived, in microseconds.
    pub last_tick_time: Option<u64>,
    /// Whether the transport the stream describes is playing.
    pub is_playing: bool,
    /// The accepted inter-tick gaps, oldest first, in microseconds.
    pub intervals: Vec<u64>,
    /// Pulses (ticks) per quarter note.
    pub ppq: u32,
    /// Number of gaps to average over.
    pub window_size: usize,
}

impl BpmCalculator {
    /// The estimator's internal consistency: standard MIDI timing, and a
    /// window of plausible gaps that never outgrows its bound.
    pub open spec fn wf(&self) -> bool {
        &&& self.ppq == PPQ
        &&& self.window_size == BPM_WINDOW_SIZE
        &&& self.intervals@.len() <= BPM_WINDOW_SIZE
        &&& forall|i: int|
            0 <= i < self.intervals@.len() ==> interval_accepted(#[trigger] self.intervals@[i])
    }

    /// Whether the calculator is currently in playing state.
    pub fn is_playing(&self) -> (r: bool)
        ensures
            r == self.is_playing,
    {
        self.is_playing
    }

    /// A new calculator with standard MIDI timing (24 PPQ), stopped, with an
    /// empty window.
    pub fn new() -> (r: BpmCalculator)
        ensures
            r.wf(),
            r.last_tick_time is None,
            !r.is_playing,
            r.intervals@ == Seq::<u64>::empty(),
    {
        let r = BpmCalculator {
            last_tick_time: None,
            is_playing: false,
            intervals: Vec::new(),
            ppq: PPQ,
            window_size: BPM_WINDOW_SIZE,
        };
        proof {
            assert(r.intervals@ =~= Seq::<u64>::empty());
        }
        r
    }

    /// Process one clock message, stamped with its arrival time, and return
    /// the tempo estimate if one can be computed.
    ///
    /// `Start` clears the window and the reference point; `Stop` only leaves
    /// the playing state, so the last tempo stays queryable; `Continue`
    /// resumes; a `Tick` while stopped does nothing. A `Tick` while playing
    /// records the gap since the previous tick — if it is plausible — and
    /// answers with the tempo of the updated window.
    pub fn process_message(&mut self, msg: ClockMessage, now_us: u64) -> (r: Option<u64>)
        requires
            old(self).wf(),
        ensures
            final(self).wf(),
            final(self).ppq == old(self).ppq,
            final(self).window_size == old(self).window_size,
            msg == ClockMessage::Start ==> {
                &&& final(self).is_playing
                &&& final(self).last_tick_time is None
                &&& final(self).intervals@ == Seq::<u64>::empty()
                &&& r is None
            },
            msg == ClockMessage::Stop ==> {
                &&& !final(self).is_playing
                &&& final(self).last_tick_time == old(self).last_tick_time
                &&& final(self).intervals@ == old(self).intervals@
                &&& r is None
            },
            msg == ClockMessage::Continue ==> {
                &&& final(self).is_playing
                &&& final(self).last_tick_time == old(self).last_tick_time
                &&& final(self).intervals@ == old(self).intervals@
                &&& r is None
            },
            msg == ClockMessage::Tick && !old(self).is_playing ==> {
                &&& *final(self) == *old(self)
                &&& r is None
            },
            msg == ClockMessage::Tick && old(self).is_playing ==> {
                &&& final(self).is_playing
                &&& final(self).last_tick_time == Some(now_us)
                &&& final(self).intervals@ == window_after_tick(
                    old(self).intervals@,
                    old(self).last_tick_time,
                    now_us,
                )
                &&& r == bpm_estimate(final(self).intervals@)
            },
            r matches Some(v) ==> v <= 2_500_000,
    {
        match msg {
            ClockMessage::Start => {
                self.is_playing = true;
                self.last_tick_time = None;
                self.intervals.clear();
                proof {
                    assert(self.intervals@ =~= Seq::<u64>::empty());
                }
                None
            },
            ClockMessage::Stop => {
                self.is_playing = false;
                None
            },
            ClockMessage::Continue => {
                self.is_playing = true;
                None
            },
            ClockMessage::Tick => {
                if !self.is_playing {
                    return None;
                }

                match self.last_tick_time {
                    Some(last) => {
                        let interval = if now_us >= last {
                            now_us - last
                        } else {
                            0
                        };
                        if interval > MIN_ACCEPTED_INTERVAL_US && interval
                            < MAX_ACCEPTED_INTERVAL_US {
                            self.intervals.push(interval);
                            self.maintain_interval_window();
                        }
                    },
                    None => {},
                }

                self.last_tick_time = Some(now_us);

                compute_estimate(&self.intervals)
            },
        }
    }

    /// The tempo of the current window, without touching any state.
    pub fn current_bpm(&self) -> (r: Option<u64>)
        requires
            self.wf(),
        ensures
            r == bpm_estimate(self.intervals@),
            r matches Some(v) ==> v <= 2_500_000,
    {
        compute_estimate(&self.intervals)
    }

    /// Evict the oldest gaps until the window is back within its size bound.
    fn maintain_interval_window(&mut self)
        requires
            old(self).window_size == BPM_WINDOW_SIZE,
        ensures
            final(self).intervals@ == if old(self).intervals@.len() <= BPM_WINDOW_SIZE {
                old(self).intervals@
            } else {
                old(self).intervals@.subrange(
                    old(self).intervals@.len() - BPM_WINDOW_SIZE as int,
                    old(self).intervals@.len() as int,
                )
            },
            final(self).last_tick_time == old(self).last_tick_time,
            final(self).is_playing == old(self).is_playing,
            final(self).ppq == old(self).ppq,
            final(self).window_size == old(self).window_size,
    {
        let ghost orig = old(self).intervals@;
        let ghost mut dropped: int = 0;
        proof {
            assert(self.intervals@ =~= orig.skip(0));
        }
        while self.intervals.len() > self.window_size
            invariant
                self.window_size == BPM_WINDOW_SIZE,
                0 <= dropped <= orig.len(),
                self.intervals@ == orig.skip(dropped),
                dropped > 0 ==> orig.len() - dropped >= BPM_WINDOW_SIZE,
                self.last_tick_time == old(self).last_tick_time,
                self.is_playing == old(self).is_playing,
                self.ppq == old(self).ppq,
            decreases self.intervals@.len(),
        {
            let ghost prev = self.intervals@;
            self.intervals.remove(0);
            proof {
                dropped = dropped + 1;
                assert(prev.remove(0) =~= orig.skip(dropped));
            }
        }
        proof {
            if orig.len() <= BPM_WINDOW_SIZE {
                assert(dropped == 0);
                assert(self.intervals@ =~= orig);
            } else {
                assert(orig.len() - dropped == BPM_WINDOW_SIZE);
                assert(self.intervals@ =~= orig.subrange(
                    orig.len() - BPM_WINDOW_SIZE as int,
                    orig.len() as int,
                ));
            }
        }
    }
}

/// The tempo of a steady stream: a window whose gaps are all the same
/// plausible value `d` yields exactly the tempo of that gap. In particular a
/// window of 20,833 µs gaps — 120 beats per minute at 24 pulses per quarter
/// note — yields 120.001 beats per minute, within any reasonable tolerance of
/// 120.
pub proof fn lemma_steady_window_estimate(iv: Seq<u64>, d: u64)
    requires
        3 <= iv.len(),
        forall|i: int| 0 <= i < iv.len() ==> iv[i] == d,
        interval_accepted(d),
    ensures
        bpm_estimate(iv) == Some((MILLI_BPM_DIVIDEND as int / d as int) as u64),
{
    broadcast use vstd::seq_lib::group_to_multiset_ensures;

    let leq = u64_le();
    lemma_u64_le_total();
    iv.lemma_sort_by_ensures(leq);
    let sorted = iv.sort_by(leq);
    assert(sorted_by(iv, leq)) by {
        assert forall|m: int, n: int| 0 <= m < n < iv.len() implies #[trigger] leq(
            iv[m],
            iv[n],
        ) by {
            assert(iv[m] == d && iv[n] == d);
        }
    }
    lemma_sorted_unique(iv, sorted, leq);
    assert(sorted == iv);

    lemma_quartile_bounds(iv.len() as int);
    let mid = trimmed_window(iv);
    assert(forall|i: int| 0 <= i < mid.len() ==> mid[i] == d);
    lemma_sum_constant(mid, d);

    let m = mid.len() as int;
    assert(m >= 1);
    assert(sum_of(mid) == m * d);
    assert(m * d / m == d) by (nonlinear_arith)
        requires
            m >= 1,
    ;
}

/// Sum of a constant sequence.
proof fn lemma_sum_constant(s: Seq<u64>, d: u64)
    requires
        forall|i: int| 0 <= i < s.len() ==> s[i] == d,
    ensures
        sum_of(s) == s.len() * d,
    decreases s.len(),
{
    if s.len() > 0 {
        lemma_sum_constant(s.drop_first(), d);
        let n = s.len() as int;
        assert(sum_of(s) == s[0] + sum_of(s.drop_first()));
        assert((n - 1) * d + d == n * d) by (nonlinear_arith);
    }
}

/// The clock-message reading of a raw MIDI message; a message that is not a
/// realtime transport message stands in for a tick on this path.
pub open spec fn clock_message_of_midi(msg: MidiMessage) -> ClockMessage {
    match msg {
        MidiMessage::Clock => ClockMessage::Tick,
        MidiMessage::Start => ClockMessage::Start,
        MidiMessage::Stop => ClockMessage::Stop,
        MidiMessage::Continue => ClockMessage::Continue,
        _ => ClockMessage::Tick,
    }
}

impl From<MidiMessage> for ClockMessage {
    fn from(msg: MidiMessage) -> (r: ClockMessage) {
        match msg {
            MidiMessage::Clock => ClockMessage::Tick,
            MidiMessage::Start => ClockMessage::Start,
            MidiMessage::Stop => ClockMessage::Stop,
            MidiMessage::Continue => ClockMessage::Continue,
            _ => ClockMessage::Tick,
        }
    }
}

impl vstd::std_specs::convert::FromSpecImpl<MidiMessage> for ClockMessage {
    open spec fn obeys_from_spec() -> bool {
        true
    }

    open spec fn from_spec(msg: MidiMessage) -> ClockMessage {
        clock_message_of_midi(msg)
    }
}

/// Drives transport state changes and tempo calculation from one clock
/// message stream: the messages move the shared transport record, and every
/// tempo the estimator computes is written back into it.
pub struct ClockCore {
    pub bpm_calculator: BpmCalculator,
    pub shared_state: SharedState,
}

impl ClockCore {
    /// The core is consistent when its estimator is.
    pub open spec fn wf(&self) -> bool {
        self.bpm_calculator.wf()
    }

    /// A core around a fresh estimator, driving the given transport record.
    pub fn new(shared_state: SharedState) -> (r: ClockCore)
        ensures
            r.wf(),
            r.shared_state == shared_state,
            r.bpm_calculator.last_tick_time is None,
            !r.bpm_calculator.is_playing,
            r.bpm_calculator.intervals@ == Seq::<u64>::empty(),
    {
        ClockCore { bpm_calculator: BpmCalculator::new(), shared_state }
    }

    fn handle_transport_state(&mut self, msg: &ClockMessage)
        ensures
            final(self).bpm_calculator == old(self).bpm_calculator,
            final(self).shared_state == match msg {
                ClockMessage::Start => with_playing(old(self).shared_state, true),
                ClockMessage::Stop => with_playing(old(self).shared_state, false),
                ClockMessage::Continue => with_playing(old(self).shared_state, true),
                ClockMessage::Tick => old(self).shared_state,
            },
    {
        let playing = match msg {
            ClockMessage::Start => true,
            ClockMessage::Stop => false,
            ClockMessage::Continue => true,
            ClockMessage::Tick => {
                return ;
            },
        };
        self.shared_state.set_playing(playing);
    }

    fn handle_tick(&mut self)
        requires
            old(self).shared_state.tick_count < TICK_COUNT_LIMIT,
        ensures
            final(self).bpm_calculator == old(self).bpm_calculator,
            final(self).shared_state == ticked(old(self).shared_state),
    {
        self.shared_state.tick_update();
    }

    fn update_tempo(&mut self, milli_bpm: u64)
        requires
            milli_bpm <= 2_500_000,
        ensures
            final(self).bpm_calculator == old(self).bpm_calculator,
            final(self).shared_state == with_milli_tempo(old(self).shared_state, milli_bpm),
    {
        self.shared_state.set_tempo(milli_bpm);
    }

    /// Drive one timestamped clock message through the core: transport
    /// changes are applied first, a tick advances the shared position, and
    /// any tempo the estimator computes is written back into the record.
    pub fn process_message(&mut self, msg: ClockMessage, now_us: u64) -> (r: Option<u64>)
        requires
            old(self).wf(),
            old(self).shared_state.tick_count < TICK_COUNT_LIMIT,
        ensures
            final(self).wf(),
            msg == ClockMessage::Start ==> {
                &&& final(self).shared_state == with_playing(old(self).shared_state, true)
                &&& final(self).bpm_calculator.is_playing
                &&& final(self).bpm_calculator.last_tick_time is None
                &&& final(self).bpm_calculator.intervals@ == Seq::<u64>::empty()
                &&& r is None
            },
            msg == ClockMessage::Continue ==> {
                &&& final(self).shared_state == with_playing(old(self).shared_state, true)
                &&& final(self).bpm_calculator.is_playing
                &&& final(self).bpm_calculator.last_tick_time == old(
                    self,
                ).bpm_calculator.last_tick_time
                &&& final(self).bpm_calculator.intervals@ == old(self).bpm_calculator.intervals@
                &&& r is None
            },
            msg == ClockMessage::Stop ==> {
                &&& final(self).shared_state == with_playing(old(self).shared_state, false)
                &&& !final(self).bpm_calculator.is_playing
                &&& final(self).bpm_calculator.last_tick_time == old(
                    self,
                ).bpm_calculator.last_tick_time
                &&& final(self).bpm_calculator.intervals@ == old(self).bpm_calculator.intervals@
                &&& r is None
            },
            msg == ClockMessage::Tick && old(self).bpm_calculator.is_playing ==> {
                &&& final(self).bpm_calculator.is_playing
                &&& final(self).bpm_calculator.last_tick_time == Some(now_us)
                &&& final(self).bpm_calculator.intervals@ == window_after_tick(
                    old(self).bpm_calculator.intervals@,
                    old(self).bpm_calculator.last_tick_time,
                    now_us,
                )
                &&& r == bpm_estimate(final(self).bpm_calculator.intervals@)
            },
            msg == ClockMessage::Tick && !old(self).bpm_calculator.is_playing ==> {
                &&& final(self).bpm_calculator == old(self).bpm_calculator
                &&& r is None
            },
            msg == ClockMessage::Tick ==> final(self).shared_state == (match r {
                Some(v) => with_milli_tempo(ticked(old(self).shared_state), v),
                None => ticked(old(self).shared_state),
            }),
            r matches Some(v) ==> v <= 2_500_000,
    {
        self.handle_transport_state(&msg);

        match msg {
            ClockMessage::Tick => self.handle_tick(),
            _ => (),
        }

        let bpm = self.bpm_calculator.process_message(msg, now_us);
        match bpm {
            Some(b) => self.update_tempo(b),
            None => (),
        }
        bpm
    }

    /// Whether the shared transport record says the clock is playing.
    pub fn is_playing(&self) -> (r: bool)
        ensures
            r == (self.shared_state.transport_state == TransportState::Playing),
    {
        self.shared_state.transport_state == TransportState::Playing
    }

    /// The tempo of the estimator's current window, without touching state.
    pub fn current_bpm(&self) -> (r: Option<u64>)
        requires
            self.wf(),
        ensures
            r == bpm_estimate(self.bpm_calculator.intervals@),
    {
        self.bpm_calculator.current_bpm()
    }

    /// The estimator itself, for callers that track tempo directly.
    pub fn bpm_calculator(&self) -> (r: &BpmCalculator)
        ensures
            *r == self.bpm_calculator,
    {
        &self.bpm_calculator
    }
}

/// Outlier rejection: a tick whose gap since the previous tick is outside the
/// plausible range — a spurious double-fire or a stall — leaves the window,
/// and with it the tempo estimate, exactly as it was.
pub proof fn lemma_outlier_rejected(iv: Seq<u64>, last: u64, now_us: u64)
    requires
        !interval_accepted(elapsed_between(last, now_us)),
    ensures
        window_after_tick(iv, Some(last), now_us) == iv,
        bpm_estimate(window_after_tick(iv, Some(last), now_us)) == bpm_estimate(iv),
{
}

} // verus!
