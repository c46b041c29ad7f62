use vstd::prelude::*;

use std::collections::VecDeque;

verus! {

/// The largest square of a 16-bit sample: `32768 * 32768`.
pub const MAX_SAMPLE_POWER: u64 = 1073741824;

/// The level, in millibels, published for a window of pure silence: the floor
/// below which no level is reported.
pub const SILENCE_FLOOR: i32 = -10000;

/// The level, in millibels, published before the first measurement.
pub const INITIAL_LEVEL: i32 = -6000;

/// The sum of the squared samples of a frame.
pub open spec fn sum_of_squares(s: Seq<i16>) -> int
    decreases s.len(),
{
    if s.len() == 0 {
        0
    } else {
        sum_of_squares(s.drop_last()) + s.last() * s.last()
    }
}

/// The mean-square energy of a frame, rounded down; 0 for an empty frame.
pub open spec fn mean_square_spec(s: Seq<i16>) -> int {
    if s.len() == 0 {
        0
    } else {
        sum_of_squares(s) / s.len() as int
    }
}

/// The sum of a sequence of energies.
pub open spec fn total(s: Seq<u64>) -> int
    decreases s.len(),
{
    if s.len() == 0 {
        0
    } else {
        total(s.drop_last()) + s.last()
    }
}

/// The mean of a sequence of energies, rounded down; 0 for an empty one.
pub open spec fn mean_spec(s: Seq<u64>) -> int {
    if s.len() == 0 {
        0
    } else {
        total(s) / s.len() as int
    }
}

/// The last `n` elements of `s`, in order, or all of `s` where it is shorter.
pub open spec fn keep_last(s: Seq<u64>, n: int) -> Seq<u64> {
    if s.len() > n {
        s.subrange(s.len() - n, s.len() as int)
    } else {
        s
    }
}

/// `n / d` rounded to the nearest integer, halves rounded up.
pub open spec fn round_div(n: int, d: int) -> int {
    n / d + if 2 * (n % d) >= d {
        1int
    } else {
        0int
    }
}

/// The window length for `window_ms` milliseconds of frames of `frame_size`
/// samples at `sample_rate`, rounded, and at least one frame.
pub open spec fn target_len_spec(sample_rate: int, frame_size: int, window_ms: int) -> int {
    let n = round_div(sample_rate * window_ms, frame_size * 1000);
    if n < 1 {
        1
    } else {
        n
    }
}

proof fn lemma_square_bound(x: int)
    requires
        -32768 <= x <= 32767,
    ensures
        0 <= x * x <= MAX_SAMPLE_POWER,
{
    assert(0 <= x * x <= 1073741824) by (nonlinear_arith)
        requires
            -32768 <= x <= 32767,
    ;
}

proof fn lemma_mean_bound(sum: int, len: int)
    requires
        0 <= sum <= len * MAX_SAMPLE_POWER,
        len > 0,
    ensures
        0 <= sum / len <= MAX_SAMPLE_POWER,
{
    vstd::arithmetic::div_mod::lemma_div_is_ordered(sum, len * MAX_SAMPLE_POWER, len);
    vstd::arithmetic::div_mod::lemma_div_by_multiple(MAX_SAMPLE_POWER as int, len);
    vstd::arithmetic::div_mod::lemma_div_is_ordered(0, sum, len);
    assert(len * MAX_SAMPLE_POWER == MAX_SAMPLE_POWER * len) by (nonlinear_arith);
}

/// The mean-square energy of a frame of 16-bit samples, rounded down.
pub fn mean_square(frame: &Vec<i16>) -> (r: u64)
    requires
        frame@.len() <= u32::MAX,
    ensures
        r == mean_square_spec(frame@),
        r <= MAX_SAMPLE_POWER,
{
    let mut sum: u64 = 0;
    let mut i: usize = 0;
    while i < frame.len()
        invariant
            i <= frame@.len() <= u32::MAX,
            sum == sum_of_squares(frame@.subrange(0, i as int)),
            sum <= i * MAX_SAMPLE_POWER,
        decreases frame@.len() - i,
    {
        let x: i32 = frame[i] as i32;
        proof {
            lemma_square_bound(x as int);
            let next = frame@.subrange(0, i + 1);
            assert(next.drop_last() =~= frame@.subrange(0, i as int));
            assert(next.last() == frame@[i as int]);
        }
        let square: u64 = (x * x) as u64;
        sum = sum + square;
        i = i + 1;
    }
    proof {
        assert(frame@.subrange(0, frame@.len() as int) =~= frame@);
    }
    if frame.len() == 0 {
        0
    } else {
        proof {
            lemma_mean_bound(sum as int, frame@.len() as int);
        }
        sum / (frame.len() as u64)
    }
}

/// The number of frames the energy window keeps for `window_ms` milliseconds of
/// audio: `sample_rate / frame_size * window_ms / 1000`, rounded, at least one.
pub fn target_len(sample_rate: u32, frame_size: u32, window_ms: u32) -> (r: u64)
    requires
        frame_size > 0,
    ensures
        r == target_len_spec(sample_rate as int, frame_size as int, window_ms as int),
        r >= 1,
{
    proof {
        let (a, b) = (sample_rate as int, window_ms as int);
        assert(0 <= a * b <= 0xffff_ffff * 0xffff_ffff) by (nonlinear_arith)
            requires
                0 <= a <= 0xffff_ffff,
                0 <= b <= 0xffff_ffff,
        ;
    }
    let n: u64 = (sample_rate as u64) * (window_ms as u64);
    let d: u64 = (frame_size as u64) * 1000;
    let q: u64 = n / d;
    let rem: u64 = n % d;
    proof {
        vstd::arithmetic::div_mod::lemma_div_is_ordered(n as int, u64::MAX as int, d as int);
        vstd::arithmetic::div_mod::lemma_div_is_ordered_by_denominator(u64::MAX as int, 1000, d as int);
    }
    let rounded: u64 = if 2 * rem >= d {
        q + 1
    } else {
        q
    };
    if rounded < 1 {
        1
    } else {
        rounded
    }
}

/// A sliding window of mean-square energies, oldest first.
pub struct EnergyWindow {
    values: VecDeque<u64>,
}

impl View for EnergyWindow {
    type V = Seq<u64>;

    closed spec fn view(&self) -> Seq<u64> {
        self.values@
    }
}

impl EnergyWindow {
    /// Every energy in the window is that of some 16-bit frame.
    pub open spec fn wf(&self) -> bool {
        forall|i: int| 0 <= i < self@.len() ==> self@[i] <= MAX_SAMPLE_POWER
    }

    pub fn new() -> (r: EnergyWindow)
        ensures
            r@ == Seq::<u64>::empty(),
            r.wf(),
    {
        EnergyWindow { values: VecDeque::new() }
    }

    pub fn len(&self) -> (r: usize)
        ensures
            r == self@.len(),
    {
        self.values.len()
    }

    /// Append an energy, then drop the oldest ones until at most `target` remain
    /// (at least one is always kept).
    pub fn push(&mut self, mean_square: u64, target: u64)
        requires
            old(self).wf(),
            mean_square <= MAX_SAMPLE_POWER,
        ensures
            final(self).wf(),
            final(self)@ == keep_last(
                old(self)@.push(mean_square),
                if target < 1 {
                    1
                } else {
                    target as int
                },
            ),
    {
        let keep: u64 = if target < 1 {
            1
        } else {
            target
        };
        let ghost full = self@.push(mean_square);
        self.values.push_back(mean_square);
        while self.values.len() as u64 > keep
            invariant
                self.values@ =~= full.subrange(full.len() - self.values@.len(), full.len() as int),
                self.values@.len() >= if full.len() < keep {
                    full.len() as int
                } else {
                    keep as int
                },
                self.values@.len() <= full.len(),
                keep >= 1,
                forall|i: int| 0 <= i < full.len() ==> full[i] <= MAX_SAMPLE_POWER,
            decreases self.values@.len(),
        {
            self.values.pop_front();
        }
        proof {
            assert(full.subrange(0, full.len() as int) =~= full);
            assert(self@ =~= keep_last(full, keep as int));
        }
    }

    /// The mean energy over the window, rounded down; 0 for an empty window.
    pub fn mean(&self) -> (r: u64)
        requires
            self.wf(),
        ensures
            r == mean_spec(self@),
            r <= MAX_SAMPLE_POWER,
    {
        let len = self.values.len();
        let mut sum: u128 = 0;
        let mut i: usize = 0;
        while i < len
            invariant
                len == self@.len(),
                i <= len,
                self.wf(),
                sum == total(self@.subrange(0, i as int)),
                sum <= i * MAX_SAMPLE_POWER,
            decreases len - i,
        {
            proof {
                let next = self@.subrange(0, i + 1);
                assert(next.drop_last() =~= self@.subrange(0, i as int));
            }
            sum = sum + self.values[i] as u128;
            i = i + 1;
        }
        proof {
            assert(self@.subrange(0, len as int) =~= self@);
        }
        if len == 0 {
            0
        } else {
            proof {
                lemma_mean_bound(sum as int, len as int);
            }
            (sum / (len as u128)) as u64
        }
    }
}

/// Receives the mean-square energy of each frame and keeps the sliding window
/// whose mean is the loudness estimate.
pub struct LoudnessAggregator {
    pub window: EnergyWindow,
    pub sample_rate: u32,
    pub frame_size: u32,
}

impl LoudnessAggregator {
    pub open spec fn wf(&self) -> bool {
        self.frame_size > 0 && self.window.wf()
    }

    pub fn new(sample_rate: u32, frame_size: u32) -> (r: LoudnessAggregator)
        requires
            frame_size > 0,
        ensures
            r.wf(),
            r.window@ == Seq::<u64>::empty(),
            r.sample_rate == sample_rate,
            r.frame_size == frame_size,
    {
        LoudnessAggregator { window: EnergyWindow::new(), sample_rate, frame_size }
    }

    /// Take the energy of a new frame. The window length is recomputed from the
    /// latest `window_ms`, the oldest energies beyond it are dropped, and the mean
    /// energy of what remains is returned.
    pub fn receive(&mut self, mean_square: u64, window_ms: u32) -> (r: u64)
        requires
            old(self).wf(),
            mean_square <= MAX_SAMPLE_POWER,
        ensures
            final(self).wf(),
            final(self).sample_rate == old(self).sample_rate,
            final(self).frame_size == old(self).frame_size,
            final(self).window@ == keep_last(
                old(self).window@.push(mean_square),
                target_len_spec(
                    old(self).sample_rate as int,
                    old(self).frame_size as int,
                    window_ms as int,
                ),
            ),
            1 <= final(self).window@.len(),
            r == mean_spec(final(self).window@),
            r <= MAX_SAMPLE_POWER,
    {
        let target = target_len(self.sample_rate, self.frame_size, window_ms);
        self.window.push(mean_square, target);
        self.window.mean()
    }
}

/// The window after each of `values` was pushed in turn, with a fixed `target`.
pub open spec fn filled(values: Seq<u64>, target: int) -> Seq<u64>
    decreases values.len(),
{
    if values.len() == 0 {
        values
    } else {
        keep_last(filled(values.drop_last(), target).push(values.last()), target)
    }
}

proof fn lemma_total_zero(s: Seq<u64>)
    requires
        forall|i: int| 0 <= i < s.len() ==> s[i] == 0,
    ensures
        total(s) == 0,
    decreases s.len(),
{
    if s.len() > 0 {
        let rest = s.drop_last();
        assert forall|i: int| 0 <= i < rest.len() implies rest[i] == 0 by {
            assert(rest[i] == s[i]);
        }
        lemma_total_zero(rest);
        assert(s.last() == s[s.len() - 1]);
    }
}

proof fn lemma_sum_of_squares_constant(frame: Seq<i16>, a: i16)
    requires
        forall|i: int| 0 <= i < frame.len() ==> frame[i] == a,
    ensures
        sum_of_squares(frame) == (a * a) * frame.len(),
    decreases frame.len(),
{
    if frame.len() > 0 {
        let rest = frame.drop_last();
        assert forall|i: int| 0 <= i < rest.len() implies rest[i] == a by {
            assert(rest[i] == frame[i]);
        }
        lemma_sum_of_squares_constant(rest, a);
        assert(frame.last() == frame[frame.len() - 1]);
        let (s, n) = ((a * a) as int, rest.len() as int);
        assert(s * n + s == s * (n + 1)) by (nonlinear_arith);
    }
}

/// A frame of silence has mean-square energy 0, and a window of such frames is
/// published at the floor level, whatever the logarithm made of it.
pub proof fn lemma_silent_frame(frame: Seq<i16>, window: Seq<u64>, log_level: i32)
    requires
        forall|i: int| 0 <= i < frame.len() ==> frame[i] == 0,
        forall|i: int| 0 <= i < window.len() ==> window[i] == mean_square_spec(frame),
    ensures
        mean_square_spec(frame) == 0,
        mean_spec(window) == 0,
        published_level_spec(mean_spec(window) as u64, log_level) == SILENCE_FLOOR,
{
    lemma_sum_of_squares_constant(frame, 0);
    if frame.len() > 0 {
        assert(sum_of_squares(frame) == 0);
    }
    lemma_total_zero(window);
}

/// A frame of constant amplitude `a` has mean-square energy `a * a`.
pub proof fn lemma_constant_frame(frame: Seq<i16>, a: i16)
    requires
        frame.len() > 0,
        forall|i: int| 0 <= i < frame.len() ==> frame[i] == a,
    ensures
        mean_square_spec(frame) == a * a,
{
    lemma_sum_of_squares_constant(frame, a);
    assert(a * a >= 0) by (nonlinear_arith);
    vstd::arithmetic::div_mod::lemma_div_by_multiple((a * a) as int, frame.len() as int);
}

/// Window trimming: after `values` were pushed one by one with target length
/// `target`, the window holds exactly the most recent `target` of them in arrival
/// order (all of them where there are fewer).
pub proof fn lemma_window_keeps_latest(values: Seq<u64>, target: int)
    requires
        target >= 1,
    ensures
        filled(values, target) == keep_last(values, target),
        values.len() > target ==> filled(values, target).len() == target,
        values.len() > target ==> filled(values, target) == values.subrange(
            values.len() - target,
            values.len() as int,
        ),
    decreases values.len(),
{
    if values.len() > 0 {
        let rest = values.drop_last();
        lemma_window_keeps_latest(rest, target);
        let x = values.last();
        assert(rest.push(x) =~= values);
        let k = keep_last(rest, target);
        if rest.len() > target {
            assert(keep_last(k.push(x), target) =~= keep_last(values, target));
        } else {
            assert(k == rest);
        }
    }
}

/// The level published for a window of mean energy `mean_energy` whose level,
/// where it has one, is `log_level`: the floor for silence, otherwise `log_level`
/// held between the floor and full scale.
pub open spec fn published_level_spec(mean_energy: u64, log_level: i32) -> i32 {
    if mean_energy == 0 || log_level < SILENCE_FLOOR {
        SILENCE_FLOOR
    } else if log_level > 0 {
        0
    } else {
        log_level
    }
}

/// The level to publish for a window. `log_level` is `1000 * log10(mean_energy /
/// MAX_SAMPLE_POWER)` as the caller computed it; silence, which has no
/// logarithm, gives the floor whatever `log_level` is.
pub fn published_level(mean_energy: u64, log_level: i32) -> (r: i32)
    ensures
        r == published_level_spec(mean_energy, log_level),
        SILENCE_FLOOR <= r <= 0,
{
    if mean_energy == 0 || log_level < SILENCE_FLOOR {
        SILENCE_FLOOR
    } else if log_level > 0 {
        0
    } else {
        log_level
    }
}

/// A sound that is playing: when it is expected to be done, in milliseconds on a
/// monotonic clock. Stopping playback belongs to whoever started it.
#[derive(Clone, Copy, Debug, PartialEq, Eq, Structural)]
pub struct PlayHandle {
    pub expect_done_at: u64,
}

pub open spec fn saturating_sum(a: u64, b: u64) -> u64 {
    if a + b > u64::MAX {
        u64::MAX
    } else {
        (a + b) as u64
    }
}

impl PlayHandle {
    /// A sound of `duration_ms` milliseconds started at `now`.
    pub fn started(now: u64, duration_ms: u64) -> (r: PlayHandle)
        ensures
            r.expect_done_at == saturating_sum(now, duration_ms),
    {
        PlayHandle { expect_done_at: now.saturating_add(duration_ms) }
    }

    pub fn expect_done_at(&self) -> (r: u64)
        ensures
            r == self.expect_done_at,
    {
        self.expect_done_at
    }

    /// How long, from `now`, until the sound is expected to be done; 0 once it is.
    pub fn remaining(&self, now: u64) -> (r: u64)
        ensures
            r == if self.expect_done_at > now {
                (self.expect_done_at - now) as u64
            } else {
                0
            },
    {
        if self.expect_done_at > now {
            self.expect_done_at - now
        } else {
            0
        }
    }
}

} // verus!
