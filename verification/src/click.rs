//! The click waveform's integer skeleton: sample counting and the linear
//! fade envelope.
//!
//! The audible click is a sine burst shaped by a fade-in/fade-out envelope.
//! Everything about it except the sine itself is integer arithmetic: how
//! many samples the burst holds, which sample comes next, and the envelope
//! as an exact ratio at each sample index. The host turns each emitted
//! point into a float sample (`sin(2*pi*f*t) * (num/den) * 0.5`).

use vstd::prelude::*;

verus! {

/// Samples per second of the synthesised click.
pub const SAMPLE_RATE: u32 = 44100;

/// Length of a click in milliseconds.
pub const CLICK_DURATION_MS: u64 = 30;

/// Length of each fade ramp in milliseconds.
pub const FADE_MS: u64 = 5;

/// Frequency of the accented (downbeat) click, in hertz.
pub const ACCENT_FREQ_HZ: u32 = 880;

/// Frequency of an ordinary click, in hertz.
pub const NORMAL_FREQ_HZ: u32 = 440;

/// How many samples a span of `ms` milliseconds holds.
pub open spec fn sample_count(ms: u64) -> int {
    SAMPLE_RATE as int * ms as int / 1000
}

/// Envelope numerator at sample `i`: a linear ramp up over the first
/// `fade` samples, a linear ramp down over the last `fade`, flat between.
pub open spec fn env_num(i: int, total: int, fade: int) -> int {
    if i < fade {
        i
    } else if i > total - fade {
        total - i
    } else {
        1
    }
}

/// Envelope denominator at sample `i`.
pub open spec fn env_den(i: int, total: int, fade: int) -> int {
    if i < fade {
        fade
    } else if i > total - fade {
        fade
    } else {
        1
    }
}

/// The envelope never leaves `[0, 1]`: at every valid sample index the
/// ratio's numerator stays between zero and its positive denominator, so a
/// full-scale sine shaped by it and the 0.5 headroom scalar stays within
/// half of full scale in magnitude.
pub proof fn lemma_envelope_bounded(i: int, total: int, fade: int)
    requires
        0 <= i < total,
        0 <= fade <= total,
    ensures
        0 < env_den(i, total, fade),
        0 <= env_num(i, total, fade) <= env_den(i, total, fade),
{
}

/// With a non-trivial fade the very first sample's envelope is zero, and
/// the very last sample's envelope is at most `1 / fade`.
pub proof fn lemma_envelope_vanishes_at_edges(total: int, fade: int)
    requires
        1 < fade < total,
    ensures
        env_num(0, total, fade) == 0,
        env_num(total - 1, total, fade) == 1,
        env_den(total - 1, total, fade) == fade,
{
}

/// One click's worth of samples, handed out one index at a time; finite
/// and not restartable.
pub struct ClickSynth {
    /// Sine frequency in hertz.
    pub freq_hz: u32,
    /// How many samples the click holds in all.
    pub total_samples: usize,
    /// The next sample index to emit.
    pub current_sample: usize,
    /// How many samples each fade ramp spans.
    pub fade_samples: usize,
}

/// One emitted sample position with its exact envelope ratio.
pub struct ClickPoint {
    /// Index of the sample within the click.
    pub index: usize,
    /// Envelope numerator at this index.
    pub env_num: u64,
    /// Envelope denominator at this index; always positive.
    pub env_den: u64,
}

impl ClickSynth {
    /// The fade fits inside the click and the cursor never passes the end.
    pub open spec fn wf(&self) -> bool {
        self.fade_samples <= self.total_samples && self.current_sample <= self.total_samples
    }

    /// A click of `duration_ms` at `freq_hz` with `fade_ms` ramps.
    pub fn new(freq_hz: u32, duration_ms: u64, fade_ms: u64) -> (s: ClickSynth)
        requires
            fade_ms <= duration_ms,
            duration_ms <= 60_000,
        ensures
            s.wf(),
            s.freq_hz == freq_hz,
            s.total_samples == sample_count(duration_ms),
            s.fade_samples == sample_count(fade_ms),
            s.current_sample == 0,
    {
        let total_samples: usize = ((SAMPLE_RATE as u64 * duration_ms) / 1000) as usize;
        let fade_samples: usize = ((SAMPLE_RATE as u64 * fade_ms) / 1000) as usize;
        proof {
            assert(SAMPLE_RATE as int * fade_ms as int / 1000 <= SAMPLE_RATE as int * duration_ms
                as int / 1000) by {
                vstd::arithmetic::div_mod::lemma_div_is_ordered(
                    SAMPLE_RATE as int * fade_ms as int,
                    SAMPLE_RATE as int * duration_ms as int,
                    1000,
                );
            }
        }
        ClickSynth { freq_hz, total_samples, current_sample: 0, fade_samples }
    }

    /// The click for one beat: the accented frequency on a downbeat, the
    /// ordinary one otherwise, at the fixed duration and fade. The sample
    /// count is fixed by the duration alone, whatever the accent.
    pub fn for_accent(accent: bool) -> (s: ClickSynth)
        ensures
            s.wf(),
            s.freq_hz == (if accent {
                ACCENT_FREQ_HZ
            } else {
                NORMAL_FREQ_HZ
            }),
            s.total_samples == sample_count(CLICK_DURATION_MS),
            s.total_samples == 1323,
            s.fade_samples == 220,
            s.current_sample == 0,
    {
        let freq: u32 = if accent {
            ACCENT_FREQ_HZ
        } else {
            NORMAL_FREQ_HZ
        };
        ClickSynth::new(freq, CLICK_DURATION_MS, FADE_MS)
    }

    /// How many samples are still to come.
    pub fn remaining_len(&self) -> (r: usize)
        requires
            self.wf(),
        ensures
            r == self.total_samples - self.current_sample,
    {
        self.total_samples - self.current_sample
    }

    /// Emit the next sample position with its envelope ratio, or nothing
    /// once the click is exhausted; the cursor only ever moves forward.
    pub fn next_point(&mut self) -> (r: Option<ClickPoint>)
        requires
            old(self).wf(),
        ensures
            final(self).wf(),
            final(self).freq_hz == old(self).freq_hz,
            final(self).total_samples == old(self).total_samples,
            final(self).fade_samples == old(self).fade_samples,
            old(self).current_sample >= old(self).total_samples ==> {
                &&& r is None
                &&& final(self).current_sample == old(self).current_sample
            },
            old(self).current_sample < old(self).total_samples ==> {
                &&& final(self).current_sample == old(self).current_sample + 1
                &&& r matches Some(p) && p.index == old(self).current_sample && p.env_num
                    as int == env_num(
                    p.index as int,
                    old(self).total_samples as int,
                    old(self).fade_samples as int,
                ) && p.env_den as int == env_den(
                    p.index as int,
                    old(self).total_samples as int,
                    old(self).fade_samples as int,
                )
            },
    {
        if self.current_sample >= self.total_samples {
            return None;
        }
        let i = self.current_sample;
        let (num, den) = self.envelope_ratio(i);
        self.current_sample = i + 1;
        Some(ClickPoint { index: i, env_num: num, env_den: den })
    }

    /// The envelope at sample `i`, as an exact ratio with positive
    /// denominator, never above one.
    pub fn envelope_ratio(&self, i: usize) -> (r: (u64, u64))
        requires
            self.wf(),
            i < self.total_samples,
        ensures
            r.0 as int == env_num(i as int, self.total_samples as int, self.fade_samples as int),
            r.1 as int == env_den(i as int, self.total_samples as int, self.fade_samples as int),
            0 < r.1,
            r.0 <= r.1,
    {
        if i < self.fade_samples {
            (i as u64, self.fade_samples as u64)
        } else if i > self.total_samples - self.fade_samples {
            ((self.total_samples - i) as u64, self.fade_samples as u64)
        } else {
            (1u64, 1u64)
        }
    }
}

} // verus!
