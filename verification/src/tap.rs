//! Tap-tempo estimation from a bounded, time-windowed history of taps.
//!
//! Timestamps are microseconds on a monotonic clock, supplied by the caller.

use vstd::prelude::*;
use crate::clamp_bpm;
use crate::MAX_BPM;
use crate::MIN_BPM;

verus! {

/// Taps older than this window (in microseconds) are discarded.
pub const TAP_WINDOW_MICROS: u64 = 3_000_000;

/// At most this many taps are retained.
pub const TAP_HISTORY: usize = 8;

/// A tap at time `t` is still fresh at time `now`: at most the window
/// old — one exactly the window old is kept, only strictly older taps are
/// stale. A tap not in the past (clock anomaly) counts as fresh.
pub open spec fn in_window(t: u64, now: u64) -> bool {
    now <= t || now - t <= TAP_WINDOW_MICROS
}

/// `s` with every stale tap removed, order kept.
pub open spec fn prune(s: Seq<u64>, now: u64) -> Seq<u64>
    decreases s.len(),
{
    if s.len() == 0 {
        Seq::empty()
    } else if in_window(s.last(), now) {
        prune(s.drop_last(), now).push(s.last())
    } else {
        prune(s.drop_last(), now)
    }
}

/// The last `k` elements of `s` (all of them when `s` is shorter).
pub open spec fn keep_last(s: Seq<u64>, k: int) -> Seq<u64> {
    if s.len() <= k {
        s
    } else {
        s.skip(s.len() - k)
    }
}

/// The history after a tap at `now`: stale taps pruned, `now` appended,
/// oldest taps evicted beyond the capacity.
pub open spec fn new_history(s: Seq<u64>, now: u64) -> Seq<u64> {
    keep_last(prune(s, now).push(now), TAP_HISTORY as int)
}

/// The gap from `a` forward to `b`, zero when the clock ran backwards.
pub open spec fn sat_gap(a: u64, b: u64) -> int {
    if a <= b {
        b - a
    } else {
        0
    }
}

/// Sum of the gaps between consecutive taps of `s`.
pub open spec fn interval_sum(s: Seq<u64>) -> int
    decreases s.len(),
{
    if s.len() < 2 {
        0
    } else {
        interval_sum(s.drop_last()) + sat_gap(s[s.len() - 2], s.last())
    }
}

/// The tempo whose beat period is `sum / n_intervals` microseconds,
/// rounded to the nearest whole beat per minute (halves round up).
pub open spec fn rounded_bpm(n_intervals: int, sum: int) -> int {
    (60_000_000 * n_intervals + sum / 2) / sum
}

/// The estimate a history yields: none below two taps or when the summed
/// gaps vanish; otherwise the rounded average interval as a clamped tempo.
pub open spec fn tap_estimate(s: Seq<u64>) -> Option<u16> {
    if s.len() < 2 {
        None
    } else if interval_sum(s) <= 0 {
        None
    } else {
        Some(clamp_bpm(rounded_bpm(s.len() - 1, interval_sum(s))))
    }
}

/// A history whose every tap is stale prunes to nothing.
pub proof fn lemma_prune_all_stale(s: Seq<u64>, now: u64)
    requires
        forall|k: int| 0 <= k < s.len() ==> !in_window(#[trigger] s[k], now),
    ensures
        prune(s, now) == Seq::<u64>::empty(),
    decreases s.len(),
{
    if s.len() > 0 {
        assert(!in_window(s[s.len() - 1], now));
        lemma_prune_all_stale(s.drop_last(), now);
    }
}

/// A tap arriving after every retained tap has gone stale discards the
/// whole history before recording itself, so it stands alone and yields
/// no estimate: an estimate needs at least two fresh taps.
pub proof fn lemma_stale_history_gives_no_estimate(s: Seq<u64>, now: u64)
    requires
        forall|k: int| 0 <= k < s.len() ==> !in_window(#[trigger] s[k], now),
    ensures
        new_history(s, now) == seq![now],
        tap_estimate(new_history(s, now)) is None,
{
    lemma_prune_all_stale(s, now);
    assert(new_history(s, now) =~= seq![now]);
}

/// Bounded, time-windowed history of tap timestamps.
pub struct TapTempo {
    taps: Vec<u64>,
}

impl View for TapTempo {
    type V = Seq<u64>;

    closed spec fn view(&self) -> Seq<u64> {
        self.taps@
    }
}

impl TapTempo {
    /// The history never holds more than `TAP_HISTORY` taps.
    pub open spec fn wf(&self) -> bool {
        self@.len() <= TAP_HISTORY
    }

    /// An empty tap history.
    pub fn new() -> (t: TapTempo)
        ensures
            t@ == Seq::<u64>::empty(),
            t.wf(),
    {
        TapTempo { taps: Vec::new() }
    }

    /// How many taps are retained.
    pub fn len(&self) -> (n: usize)
        ensures
            n == self@.len(),
    {
        self.taps.len()
    }

    /// Record a tap at `now` and derive a tempo estimate when at least two
    /// fresh taps remain and their gaps do not sum to zero.
    pub fn register_tap(&mut self, now: u64) -> (r: Option<u16>)
        requires
            old(self).wf(),
        ensures
            final(self).wf(),
            final(self)@ == new_history(old(self)@, now),
            r == tap_estimate(new_history(old(self)@, now)),
    {
        let ghost s0: Seq<u64> = self.taps@;

        // Discard stale taps, keeping arrival order.
        let mut kept: Vec<u64> = Vec::new();
        let n = self.taps.len();
        let mut i: usize = 0;
        while i < n
            invariant
                i <= n,
                n == s0.len(),
                self.taps@ == s0,
                kept@ == prune(s0.take(i as int), now),
                kept@.len() <= i,
            decreases n - i,
        {
            let t = self.taps[i];
            proof {
                assert(s0.take(i as int + 1).drop_last() =~= s0.take(i as int));
                assert(s0.take(i as int + 1).last() == s0[i as int]);
            }
            if now <= t {
                kept.push(t);
            } else if now - t <= TAP_WINDOW_MICROS {
                kept.push(t);
            }
            i = i + 1;
        }
        proof {
            assert(s0.take(n as int) =~= s0);
        }

        kept.push(now);

        // Evict the oldest beyond the capacity. At most one tap leaves,
        // since at most TAP_HISTORY survived the pruning.
        if kept.len() > TAP_HISTORY {
            kept.remove(0);
            proof {
                assert(kept@ =~= keep_last(prune(s0, now).push(now), TAP_HISTORY as int));
            }
        }
        proof {
            assert(kept@ =~= new_history(s0, now));
        }
        self.taps = kept;

        if self.taps.len() < 2 {
            return None;
        }

        // Sum the gaps between consecutive taps.
        let ghost h: Seq<u64> = self.taps@;
        let len = self.taps.len();
        let mut sum: u128 = 0;
        let mut j: usize = 1;
        while j < len
            invariant
                1 <= j <= len,
                len == h.len(),
                self.taps@ == h,
                sum == interval_sum(h.take(j as int)),
                sum <= (j - 1) * (u64::MAX as int),
            decreases len - j,
        {
            let a = self.taps[j - 1];
            let b = self.taps[j];
            proof {
                assert(h.take(j as int + 1).drop_last() =~= h.take(j as int));
                assert(h.take(j as int + 1).last() == h[j as int]);
                assert(h.take(j as int + 1)[j as int - 1] == h[j as int - 1]);
            }
            if a <= b {
                sum = sum + (b - a) as u128;
            }
            j = j + 1;
        }
        proof {
            assert(h.take(len as int) =~= h);
        }

        if sum == 0 {
            return None;
        }

        // bpm = round(60_000_000 * intervals / sum), clamped.
        let num: u128 = 60_000_000u128 * ((len - 1) as u128);
        let raw: u128 = (num + sum / 2) / sum;
        let bpm: u16 = if raw < MIN_BPM as u128 {
            MIN_BPM
        } else if raw > MAX_BPM as u128 {
            MAX_BPM
        } else {
            raw as u16
        };
        Some(bpm)
    }
}

} // verus!
