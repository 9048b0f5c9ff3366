//! The beat-scheduling state machine: tempo, time signature, transport
//! state and the decision when a beat fires.
//!
//! Time is a caller-supplied monotonic clock reading in microseconds. The
//! host loop polls [`App::tick`]; when a beat fires it receives a
//! [`BeatEvent`] and synthesises the click outside this crate.

use vstd::prelude::*;
use crate::clamp_bpm;
use crate::MAX_BPM;
use crate::MIN_BPM;
use crate::tap::TAP_HISTORY;
use crate::tap::TapTempo;
use crate::tap::new_history;
use crate::tap::tap_estimate;

verus! {

/// How many time signatures the fixed set holds.
pub const SIGNATURE_COUNT: usize = 6;

/// How many colour themes the host offers.
pub const THEME_COUNT: usize = 5;

/// The fixed set of time signatures, by index: 2/4, 3/4, 4/4, 5/4, 6/8, 7/8.
pub open spec fn sig_at(i: int) -> (u8, u8) {
    if i == 0 {
        (2u8, 4u8)
    } else if i == 1 {
        (3u8, 4u8)
    } else if i == 2 {
        (4u8, 4u8)
    } else if i == 3 {
        (5u8, 4u8)
    } else if i == 4 {
        (6u8, 8u8)
    } else {
        (7u8, 8u8)
    }
}

/// The index of a requested signature in the fixed set; a request outside
/// the set falls back to 4/4.
pub open spec fn sig_index_of(ts: (u8, u8)) -> int {
    if ts == (2u8, 4u8) {
        0
    } else if ts == (3u8, 4u8) {
        1
    } else if ts == (4u8, 4u8) {
        2
    } else if ts == (5u8, 4u8) {
        3
    } else if ts == (6u8, 8u8) {
        4
    } else if ts == (7u8, 8u8) {
        5
    } else {
        2
    }
}

/// Seconds per beat, in microseconds: `60 / bpm` truncated to whole
/// microseconds.
pub open spec fn beat_period_micros(bpm: u16) -> int {
    60_000_000 as int / bpm as int
}

/// The signature index reached from `i` by a step of `d`, wrapping in
/// both directions over the fixed set.
pub open spec fn cycled_index(i: int, d: int) -> int {
    (i + d) % (SIGNATURE_COUNT as int)
}

/// A beat that fired during a call to [`App::tick`].
#[derive(PartialEq, Eq, Structural, Clone, Copy, Debug)]
pub struct BeatEvent {
    /// Whether this beat is the bar's downbeat.
    pub accent: bool,
}

/// A decoded key press, as the host hands it in.
#[derive(PartialEq, Eq, Structural, Clone, Copy, Debug)]
pub enum Key {
    /// A printable character.
    Char(char),
    /// The up arrow.
    Up,
    /// The down arrow.
    Down,
    /// The escape key.
    Esc,
}

/// The metronome's whole interactive state.
pub struct App {
    /// Beats per minute; always within `[MIN_BPM, MAX_BPM]`.
    pub bpm: u16,
    /// The current time signature, one of the fixed set.
    pub time_signature: (u8, u8),
    /// Whether the clock is running.
    pub playing: bool,
    /// Index of the most recently sounded beat within the bar.
    pub current_beat: u8,
    /// The host loop exits once this is set.
    pub should_quit: bool,
    /// Whether the help overlay is open.
    pub show_help: bool,
    /// Which colour theme the host should render with.
    pub theme_index: usize,
    /// Index of the current time signature in the fixed set.
    pub ts_index: usize,
    /// When the most recent beat sounded, in microseconds; backdated
    /// (possibly below zero) to force an immediate beat.
    pub last_beat_time: i128,
    /// The windowed tap history behind tap tempo.
    pub tap: TapTempo,
}

impl App {
    /// Index of the current time signature in the fixed set.
    pub open spec fn sig_index(&self) -> int {
        self.ts_index as int
    }

    /// When the most recent beat sounded, in microseconds.
    pub open spec fn last_time(&self) -> int {
        self.last_beat_time as int
    }

    /// The retained tap history, oldest first.
    pub open spec fn taps(&self) -> Seq<u64> {
        self.tap@
    }

    /// The state invariant: tempo in range, a signature from the fixed
    /// set, the beat index inside the bar, the clock near the reachable
    /// range, and a bounded tap history.
    pub open spec fn wf(&self) -> bool {
        &&& MIN_BPM <= self.bpm <= MAX_BPM
        &&& 0 <= self.sig_index() < SIGNATURE_COUNT as int
        &&& self.time_signature == sig_at(self.sig_index())
        &&& (self.current_beat as int) < self.time_signature.0 as int
        &&& self.theme_index < THEME_COUNT
        &&& self.taps().len() <= TAP_HISTORY
        &&& -3_000_000 <= self.last_time() <= u64::MAX as int
    }

    /// Whether a call of `tick` at `now` fires a beat.
    pub open spec fn fires(&self, now: u64) -> bool {
        self.playing && now as int - self.last_time() >= beat_period_micros(self.bpm)
    }

    /// The beat index a fired beat advances to.
    pub open spec fn next_beat(&self) -> int {
        (self.current_beat as int + 1) % (self.time_signature.0 as int)
    }
}

/// `pre` and `post` agree on every observable component.
pub open spec fn same_app(pre: App, post: App) -> bool {
    &&& post.bpm == pre.bpm
    &&& post.time_signature == pre.time_signature
    &&& post.playing == pre.playing
    &&& post.current_beat == pre.current_beat
    &&& post.should_quit == pre.should_quit
    &&& post.show_help == pre.show_help
    &&& post.theme_index == pre.theme_index
    &&& post.sig_index() == pre.sig_index()
    &&& post.last_time() == pre.last_time()
    &&& post.taps() == pre.taps()
}

/// The transport (play state, beat index, beat clock) is untouched.
pub open spec fn same_transport(pre: App, post: App) -> bool {
    &&& post.playing == pre.playing
    &&& post.current_beat == pre.current_beat
    &&& post.last_time() == pre.last_time()
}

/// The UI flags (quit, help, theme) are untouched.
pub open spec fn same_ui(pre: App, post: App) -> bool {
    &&& post.should_quit == pre.should_quit
    &&& post.show_help == pre.show_help
    &&& post.theme_index == pre.theme_index
}

/// The time signature and its index are untouched.
pub open spec fn same_signature(pre: App, post: App) -> bool {
    &&& post.time_signature == pre.time_signature
    &&& post.sig_index() == pre.sig_index()
}

/// The tap history is untouched.
pub open spec fn same_taps(pre: App, post: App) -> bool {
    post.taps() == pre.taps()
}

/// What one `tick` call does: nothing while stopped or before the period
/// has elapsed; otherwise it advances the beat, restarts the period at
/// `now`, and reports whether the advanced beat is the downbeat. At most
/// one beat fires however much time has passed.
pub open spec fn ticked(pre: App, post: App, now: u64, r: Option<BeatEvent>) -> bool {
    &&& post.bpm == pre.bpm
    &&& same_signature(pre, post)
    &&& same_ui(pre, post)
    &&& same_taps(pre, post)
    &&& post.playing == pre.playing
    &&& if pre.fires(now) {
        &&& post.current_beat as int == pre.next_beat()
        &&& post.last_time() == now as int
        &&& r == Some(BeatEvent { accent: pre.next_beat() == 0 })
    } else {
        &&& post.current_beat == pre.current_beat
        &&& post.last_time() == pre.last_time()
        &&& r is None
    }
}

/// What toggling play does: flips the play state; on the transition to
/// playing it parks the beat index at the bar's end and backdates the
/// clock a whole period, so the very next `tick` fires the downbeat; on
/// the transition to stopped it freezes the state as it stands.
pub open spec fn toggled(pre: App, post: App, now: u64) -> bool {
    &&& post.playing == !pre.playing
    &&& post.bpm == pre.bpm
    &&& same_signature(pre, post)
    &&& same_ui(pre, post)
    &&& same_taps(pre, post)
    &&& if post.playing {
        &&& post.current_beat as int == post.time_signature.0 as int - 1
        &&& post.last_time() == now as int - beat_period_micros(pre.bpm)
    } else {
        &&& post.current_beat == pre.current_beat
        &&& post.last_time() == pre.last_time()
    }
}

/// What a tempo adjustment does: adds the delta and saturates into the
/// legal range; nothing else moves.
pub open spec fn adjusted(pre: App, post: App, delta: int) -> bool {
    &&& post.bpm == clamp_bpm(pre.bpm as int + delta)
    &&& same_signature(pre, post)
    &&& same_transport(pre, post)
    &&& same_ui(pre, post)
    &&& same_taps(pre, post)
}

/// What cycling the time signature does: steps the index with wraparound,
/// parks the beat index at the new bar's end, and, when playing, backdates
/// the clock so the new bar opens on its downbeat at the next `tick`.
pub open spec fn cycled(pre: App, post: App, d: int, now: u64) -> bool {
    &&& post.sig_index() == cycled_index(pre.sig_index(), d)
    &&& post.time_signature == sig_at(post.sig_index())
    &&& post.current_beat as int == post.time_signature.0 as int - 1
    &&& post.last_time() == if pre.playing {
        now as int - beat_period_micros(pre.bpm)
    } else {
        pre.last_time()
    }
    &&& post.playing == pre.playing
    &&& post.bpm == pre.bpm
    &&& same_ui(pre, post)
    &&& same_taps(pre, post)
}

/// What a tap does: updates the windowed history and, when it yields an
/// estimate, adopts it as the tempo; nothing else moves.
pub open spec fn tapped(pre: App, post: App, now: u64) -> bool {
    &&& post.taps() == new_history(pre.taps(), now)
    &&& post.bpm == (match tap_estimate(new_history(pre.taps(), now)) {
        Some(b) => b,
        None => pre.bpm,
    })
    &&& same_signature(pre, post)
    &&& same_transport(pre, post)
    &&& same_ui(pre, post)
}

/// What cycling the theme does: steps the theme index with wraparound.
pub open spec fn theme_cycled(pre: App, post: App) -> bool {
    &&& post.theme_index as int == (pre.theme_index as int + 1) % (THEME_COUNT as int)
    &&& post.bpm == pre.bpm
    &&& same_signature(pre, post)
    &&& same_transport(pre, post)
    &&& same_taps(pre, post)
    &&& post.should_quit == pre.should_quit
    &&& post.show_help == pre.show_help
}

/// What a key press does. While the help overlay is open, escape or `?`
/// closes it and every other key is swallowed. Otherwise each binding
/// routes to its operation, and unbound keys do nothing.
pub open spec fn key_handled(pre: App, post: App, key: Key, now: u64) -> bool {
    if pre.show_help {
        if key == Key::Esc || key == Key::Char('?') {
            &&& !post.show_help
            &&& post.bpm == pre.bpm
            &&& same_signature(pre, post)
            &&& same_transport(pre, post)
            &&& same_taps(pre, post)
            &&& post.should_quit == pre.should_quit
            &&& post.theme_index == pre.theme_index
        } else {
            same_app(pre, post)
        }
    } else {
        match key {
            Key::Char(c) => if c == 'q' {
                quit_requested(pre, post)
            } else if c == '?' {
                help_opened(pre, post)
            } else if c == ' ' {
                toggled(pre, post, now)
            } else if c == 'k' {
                adjusted(pre, post, 1)
            } else if c == 'j' {
                adjusted(pre, post, -1)
            } else if c == '+' || c == '=' {
                adjusted(pre, post, 10)
            } else if c == '-' {
                adjusted(pre, post, -10)
            } else if c == 't' {
                tapped(pre, post, now)
            } else if c == ']' {
                cycled(pre, post, 1, now)
            } else if c == '[' {
                cycled(pre, post, -1, now)
            } else if c == 'c' {
                theme_cycled(pre, post)
            } else {
                same_app(pre, post)
            },
            Key::Up => adjusted(pre, post, 1),
            Key::Down => adjusted(pre, post, -1),
            Key::Esc => quit_requested(pre, post),
        }
    }
}

/// Quitting was requested; everything else is untouched.
pub open spec fn quit_requested(pre: App, post: App) -> bool {
    &&& post.should_quit
    &&& post.bpm == pre.bpm
    &&& same_signature(pre, post)
    &&& same_transport(pre, post)
    &&& same_taps(pre, post)
    &&& post.show_help == pre.show_help
    &&& post.theme_index == pre.theme_index
}

/// The help overlay was opened; everything else is untouched.
pub open spec fn help_opened(pre: App, post: App) -> bool {
    &&& post.show_help
    &&& post.bpm == pre.bpm
    &&& same_signature(pre, post)
    &&& same_transport(pre, post)
    &&& same_taps(pre, post)
    &&& post.should_quit == pre.should_quit
    &&& post.theme_index == pre.theme_index
}

/// A playing clock whose period has elapsed exactly — `now` stands one
/// whole beat period past the last beat — fires a beat on `tick`; and a
/// call fires at most one beat however far `now` has advanced, since
/// `ticked` admits a single advance per call.
pub proof fn lemma_exact_period_fires(app: App, now: u64)
    requires
        app.wf(),
        app.playing,
        now as int == app.last_time() + beat_period_micros(app.bpm),
    ensures
        app.fires(now),
{
}

/// Cycling the signature forward and then backward (or backward and then
/// forward) returns to the same entry: each step is a bijection on the
/// fixed set.
pub proof fn lemma_cycle_round_trip(i: int)
    requires
        0 <= i < SIGNATURE_COUNT as int,
    ensures
        cycled_index(cycled_index(i, 1), -1) == i,
        cycled_index(cycled_index(i, -1), 1) == i,
{
}

/// Six forward cycles walk the whole fixed set and return to the original
/// signature.
pub proof fn lemma_six_forward_cycles_return(i: int)
    requires
        0 <= i < SIGNATURE_COUNT as int,
    ensures
        cycled_index(
            cycled_index(
                cycled_index(cycled_index(cycled_index(cycled_index(i, 1), 1), 1), 1),
                1,
            ),
            1,
        ) == i,
{
}

/// One backward step from the first entry wraps to the last entry.
pub proof fn lemma_cycle_back_from_first()
    ensures
        cycled_index(0, -1) == SIGNATURE_COUNT as int - 1,
{
}

/// After a toggle into the playing state, the very next `tick` — at any
/// `later` not before the toggle — fires, and the beat it fires is the
/// downbeat (beat index zero), whatever beat the bar stood on before.
pub proof fn lemma_first_tick_after_play_is_downbeat(pre: App, post: App, now: u64, later: u64)
    requires
        pre.wf(),
        post.wf(),
        !pre.playing,
        toggled(pre, post, now),
        now <= later,
    ensures
        post.fires(later),
        post.next_beat() == 0,
{
    let b = post.time_signature.0 as int;
    vstd::arithmetic::div_mod::lemma_mod_self_0(b);
}

/// Beats fired by two successive `tick` calls stand at least one whole
/// beat period apart: a late poll fires one beat and restarts the period,
/// it never bunches beats to catch up.
pub proof fn lemma_beats_spaced_by_period(
    a: App,
    b: App,
    c: App,
    t1: u64,
    t2: u64,
    e1: Option<BeatEvent>,
    e2: Option<BeatEvent>,
)
    requires
        ticked(a, b, t1, e1),
        e1 is Some,
        ticked(b, c, t2, e2),
        e2 is Some,
    ensures
        t2 as int - t1 as int >= beat_period_micros(a.bpm),
{
}

/// The signature of the fixed set at `i`.
pub fn signature_at(i: usize) -> (ts: (u8, u8))
    requires
        i < SIGNATURE_COUNT,
    ensures
        ts == sig_at(i as int),
{
    if i == 0 {
        (2, 4)
    } else if i == 1 {
        (3, 4)
    } else if i == 2 {
        (4, 4)
    } else if i == 3 {
        (5, 4)
    } else if i == 4 {
        (6, 8)
    } else {
        (7, 8)
    }
}

impl App {
    /// A stopped metronome at the requested tempo, saturated into range,
    /// and the requested signature, falling back to 4/4 when the request
    /// is not in the fixed set.
    pub fn new(bpm: u16, time_signature: (u8, u8)) -> (app: App)
        ensures
            app.wf(),
            app.bpm == clamp_bpm(bpm as int),
            app.sig_index() == sig_index_of(time_signature),
            app.time_signature == sig_at(sig_index_of(time_signature)),
            !app.playing,
            app.current_beat == 0,
            !app.should_quit,
            !app.show_help,
            app.theme_index == 0,
            app.taps() == Seq::<u64>::empty(),
            app.last_time() == 0,
    {
        let ts_index: usize = if time_signature.0 == 2 && time_signature.1 == 4 {
            0
        } else if time_signature.0 == 3 && time_signature.1 == 4 {
            1
        } else if time_signature.0 == 4 && time_signature.1 == 4 {
            2
        } else if time_signature.0 == 5 && time_signature.1 == 4 {
            3
        } else if time_signature.0 == 6 && time_signature.1 == 8 {
            4
        } else if time_signature.0 == 7 && time_signature.1 == 8 {
            5
        } else {
            2
        };
        let clamped: u16 = if bpm < MIN_BPM {
            MIN_BPM
        } else if bpm > MAX_BPM {
            MAX_BPM
        } else {
            bpm
        };
        App {
            bpm: clamped,
            time_signature: signature_at(ts_index),
            playing: false,
            current_beat: 0,
            should_quit: false,
            show_help: false,
            theme_index: 0,
            ts_index,
            last_beat_time: 0,
            tap: TapTempo::new(),
        }
    }

    /// Decide the state invariant at run time: the executable mirror of
    /// [`App::wf`], for callers outside the verified world.
    pub fn wf_check(&self) -> (b: bool)
        ensures
            b == self.wf(),
    {
        if self.bpm < MIN_BPM || self.bpm > MAX_BPM {
            return false;
        }
        if self.ts_index >= SIGNATURE_COUNT {
            return false;
        }
        let ts: (u8, u8) = signature_at(self.ts_index);
        if self.time_signature.0 != ts.0 || self.time_signature.1 != ts.1 {
            return false;
        }
        if self.current_beat >= self.time_signature.0 {
            return false;
        }
        if self.theme_index >= THEME_COUNT {
            return false;
        }
        if self.tap.len() > TAP_HISTORY {
            return false;
        }
        if self.last_beat_time < -3_000_000 || self.last_beat_time > u64::MAX as i128 {
            return false;
        }
        true
    }

    /// One beat's length in microseconds: `60 / bpm` seconds, truncated.
    pub fn beat_duration(&self) -> (d: u64)
        requires
            self.wf(),
        ensures
            d as int == beat_period_micros(self.bpm),
            0 < d <= 3_000_000,
    {
        let d: u64 = 60_000_000u64 / (self.bpm as u64);
        proof {
            assert(60_000_000 as int / self.bpm as int <= 3_000_000 && 60_000_000 as int
                / self.bpm as int >= 1) by {
                vstd::arithmetic::div_mod::lemma_div_is_ordered_by_denominator(
                    60_000_000,
                    20,
                    self.bpm as int,
                );
                vstd::arithmetic::div_mod::lemma_div_is_ordered_by_denominator(
                    60_000_000,
                    self.bpm as int,
                    60_000_000,
                );
            }
        }
        d
    }

    /// Advance the clock to `now`: while playing, fire at most one beat
    /// once a whole period has elapsed since the last one.
    pub fn tick(&mut self, now: u64) -> (r: Option<BeatEvent>)
        requires
            old(self).wf(),
        ensures
            final(self).wf(),
            ticked(*old(self), *final(self), now, r),
    {
        if !self.playing {
            return None;
        }
        let period: u64 = self.beat_duration();
        if now as i128 - self.last_beat_time >= period as i128 {
            let beats: u8 = self.time_signature.0;
            self.current_beat = (self.current_beat + 1) % beats;
            let accent: bool = self.current_beat == 0;
            self.last_beat_time = now as i128;
            Some(BeatEvent { accent })
        } else {
            None
        }
    }

    /// Flip between stopped and playing; starting parks the bar so the
    /// next `tick` fires the downbeat at once.
    pub fn toggle_play(&mut self, now: u64)
        requires
            old(self).wf(),
        ensures
            final(self).wf(),
            toggled(*old(self), *final(self), now),
    {
        let period: u64 = self.beat_duration();
        self.playing = !self.playing;
        if self.playing {
            self.current_beat = self.time_signature.0 - 1;
            self.last_beat_time = now as i128 - period as i128;
        }
    }

    /// Add `delta` to the tempo, saturating into the legal range.
    pub fn adjust_bpm(&mut self, delta: i16)
        requires
            old(self).wf(),
        ensures
            final(self).wf(),
            adjusted(*old(self), *final(self), delta as int),
    {
        let nb: i32 = self.bpm as i32 + delta as i32;
        self.bpm = if nb < MIN_BPM as i32 {
            MIN_BPM
        } else if nb > MAX_BPM as i32 {
            MAX_BPM
        } else {
            nb as u16
        };
    }

    /// Step to the next or previous time signature of the fixed set,
    /// wrapping at either end, and open the new bar cleanly.
    pub fn cycle_time_signature(&mut self, direction: i8, now: u64)
        requires
            old(self).wf(),
        ensures
            final(self).wf(),
            cycled(*old(self), *final(self), direction as int, now),
    {
        let period: u64 = self.beat_duration();
        let shifted: i64 = self.ts_index as i64 + direction as i64 + 132;
        let idx: usize = (shifted % 6) as usize;
        proof {
            vstd::arithmetic::div_mod::lemma_mod_multiples_vanish(
                22,
                self.ts_index as int + direction as int,
                6,
            );
        }
        self.ts_index = idx;
        self.time_signature = signature_at(idx);
        self.current_beat = self.time_signature.0 - 1;
        if self.playing {
            self.last_beat_time = now as i128 - period as i128;
        }
    }

    /// Record a tap at `now` and adopt the estimate it yields, if any.
    pub fn tap_tempo(&mut self, now: u64)
        requires
            old(self).wf(),
        ensures
            final(self).wf(),
            tapped(*old(self), *final(self), now),
    {
        let est: Option<u16> = self.tap.register_tap(now);
        match est {
            Some(b) => {
                self.bpm = b;
            },
            None => {},
        }
    }

    /// Step to the next colour theme, wrapping around.
    pub fn cycle_theme(&mut self)
        requires
            old(self).wf(),
        ensures
            final(self).wf(),
            theme_cycled(*old(self), *final(self)),
    {
        self.theme_index = (self.theme_index + 1) % THEME_COUNT;
    }

    /// Route one key press: close the help overlay if it is open, else
    /// apply the binding the key carries.
    pub fn handle_key(&mut self, key: Key, now: u64)
        requires
            old(self).wf(),
        ensures
            final(self).wf(),
            key_handled(*old(self), *final(self), key, now),
    {
        if self.show_help {
            match key {
                Key::Esc => {
                    self.show_help = false;
                },
                Key::Char(c) => {
                    if c == '?' {
                        self.show_help = false;
                    }
                },
                _ => {},
            }
            return;
        }
        match key {
            Key::Char(c) => {
                if c == 'q' {
                    self.should_quit = true;
                } else if c == '?' {
                    self.show_help = true;
                } else if c == ' ' {
                    self.toggle_play(now);
                } else if c == 'k' {
                    self.adjust_bpm(1);
                } else if c == 'j' {
                    self.adjust_bpm(-1);
                } else if c == '+' || c == '=' {
                    self.adjust_bpm(10);
                } else if c == '-' {
                    self.adjust_bpm(-10);
                } else if c == 't' {
                    self.tap_tempo(now);
                } else if c == ']' {
                    self.cycle_time_signature(1, now);
                } else if c == '[' {
                    self.cycle_time_signature(-1, now);
                } else if c == 'c' {
                    self.cycle_theme();
                }
            },
            Key::Up => {
                self.adjust_bpm(1);
            },
            Key::Down => {
                self.adjust_bpm(-1);
            },
            Key::Esc => {
                self.should_quit = true;
            },
        }
    }
}

} // verus!
