//! Core logic of an interactive terminal metronome.
//!
//! The crate holds the parts of the metronome with real timing and numeric
//! behaviour: the beat-scheduling state machine ([`app::App`]), the tap-tempo
//! estimator ([`tap::TapTempo`]), and the click-envelope synthesiser state
//! ([`click::ClickSynth`]). Terminal rendering, key decoding, argument
//! parsing and the audio device live outside, around this crate; they hand
//! in plain values (timestamps in microseconds, key presses as [`app::Key`])
//! and take plain values back.

use vstd::prelude::*;

pub mod app;
pub mod click;
pub mod marking;
pub mod tap;

verus! {

/// Beats per minute never drop below this floor.
pub const MIN_BPM: u16 = 20;

/// Beats per minute never rise above this ceiling.
pub const MAX_BPM: u16 = 300;

/// `b` saturated into the legal tempo range `[MIN_BPM, MAX_BPM]`.
pub open spec fn clamp_bpm(b: int) -> u16 {
    if b < MIN_BPM as int {
        MIN_BPM
    } else if b > MAX_BPM as int {
        MAX_BPM
    } else {
        b as u16
    }
}

/// Tempo requests of any magnitude saturate into `[MIN_BPM, MAX_BPM]`;
/// they never wrap around.
pub proof fn lemma_clamp_bpm_in_range(b: int)
    ensures
        MIN_BPM <= clamp_bpm(b) <= MAX_BPM,
{
}

} // verus!
