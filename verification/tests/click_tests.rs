use metronome::click::ClickSynth;
use metronome::click::ACCENT_FREQ_HZ;
use metronome::click::NORMAL_FREQ_HZ;
use metronome::click::SAMPLE_RATE;

/// The float sample the host computes from one emitted point, matching
/// the synthesiser's contract: a sine shaped by the envelope ratio and
/// the 0.5 headroom scalar.
fn sample_of(freq_hz: u32, index: usize, env_num: u64, env_den: u64) -> f32 {
    let t = index as f32 / SAMPLE_RATE as f32;
    let sine = (2.0 * std::f32::consts::PI * freq_hz as f32 * t).sin();
    let envelope = env_num as f32 / env_den as f32;
    sine * envelope * 0.5
}

fn all_samples(accent: bool) -> Vec<f32> {
    let mut synth = ClickSynth::for_accent(accent);
    let freq = synth.freq_hz;
    let mut out = Vec::new();
    while let Some(p) = synth.next_point() {
        out.push(sample_of(freq, p.index, p.env_num, p.env_den));
    }
    out
}

#[test]
fn sample_count_is_rate_times_duration() {
    // 44100 * 30 / 1000 samples, whatever the frequency or accent
    assert_eq!(all_samples(true).len(), 1323);
    assert_eq!(all_samples(false).len(), 1323);
    assert_eq!(ClickSynth::for_accent(true).remaining_len(), 1323);
}

#[test]
fn accent_picks_the_higher_frequency() {
    assert_eq!(ClickSynth::for_accent(true).freq_hz, ACCENT_FREQ_HZ);
    assert_eq!(ClickSynth::for_accent(false).freq_hz, NORMAL_FREQ_HZ);
    assert_eq!(ACCENT_FREQ_HZ, 2 * NORMAL_FREQ_HZ);
}

#[test]
fn first_and_last_samples_are_near_silence() {
    for accent in [true, false] {
        let samples = all_samples(accent);
        assert!(samples[0].abs() < 1e-6);
        assert!(samples[samples.len() - 1].abs() < 0.005);
    }
}

#[test]
fn peak_magnitude_never_exceeds_headroom() {
    for accent in [true, false] {
        let samples = all_samples(accent);
        let peak = samples.iter().fold(0.0f32, |m, s| m.max(s.abs()));
        assert!(peak <= 0.5);
        // and the click is audible, not degenerate
        assert!(peak > 0.4);
    }
}

#[test]
fn envelope_ramps_up_holds_and_ramps_down() {
    let synth = ClickSynth::for_accent(false);
    // fade-in: 5 ms of 44100 Hz is 220 samples
    assert_eq!(synth.envelope_ratio(0), (0, 220));
    assert_eq!(synth.envelope_ratio(110), (110, 220));
    assert_eq!(synth.envelope_ratio(219), (219, 220));
    // flat middle
    assert_eq!(synth.envelope_ratio(220), (1, 1));
    assert_eq!(synth.envelope_ratio(660), (1, 1));
    assert_eq!(synth.envelope_ratio(1103), (1, 1));
    // fade-out over the last samples
    assert_eq!(synth.envelope_ratio(1104), (219, 220));
    assert_eq!(synth.envelope_ratio(1322), (1, 220));
}

#[test]
fn points_come_out_in_order_and_only_once() {
    let mut synth = ClickSynth::for_accent(true);
    let mut expected: usize = 0;
    while let Some(p) = synth.next_point() {
        assert_eq!(p.index, expected);
        expected += 1;
        assert_eq!(synth.remaining_len(), 1323 - expected);
    }
    assert_eq!(expected, 1323);
    // exhausted: the stream does not restart
    assert!(synth.next_point().is_none());
    assert_eq!(synth.remaining_len(), 0);
}
