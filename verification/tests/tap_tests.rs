use metronome::app::App;
use metronome::app::Key;
use metronome::tap::TapTempo;

const SEC: u64 = 1_000_000;

#[test]
fn one_tap_gives_no_estimate() {
    let mut t = TapTempo::new();
    assert_eq!(t.register_tap(10 * SEC), None);
}

#[test]
fn taps_at_half_second_spacing_give_120_bpm() {
    let mut t = TapTempo::new();
    assert_eq!(t.register_tap(0), None);
    assert_eq!(t.register_tap(500_000), Some(120));
    assert_eq!(t.register_tap(1_000_000), Some(120));
}

#[test]
fn estimate_averages_over_the_whole_window() {
    let mut t = TapTempo::new();
    t.register_tap(0);
    t.register_tap(400_000);
    // gaps 0.4 s and 0.6 s average to 0.5 s: 120 bpm
    assert_eq!(t.register_tap(1_000_000), Some(120));
}

#[test]
fn estimate_rounds_to_the_nearest_bpm() {
    let mut t = TapTempo::new();
    t.register_tap(0);
    // 0.437 s per beat is 137.299... bpm; rounds down
    assert_eq!(t.register_tap(437_000), Some(137));
    let mut u = TapTempo::new();
    u.register_tap(0);
    // 0.435 s per beat is 137.931... bpm; rounds up
    assert_eq!(u.register_tap(435_000), Some(138));
}

#[test]
fn estimate_clamps_into_the_legal_range() {
    let mut fast = TapTempo::new();
    fast.register_tap(0);
    // 10 ms per tap would be 6000 bpm
    assert_eq!(fast.register_tap(10_000), Some(300));

    let mut slow = TapTempo::new();
    slow.register_tap(0);
    // 2.9 s per tap would be about 21 bpm; still legal
    assert_eq!(slow.register_tap(2_900_000), Some(21));
}

#[test]
fn a_stale_pause_discards_all_history() {
    let mut t = TapTempo::new();
    t.register_tap(0);
    t.register_tap(500_000);
    t.register_tap(1_000_000);
    // more than 3 s after the last tap: everything old is dropped,
    // the lone new tap yields nothing
    assert_eq!(t.register_tap(4_100_000), None);
    // and the session restarts cleanly from that tap
    assert_eq!(t.register_tap(4_600_000), Some(120));
}

#[test]
fn exactly_three_seconds_is_still_fresh() {
    // a gap of exactly the window keeps the first tap: 3 s per beat is
    // 20 bpm, the legal floor
    let mut t = TapTempo::new();
    t.register_tap(0);
    assert_eq!(t.register_tap(3_000_000), Some(20));
    // one microsecond beyond the window discards it
    let mut u = TapTempo::new();
    u.register_tap(0);
    assert_eq!(u.register_tap(3_000_001), None);
}

#[test]
fn history_is_capped_at_eight_taps() {
    let mut t = TapTempo::new();
    // nine fast taps 100 ms apart inside the window
    let mut est = None;
    for i in 0..9u64 {
        est = t.register_tap(10 * SEC + i * 100_000);
    }
    // only the last 8 taps (7 gaps of 0.1 s) remain: 600 bpm clamps to 300
    assert_eq!(est, Some(300));
}

#[test]
fn coincident_taps_give_no_estimate() {
    let mut t = TapTempo::new();
    t.register_tap(10 * SEC);
    // a zero average interval is skipped, not divided by
    assert_eq!(t.register_tap(10 * SEC), None);
}

#[test]
fn tap_key_adopts_the_estimate() {
    let mut a = App::new(60, (4, 4));
    a.handle_key(Key::Char('t'), 20 * SEC);
    assert_eq!(a.bpm, 60);
    a.handle_key(Key::Char('t'), 20 * SEC + 500_000);
    assert_eq!(a.bpm, 120);
    a.tap_tempo(21 * SEC);
    assert_eq!(a.bpm, 120);
}
