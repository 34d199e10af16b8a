use aruu::beats::BeatTracker;

#[test]
fn beats_wait_for_stable_tempo() {
    let mut tracker = BeatTracker::new();
    let e = tracker.on_onset(10_000, 120_000, 900);
    assert_eq!(e.beat_position, 0);
    assert!(!e.downbeat_detected);
    tracker.observe_stability(600);
    assert!(!tracker.is_tempo_stable());
    tracker.observe_stability(601);
    assert!(tracker.is_tempo_stable());
}

#[test]
fn beats_count_a_bar_and_flag_strong_downbeats() {
    let mut tracker = BeatTracker::new();
    tracker.observe_stability(900);
    // At 120 bpm the beat interval is 500 ms; 80% of it is 400 ms.
    assert_eq!(tracker.on_onset(1000, 120_000, 900).beat_position, 1);
    // Too early: no beat.
    let early = tracker.on_onset(1399, 120_000, 900);
    assert_eq!(early.beat_position, 1);
    assert_eq!(tracker.on_onset(1400, 120_000, 900).beat_position, 2);
    assert_eq!(tracker.on_onset(1900, 120_000, 900).beat_position, 3);
    let down = tracker.on_onset(2400, 120_000, 900);
    assert_eq!(down.beat_position, 0);
    assert!(down.downbeat_detected);
    // A weak onset on the first beat is not a downbeat.
    for t in [2900, 3400, 3900] {
        tracker.on_onset(t, 120_000, 900);
    }
    let weak = tracker.on_onset(4400, 120_000, 700);
    assert_eq!(weak.beat_position, 0);
    assert!(!weak.downbeat_detected);
    tracker.reset();
    assert_eq!(tracker.beat_position(), 0);
    assert!(!tracker.is_tempo_stable());
}
