use simon::score::ScoreTracker;

#[test]
fn success_increments_current_and_high_keeps_up() {
    let mut s = ScoreTracker::new();
    s.record_success();
    s.record_success();
    assert_eq!(s.current, 2);
    assert_eq!(s.high, 2);
}

#[test]
fn failure_resets_current_and_keeps_high() {
    let mut s = ScoreTracker::new();
    s.record_success();
    s.record_success();
    s.record_failure();
    assert_eq!(s.current, 0);
    assert_eq!(s.high, 2);
}

#[test]
fn high_equals_best_run_ever() {
    let mut s = ScoreTracker::new();
    let runs: [u64; 4] = [3, 1, 5, 2];
    let mut best: u64 = 0;
    for &run in runs.iter() {
        for _ in 0..run {
            s.record_success();
        }
        if run > best {
            best = run;
        }
        assert_eq!(s.high, best);
        s.record_failure();
        assert_eq!(s.current, 0);
        assert_eq!(s.high, best);
    }
    assert_eq!(s.high, 5);
}

#[test]
fn high_never_decreases() {
    let mut s = ScoreTracker::new();
    let mut last_high: u64 = 0;
    let moves = [true, true, false, true, false, false, true, true, true, false];
    for &ok in moves.iter() {
        if ok {
            s.record_success();
        } else {
            s.record_failure();
        }
        assert!(s.high >= last_high);
        assert!(s.current <= s.high);
        last_high = s.high;
    }
}
