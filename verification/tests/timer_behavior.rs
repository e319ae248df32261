use flappy_birb::timer::Timer;

#[test]
fn timer_single_call_fires_once() {
    let mut t = Timer::new(750);
    assert_eq!(t.target_ms, 750);
    assert_eq!(t.elapsed_ms, 0);
    // Exactly one period in one call: fires, and the accumulator wraps to zero.
    assert!(t.tick(750));
    assert_eq!(t.elapsed_ms, 0);
    // The same elapsed total again fires again, once.
    assert!(t.tick(750));
    assert_eq!(t.elapsed_ms, 0);
}

#[test]
fn timer_split_calls_fire_at_crossing() {
    let mut t = Timer::new(750);
    assert!(!t.tick(300));
    assert_eq!(t.elapsed_ms, 300);
    assert!(!t.tick(300));
    assert_eq!(t.elapsed_ms, 600);
    // The crossing call fires; the earlier ones did not.
    assert!(t.tick(150));
    assert_eq!(t.elapsed_ms, 0);
}

#[test]
fn timer_multi_period_call_notifies_once() {
    let mut t = Timer::new(750);
    // An elapsed value spanning two periods still reports a single firing
    // for the call, keeping the remainder.
    assert!(t.tick(2000));
    assert_eq!(t.elapsed_ms, 500);
}

#[test]
fn timer_targets_are_clamped_positive() {
    let mut t = Timer::new(0);
    assert_eq!(t.target_ms, 1);
    t.set_duration(0);
    assert_eq!(t.target_ms, 1);
    t.set_duration(20_000_000);
    assert_eq!(t.target_ms, 10_000_000);
    t.set_duration(1500);
    assert_eq!(t.target_ms, 1500);
}
