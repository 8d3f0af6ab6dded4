use parry_duel::timer::Timer;

#[test]
fn timer_starts_empty() {
    let t = Timer::new(400_000);
    assert_eq!(t.elapsed(), 0);
    assert_eq!(t.target(), 400_000);
    assert!(!t.finished());
}

#[test]
fn timer_tick_accumulates() {
    let mut t = Timer::new(1_000_000);
    t.tick(300_000);
    t.tick(200_000);
    assert_eq!(t.elapsed(), 500_000);
    assert!(!t.finished());
}

#[test]
fn timer_saturates_at_target() {
    let mut t = Timer::new(400_000);
    t.tick(250_000);
    t.tick(u64::MAX);
    assert_eq!(t.elapsed(), 400_000);
    assert!(t.finished());
}

#[test]
fn timer_finishes_exactly_at_target() {
    let mut t = Timer::new(1_000_000);
    t.tick(1_000_000);
    assert_eq!(t.elapsed(), 1_000_000);
    assert!(t.finished());
}

#[test]
fn timer_zero_tick_keeps_state() {
    let mut t = Timer::new(400_000);
    t.tick(100_000);
    t.tick(0);
    assert_eq!(t.elapsed(), 100_000);
    assert!(!t.finished());
}

#[test]
fn timer_reset_starts_over() {
    let mut t = Timer::new(400_000);
    t.tick(400_000);
    t.reset(900_000);
    assert_eq!(t.elapsed(), 0);
    assert_eq!(t.target(), 900_000);
    assert!(!t.finished());
}
