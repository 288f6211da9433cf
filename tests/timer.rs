use tetrisman::{FallingTimer, Timer, FAST_FALL_MS, NORMAL_FALL_MS};

#[test]
fn timer_fires_when_period_is_reached_and_keeps_the_rest() {
    let mut t = Timer::new(1000);
    assert!(!t.tick(400));
    assert_eq!(t.elapsed_ms, 400);
    assert!(!t.tick(599));
    assert!(t.tick(301));
    assert_eq!(t.elapsed_ms, 300);
    assert!(t.tick(2700));
    assert_eq!(t.elapsed_ms, 0);
}

#[test]
fn timer_reset_drops_accumulated_time() {
    let mut t = Timer::new(500);
    t.tick(499);
    t.reset();
    assert_eq!(t.elapsed_ms, 0);
    assert!(!t.tick(499));
}

#[test]
fn soft_drop_uses_the_fast_timer() {
    let mut g = FallingTimer::new();
    assert_eq!(g.normal_timer.period_ms, NORMAL_FALL_MS);
    assert_eq!(g.fast_timer.period_ms, FAST_FALL_MS);
    assert!(g.tick(500, true));
    assert_eq!(g.normal_timer.elapsed_ms, 0);
    assert!(!g.tick(500, false));
    assert_eq!(g.normal_timer.elapsed_ms, 500);
    assert_eq!(g.fast_timer.elapsed_ms, 0);
    assert!(g.tick(500, false));
}
