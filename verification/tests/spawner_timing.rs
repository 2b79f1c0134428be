use falling_catch::spawner::Spawner;
use falling_catch::vec3::Vec3;

fn proto() -> Vec3 {
    Vec3::new(0, 500, 0)
}

#[test]
fn under_one_period_nothing_fires() {
    let mut sp = Spawner::new(1000, proto());
    assert!(!sp.advance(999));
    assert_eq!(sp.elapsed_ms, 999);
    assert_eq!(sp.period_ms, 1000);
}

#[test]
fn cumulative_exact_period_fires_once() {
    let mut sp = Spawner::new(1000, proto());
    assert!(!sp.advance(400));
    assert!(!sp.advance(300));
    assert!(sp.advance(300));
    assert_eq!(sp.elapsed_ms, 0);
}

#[test]
fn one_evaluation_spanning_periods_fires_once() {
    // The documented single-fire policy: one evaluation fires at most
    // once, however many whole periods the duration spans, but the
    // accumulator absorbs the remainder.
    let mut sp = Spawner::new(1000, proto());
    assert!(sp.advance(2500));
    assert_eq!(sp.elapsed_ms, 500);
    assert!(!sp.advance(499));
    assert_eq!(sp.elapsed_ms, 999);
    assert!(sp.advance(1));
    assert_eq!(sp.elapsed_ms, 0);
}

#[test]
fn zero_delta_accumulates_nothing() {
    let mut sp = Spawner::new(1000, proto());
    assert!(!sp.advance(0));
    assert_eq!(sp.elapsed_ms, 0);
}

#[test]
fn large_stall_keeps_accumulator_below_period() {
    let mut sp = Spawner::new(1000, proto());
    assert!(sp.advance(u64::MAX));
    assert!(sp.elapsed_ms < 1000);
}
