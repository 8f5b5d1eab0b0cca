//! Deterministic tests of the transition algorithm, driving `Counter::step`
//! with explicit call times (milliseconds) instead of the real clock.

use throttle2::Counter;

fn fresh() -> Counter {
    Counter { interval_start: 0, current_hit_counter: 0, locked_until: 0 }
}

#[test]
fn step_scenario_slow_then_burst() {
    // interval 500 ms, 3 hits allowed, lockout 1000 ms; calls spaced 600 ms
    // keep resetting the window, a rapid burst past the cap locks out.
    let mut c = fresh();
    assert!(!c.step(500, 3, 1000, 0));
    assert!(!c.step(500, 3, 1000, 600));
    assert!(!c.step(500, 3, 1000, 1200));
    assert!(!c.step(500, 3, 1000, 1800));
    assert!(!c.step(500, 3, 1000, 2400));
    assert!(!c.step(500, 3, 1000, 3000));
    assert!(!c.step(500, 3, 1000, 3000));
    assert!(!c.step(500, 3, 1000, 3000));
    assert!(!c.step(500, 3, 1000, 3000));

    // Trigger and stay triggered for the lockout time.
    assert!(c.step(500, 3, 1000, 3000));
    assert_eq!(c.locked_until, 4000);
    assert!(c.step(500, 3, 1000, 3300));
    assert!(c.step(500, 3, 1000, 3600));
    assert!(!c.step(500, 3, 1000, 4100));

    // The throttle still works after the lockout cleared.
    assert!(!c.step(500, 3, 1000, 4100));
    assert!(!c.step(500, 3, 1000, 4100));
    assert!(c.step(500, 3, 1000, 4100));
    assert!(!c.step(500, 3, 1000, 5200));
}

#[test]
fn step_spaced_calls_allowed() {
    // Calls spaced further apart than the interval never throttle.
    let mut c = fresh();
    let mut t: u128 = 501;
    for _ in 0..10 {
        assert!(!c.step(500, 3, 1000, t));
        t += 501;
    }
    assert_eq!(c.locked_until, 0);
}

#[test]
fn step_burst_over_cap_throttles() {
    // The (max_hits + 1)-th call within one window is refused and sets a
    // lockout ending exactly lockout_duration after it.
    let mut c = fresh();
    assert!(!c.step(500, 3, 1000, 100));
    assert!(!c.step(500, 3, 1000, 150));
    assert!(!c.step(500, 3, 1000, 200));
    assert!(c.step(500, 3, 1000, 250));
    assert_eq!(c.locked_until, 1250);
    assert_eq!(c.current_hit_counter, 1);
    assert_eq!(c.interval_start, 250);
    // Every call before the expiry stays refused.
    assert!(c.step(500, 3, 1000, 300));
    assert!(c.step(500, 3, 1000, 1249));
}

#[test]
fn step_lockout_expiry_boundary() {
    // A call landing exactly at locked_until counts as expired: "still
    // locked" is a strict less-than.
    let mut c = fresh();
    assert!(!c.step(500, 3, 1000, 0));
    assert!(!c.step(500, 3, 1000, 0));
    assert!(!c.step(500, 3, 1000, 0));
    assert!(c.step(500, 3, 1000, 0));
    assert_eq!(c.locked_until, 1000);
    assert!(!c.step(500, 3, 1000, 1000));
    assert_eq!(c.locked_until, 0);
}

#[test]
fn step_post_lockout_fresh_burst() {
    // After a saturated lockout expires, the next call resets the window and
    // a fresh burst of up to max_hits calls is allowed again.
    let mut c = fresh();
    for _ in 0..3 {
        assert!(!c.step(500, 3, 1000, 10));
    }
    assert!(c.step(500, 3, 1000, 10)); // locked until 1010
    assert!(c.step(500, 3, 1000, 200));
    assert!(c.step(500, 3, 1000, 400));
    assert!(c.step(500, 3, 1000, 600));
    // Expiry call: the count is past the cap, so the window resets.
    assert!(!c.step(500, 3, 1000, 1010));
    assert_eq!(c.interval_start, 1010);
    assert_eq!(c.current_hit_counter, 1);
    assert_eq!(c.locked_until, 0);
    assert!(!c.step(500, 3, 1000, 1020));
    assert!(!c.step(500, 3, 1000, 1030));
    assert!(c.step(500, 3, 1000, 1040));
}

#[test]
fn step_no_reset_when_lockout_saw_few_calls() {
    // If fewer calls arrived during the lockout, the expiry call's count is
    // back within the cap: the lock clears and the call is allowed, but the
    // window is not reset.
    let mut c = fresh();
    for _ in 0..3 {
        assert!(!c.step(500, 3, 1000, 10));
    }
    assert!(c.step(500, 3, 1000, 30)); // locked until 1030, count 1
    assert!(c.step(500, 3, 1000, 500)); // count 2
    assert!(!c.step(500, 3, 1000, 1030)); // count 3 <= 3: allowed, no reset
    assert_eq!(c.interval_start, 30);
    assert_eq!(c.current_hit_counter, 3);
    assert_eq!(c.locked_until, 0);
}

#[test]
fn step_identical_sequences_agree() {
    // Identical configurations fed identical timed calls give identical
    // verdicts.
    let times: [u128; 12] = [0, 5, 10, 15, 20, 600, 700, 800, 900, 1000, 2000, 2600];
    let mut a = fresh();
    let mut b = fresh();
    for t in times {
        let va = a.step(500, 3, 1000, t);
        let vb = b.step(500, 3, 1000, t);
        assert_eq!(va, vb);
    }
    assert_eq!(a.interval_start, b.interval_start);
    assert_eq!(a.current_hit_counter, b.current_hit_counter);
    assert_eq!(a.locked_until, b.locked_until);
}

#[test]
fn step_max_hits_zero_locks_at_once() {
    // max_hits = 0: the first event within the window triggers the lockout.
    let mut c = fresh();
    assert!(c.step(500, 0, 1000, 100));
    assert_eq!(c.locked_until, 1100);
    // ... and after the window had expired naturally, the first event of the
    // new window is allowed, the second refused.
    let mut d = fresh();
    assert!(!d.step(500, 0, 1000, 501));
    assert!(d.step(500, 0, 1000, 502));
}

#[test]
fn step_hit_count_saturates() {
    // The hit count stops at u64::MAX instead of wrapping.
    let mut c = Counter { interval_start: 0, current_hit_counter: u64::MAX - 1, locked_until: 0 };
    assert!(!c.step(500, u64::MAX, 1000, 10));
    assert_eq!(c.current_hit_counter, u64::MAX);
    assert!(!c.step(500, u64::MAX, 1000, 20));
    assert_eq!(c.current_hit_counter, u64::MAX);
}
