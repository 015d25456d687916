use pendulum::manual_policy::{latest_reading, ManualPolicy};
use pendulum::sin_policy::SinPolicy;

#[test]
fn manual_map_hits_the_endpoints_exactly() {
    let mut policy = ManualPolicy::new();
    policy.set_min_limit(100);
    policy.set_max_limit(1100);
    assert_eq!(policy.sample(100), -1000);
    assert_eq!(policy.sample(1100), 1000);
}

#[test]
fn manual_map_clamps_outside_the_limits() {
    let mut policy = ManualPolicy::new();
    policy.set_min_limit(100);
    policy.set_max_limit(1100);
    assert_eq!(policy.sample(0), -1000);
    assert_eq!(policy.sample(99), -1000);
    assert_eq!(policy.sample(1101), 1000);
    assert_eq!(policy.sample(4095), 1000);
    assert_eq!(policy.sample(u16::MAX), 1000);
}

#[test]
fn manual_map_is_linear_between_the_limits() {
    let mut policy = ManualPolicy::new();
    policy.set_min_limit(100);
    policy.set_max_limit(1100);
    assert_eq!(policy.sample(600), 0);
    assert_eq!(policy.sample(350), -500);
    assert_eq!(policy.sample(850), 500);
}

#[test]
fn manual_map_default_range() {
    let policy = ManualPolicy::new();
    assert_eq!(policy.min_limit, 0);
    assert_eq!(policy.max_limit, 2048);
    assert_eq!(policy.sample(0), -1000);
    assert_eq!(policy.sample(1024), 0);
    assert_eq!(policy.sample(2048), 1000);
}

#[test]
fn manual_map_is_monotonic() {
    let mut policy = ManualPolicy::new();
    policy.set_min_limit(37);
    policy.set_max_limit(991);
    let mut previous = policy.sample(0);
    for raw in 1u16..2000 {
        let command = policy.sample(raw);
        assert!(previous <= command, "raw={raw}");
        assert!((-1000..=1000).contains(&command));
        previous = command;
    }
}

#[test]
fn capture_keeps_the_last_good_reading() {
    assert_eq!(latest_reading(0, Some(512)), 512);
    assert_eq!(latest_reading(512, None), 512);
    assert_eq!(latest_reading(512, Some(700)), 700);
}

#[test]
fn sine_policy_time_counter_is_deterministic_in_the_call_count() {
    let mut policy = SinPolicy::new(1000);
    assert_eq!(policy.time_ms, 0);
    assert_eq!(policy.sample(), 25_000);
    assert_eq!(policy.sample(), 50_000);
    assert_eq!(policy.sample(), 75_000);
    assert_eq!(policy.time_ms, 75);

    let mut again = SinPolicy::new(1000);
    for _ in 0..3 {
        again.sample();
    }
    assert_eq!(again.time_ms, policy.time_ms);
}

#[test]
fn sine_policy_phase_scales_with_frequency() {
    let mut slow = SinPolicy::new(500);
    let mut fast = SinPolicy::new(2000);
    assert_eq!(slow.sample(), 12_500);
    assert_eq!(fast.sample(), 50_000);
}
