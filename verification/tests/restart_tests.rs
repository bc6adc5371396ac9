use ash_flare::restart::RestartTracker;
use ash_flare::{RestartIntensity, RestartPolicy, RestartStrategy};

#[test]
fn test_restart_strategy_defaults() {
    assert_eq!(RestartStrategy::default(), RestartStrategy::OneForOne);
}

#[test]
fn test_restart_policy_defaults() {
    assert_eq!(RestartPolicy::default(), RestartPolicy::Permanent);
}

#[test]
fn test_restart_intensity_defaults() {
    let intensity = RestartIntensity::default();
    assert_eq!(intensity.max_restarts, 3);
    assert_eq!(intensity.within_seconds, 5);
}

#[test]
fn test_restart_intensity_custom() {
    let intensity = RestartIntensity {
        max_restarts: 10,
        within_seconds: 30,
    };
    assert_eq!(intensity.max_restarts, 10);
    assert_eq!(intensity.within_seconds, 30);
}

#[test]
fn test_restart_strategy_equality() {
    assert_eq!(RestartStrategy::OneForOne, RestartStrategy::OneForOne);
    assert_ne!(RestartStrategy::OneForOne, RestartStrategy::OneForAll);
    assert_ne!(RestartStrategy::OneForAll, RestartStrategy::RestForOne);
}

#[test]
fn test_restart_policy_equality() {
    assert_eq!(RestartPolicy::Permanent, RestartPolicy::Permanent);
    assert_ne!(RestartPolicy::Permanent, RestartPolicy::Temporary);
    assert_ne!(RestartPolicy::Temporary, RestartPolicy::Transient);
}

#[test]
fn test_restart_intensity_default() {
    let intensity = RestartIntensity::default();
    assert_eq!(intensity.max_restarts, 3);
    assert_eq!(intensity.within_seconds, 5);
}

#[test]
fn test_restart_intensity_const_new() {
    let intensity: RestartIntensity = RestartIntensity::new(10, 20);
    assert_eq!(intensity.max_restarts, 10);
    assert_eq!(intensity.within_seconds, 20);
}

#[test]
fn test_restart_intensity_zero_restarts() {
    let intensity = RestartIntensity::new(0, 5);
    assert_eq!(intensity.max_restarts, 0);
}

#[test]
fn test_restart_intensity_zero_seconds() {
    let intensity = RestartIntensity::new(5, 0);
    assert_eq!(intensity.within_seconds, 0);
}

#[test]
fn test_restart_intensity_large_values() {
    let intensity = RestartIntensity::new(1000, 3600);
    assert_eq!(intensity.max_restarts, 1000);
    assert_eq!(intensity.within_seconds, 3600);
}

#[test]
fn test_restart_intensity_new() {
    let intensity = RestartIntensity::new(5, 10);
    assert_eq!(intensity.max_restarts, 5);
    assert_eq!(intensity.within_seconds, 10);
}

#[test]
fn test_restart_intensity_clone() {
    let intensity = RestartIntensity::new(3, 7);
    let cloned = intensity.clone();
    assert_eq!(cloned.max_restarts, 3);
    assert_eq!(cloned.within_seconds, 7);
}

const SECOND: u128 = 1_000_000_000;

#[test]
fn tracker_exceeds_after_max_restarts_in_window() {
    let mut t = RestartTracker::new(RestartIntensity::new(3, 5));
    assert!(!t.record_restart_at(0));
    assert!(!t.record_restart_at(SECOND));
    assert!(!t.record_restart_at(2 * SECOND));
    assert!(t.record_restart_at(3 * SECOND));
}

#[test]
fn tracker_forgets_restarts_outside_window() {
    let mut t = RestartTracker::new(RestartIntensity::new(2, 5));
    assert!(!t.record_restart_at(0));
    assert!(!t.record_restart_at(SECOND));
    // 10 s later both earlier restarts have left the 5 s window.
    assert!(!t.record_restart_at(11 * SECOND));
    assert!(!t.record_restart_at(12 * SECOND));
    assert!(t.record_restart_at(13 * SECOND));
}

#[test]
fn tracker_window_edge_is_inclusive() {
    // A restart exactly `within_seconds` old is still inside the window.
    let mut t = RestartTracker::new(RestartIntensity::new(1, 5));
    assert!(!t.record_restart_at(0));
    assert!(t.record_restart_at(5 * SECOND));
    // One nanosecond later the first restart is stale, the second is not.
    let mut u = RestartTracker::new(RestartIntensity::new(1, 5));
    assert!(!u.record_restart_at(0));
    assert!(!u.record_restart_at(5 * SECOND + 1));
}

#[test]
fn tracker_zero_max_restarts_always_exceeds() {
    let mut t = RestartTracker::new(RestartIntensity::new(0, 5));
    assert!(t.record_restart_at(7));
}

#[test]
fn tracker_reset_forgets_everything() {
    let mut t = RestartTracker::new(RestartIntensity::new(1, 60));
    assert!(!t.record_restart_at(0));
    t.reset();
    assert!(!t.record_restart_at(1));
    assert!(t.record_restart_at(2));
}

#[test]
fn tracker_reading_the_clock_counts_restarts() {
    let mut t = RestartTracker::new(RestartIntensity::new(1, 3600));
    assert!(!t.record_restart());
    assert!(t.record_restart());
    assert_eq!(t.intensity().max_restarts, 1);
}

#[test]
fn tracker_records_an_earlier_reading_at_the_latest_restart() {
    // A reading earlier than the latest restart is recorded at that restart's
    // time: two restarts at 10 s lie in the window and exceed the limit of one.
    let mut t = RestartTracker::new(RestartIntensity::new(1, 5));
    assert!(!t.record_restart_at(0));
    assert!(!t.record_restart_at(10 * SECOND));
    assert!(t.record_restart_at(SECOND));
}
