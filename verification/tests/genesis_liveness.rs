use hardclaw::crypto::signature::Keypair;
use hardclaw::genesis::liveness::{DailyLiveness, LivenessTracker, MIN_ATTESTATIONS_PER_DAY};
use hardclaw::genesis::DAY_MS;
use hardclaw::types::address::Address;


fn test_addr() -> Address {
    Address::from_public_key(Keypair::generate().public_key())
}

#[test]
fn test_day_calculation() {
    let start = 0i64;
    let tracker = LivenessTracker::new(start);

    assert_eq!(tracker.day_for_timestamp(0), Some(0));
    assert_eq!(tracker.day_for_timestamp(DAY_MS - 1), Some(0));
    assert_eq!(tracker.day_for_timestamp(DAY_MS), Some(1));
    assert_eq!(tracker.day_for_timestamp(29 * DAY_MS), Some(29));
    assert_eq!(tracker.day_for_timestamp(30 * DAY_MS), None); // Past bootstrap
}

#[test]
fn test_attestation_tracking() {
    let start = 0i64;
    let mut tracker = LivenessTracker::new(start);
    let verifier = test_addr();

    // Record 50 attestations on day 0 — not enough
    for _ in 0..50 {
        tracker.record_attestation(&verifier, 1000);
    }
    assert!(!tracker.was_active_on_day(&verifier, 0));

    // Record 50 more — now 100, meets threshold
    for _ in 0..50 {
        tracker.record_attestation(&verifier, 2000);
    }
    assert!(tracker.was_active_on_day(&verifier, 0));
    assert_eq!(tracker.active_days(&verifier), 1);
}

#[test]
fn test_multi_day_liveness() {
    let start = 0i64;
    let mut tracker = LivenessTracker::new(start);
    let verifier = test_addr();

    // Active on days 0, 1, and 5
    for day in [0, 1, 5] {
        let ts = day as i64 * DAY_MS + 1000;
        for _ in 0..MIN_ATTESTATIONS_PER_DAY {
            tracker.record_attestation(&verifier, ts);
        }
    }

    assert_eq!(tracker.active_days(&verifier), 3);
    assert!(tracker.was_active_on_day(&verifier, 0));
    assert!(tracker.was_active_on_day(&verifier, 1));
    assert!(!tracker.was_active_on_day(&verifier, 2));
    assert!(tracker.was_active_on_day(&verifier, 5));

    let days = tracker.active_day_list(&verifier);
    assert_eq!(days, vec![0, 1, 5]);
}

#[test]
fn test_multiple_verifiers_same_day() {
    let start = 0i64;
    let mut tracker = LivenessTracker::new(start);
    let v1 = test_addr();
    let v2 = test_addr();

    // v1 attests 200 times, v2 attests 50 times
    for _ in 0..200 {
        tracker.record_attestation(&v1, 1000);
    }
    for _ in 0..50 {
        tracker.record_attestation(&v2, 1000);
    }

    assert!(tracker.was_active_on_day(&v1, 0));
    assert!(!tracker.was_active_on_day(&v2, 0));
}

#[test]
fn daily_record() {
    let a = Address::from_bytes([1; 20]);
    let b = Address::from_bytes([2; 20]);
    let c = Address::from_bytes([3; 20]);
    let mut day = DailyLiveness::new(2, 1_000);
    assert_eq!(day.day_start, 1_000 + 2 * DAY_MS);
    assert_eq!(day.day_end, 1_000 + 3 * DAY_MS);
    for _ in 0..3 {
        day.record_attestation(&a);
    }
    day.record_attestation(&b);
    assert!(day.is_active(&a, 3));
    assert!(!day.is_active(&a, 4));
    assert!(!day.is_active(&c, 0));
    assert_eq!(day.active_verifiers(1), vec![a, b]);
    assert_eq!(day.active_verifiers(2), vec![a]);
    assert!(day.active_verifiers(4).is_empty());
}

#[test]
fn timestamps_outside_the_period_are_ignored() {
    let mut tracker = LivenessTracker::new(1_000);
    let v = Address::from_bytes([1; 20]);
    assert_eq!(tracker.day_for_timestamp(999), None);
    assert_eq!(tracker.day_for_timestamp(i64::MAX), None);
    tracker.record_attestation(&v, 999);
    tracker.record_attestation(&v, 1_000 + 30 * DAY_MS);
    assert_eq!(tracker.attestation_count(&v, 0), 0);
    assert_eq!(tracker.current_day(), 0);
    tracker.record_attestation(&v, 1_000 + 4 * DAY_MS);
    tracker.record_attestation(&v, 1_000 + 2 * DAY_MS);
    assert_eq!(tracker.current_day(), 4);
    assert_eq!(tracker.attestation_count(&v, 4), 1);
    assert_eq!(tracker.attestation_count(&v, 2), 1);
    assert_eq!(tracker.attestation_count(&v, 3), 0);
    assert_eq!(tracker.attestation_count(&v, 30), 0);
    assert!(!tracker.was_active_on_day(&v, 30));
    assert!(tracker.active_day_list(&v).is_empty());
}
