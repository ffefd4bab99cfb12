use hardclaw::genesis::bounty::{
    calculate_daily_budget, calculate_daily_weight, calculate_hourly_budget, compute_epoch,
    day_from_epoch, distribute_evenly, BountyTracker, BOUNTY_DAYS, BOUNTY_POOL, HOURS_PER_DAY,
    HOUR_MS, MIN_PUBLIC_NODES, TOTAL_EPOCHS, TOTAL_WEIGHT,
};
use hardclaw::types::address::Address;
use hardclaw::types::amount::HclawAmount;


#[test]
fn test_bounty_curve_sums_to_pool() {
    let mut total = 0u128;
    for day in 0..BOUNTY_DAYS {
        total += calculate_daily_budget(day).raw();
    }
    let pool = HclawAmount::from_hclaw(BOUNTY_POOL).raw();
    let diff = if total > pool {
        total - pool
    } else {
        pool - total
    };
    let one_hclaw = HclawAmount::from_hclaw(1).raw();
    assert!(
        diff < one_hclaw,
        "Total should sum to pool, got diff of {diff}"
    );
}

#[test]
fn test_bounty_peaks_at_day_60() {
    let peak_day = 60;
    let peak_amount = calculate_daily_budget(peak_day);

    for day in 0..BOUNTY_DAYS {
        let amount = calculate_daily_budget(day);
        if day != peak_day {
            assert!(
                peak_amount >= amount,
                "Day {peak_day} should be peak, but day {day} was higher"
            );
        }
    }
}

#[test]
fn test_bounty_starts_and_ends_at_zero() {
    assert_eq!(calculate_daily_budget(0).raw(), 0);
    assert!(calculate_daily_budget(89).raw() > 0);
    assert_eq!(calculate_daily_budget(90).raw(), 0);
}

#[test]
fn test_weight_formula() {
    assert_eq!(calculate_daily_weight(0), 0);
    assert_eq!(calculate_daily_weight(10), 8_000);
    assert_eq!(calculate_daily_weight(60), 108_000);
    assert_eq!(calculate_daily_weight(89), 7_921);
    assert_eq!(calculate_daily_weight(90), 0);
}

#[test]
fn test_hourly_budget_sums_to_daily() {
    for day in 1..BOUNTY_DAYS {
        let daily = calculate_daily_budget(day).raw();
        let hourly = calculate_hourly_budget(day).raw();
        let hourly_total = hourly * HOURS_PER_DAY as u128;
        // Integer division dust: at most 23 raw units lost
        let diff = daily - hourly_total;
        assert!(
            diff < HOURS_PER_DAY as u128,
            "Day {day}: daily={daily}, hourly*24={hourly_total}, diff={diff}"
        );
    }
}

#[test]
fn test_hourly_budget_day_zero_is_zero() {
    assert_eq!(calculate_hourly_budget(0).raw(), 0);
}

#[test]
fn test_compute_epoch_boundaries() {
    let start = 1_000_000u64;

    assert_eq!(compute_epoch(start, start), Some(0));
    assert_eq!(compute_epoch(start + HOUR_MS - 1, start), Some(0));
    assert_eq!(compute_epoch(start + HOUR_MS, start), Some(1));
    assert_eq!(compute_epoch(start + 24 * HOUR_MS, start), Some(24)); // day 1 hour 0
    assert_eq!(
        compute_epoch(start + TOTAL_EPOCHS * HOUR_MS - 1, start),
        Some(TOTAL_EPOCHS - 1)
    );
    assert_eq!(compute_epoch(start + TOTAL_EPOCHS * HOUR_MS, start), None); // beyond 90 days
    assert_eq!(compute_epoch(start - 1, start), None); // before start
}

#[test]
fn test_day_from_epoch() {
    assert_eq!(day_from_epoch(0), 0);
    assert_eq!(day_from_epoch(23), 0);
    assert_eq!(day_from_epoch(24), 1);
    assert_eq!(day_from_epoch(48), 2);
    assert_eq!(day_from_epoch(TOTAL_EPOCHS - 1), 89);
}

#[test]
fn test_distribute_evenly_basic() {
    let addrs = vec![
        Address::from_bytes([1; 20]),
        Address::from_bytes([2; 20]),
        Address::from_bytes([3; 20]),
    ];
    let total = HclawAmount::from_hclaw(900);

    let result = distribute_evenly(&addrs, total);
    assert_eq!(result.len(), 3);
    for (_, amt) in &result {
        assert_eq!(amt.whole_hclaw(), 300);
    }
}

#[test]
fn test_distribute_evenly_dust() {
    let addrs = vec![
        Address::from_bytes([1; 20]),
        Address::from_bytes([2; 20]),
        Address::from_bytes([3; 20]),
    ];
    let total = HclawAmount::from_hclaw(1000);

    let result = distribute_evenly(&addrs, total);
    assert_eq!(result.len(), 3);
    // 1000 / 3 = 333 each, 1 HCLAW dust
    for (_, amt) in &result {
        assert_eq!(amt.whole_hclaw(), 333);
    }
    let distributed: u128 = result.iter().map(|(_, a)| a.raw()).sum();
    let dust = total.raw() - distributed;
    assert!(dust > 0, "Should have some dust");
    assert!(dust < HclawAmount::from_hclaw(1).raw());
}

#[test]
fn test_distribute_evenly_empty() {
    let result = distribute_evenly(&[], HclawAmount::from_hclaw(1000));
    assert!(result.is_empty());
}

#[test]
fn test_distribute_evenly_single() {
    let addrs = vec![Address::from_bytes([1; 20])];
    let total = HclawAmount::from_hclaw(500);

    let result = distribute_evenly(&addrs, total);
    assert_eq!(result.len(), 1);
    assert_eq!(result[0].1.whole_hclaw(), 500);
}

#[test]
fn test_distribute_evenly_zero_budget() {
    let addrs = vec![Address::from_bytes([1; 20])];
    let result = distribute_evenly(&addrs, HclawAmount::zero());
    assert!(result.is_empty());
}

#[test]
fn test_bounty_tracker_epoch_sequencing() {
    let mut tracker = BountyTracker::new(0);

    assert!(tracker.is_next_epoch(0));
    assert!(!tracker.is_next_epoch(1));
    assert!(!tracker.is_next_epoch(5));

    tracker.record_distribution(0, HclawAmount::from_hclaw(100));

    assert!(!tracker.is_next_epoch(0));
    assert!(tracker.is_next_epoch(1));
    assert!(!tracker.is_next_epoch(2));

    tracker.record_distribution(1, HclawAmount::from_hclaw(100));
    assert!(tracker.is_next_epoch(2));
}

#[test]
fn test_bounty_tracker_not_active_until_min_nodes() {
    let tracker = BountyTracker::new(0);
    assert!(!tracker.is_active());

    let mut tracker = tracker;
    tracker.update_node_count(MIN_PUBLIC_NODES);
    assert!(tracker.is_active());
}

#[test]
fn test_total_pool_accounted() {
    // Sum all 2160 hourly budgets and verify they account for the pool
    let mut total_hourly = 0u128;
    for epoch in 0..TOTAL_EPOCHS {
        let day = day_from_epoch(epoch);
        total_hourly += calculate_hourly_budget(day).raw();
    }
    let pool = HclawAmount::from_hclaw(BOUNTY_POOL).raw();
    // The difference is integer division dust: up to 23 raw units per day × 90 days
    let diff = pool - total_hourly;
    let max_dust = HOURS_PER_DAY as u128 * BOUNTY_DAYS as u128;
    assert!(
        diff <= max_dust,
        "Pool accounting drift too large: diff={diff}, max_dust={max_dust}"
    );
}

#[test]
fn weights_sum_to_the_total() {
    let mut sum = 0u128;
    for day in 0..=255u8 {
        sum += calculate_daily_weight(day);
    }
    assert_eq!(sum, TOTAL_WEIGHT);
}

#[test]
fn budgets_follow_the_formula() {
    // day 10: 2,000,000 HCLAW * 8000 / 5,466,825
    let pool = 2_000_000u128 * 1_000_000_000_000_000_000;
    assert_eq!(calculate_daily_budget(10).raw(), pool * 8_000 / 5_466_825);
    assert_eq!(calculate_hourly_budget(10).raw(), pool * 8_000 / 5_466_825 / 24);
    assert_eq!(calculate_daily_budget(200).raw(), 0);
}

#[test]
fn tracker_totals() {
    let mut tracker = BountyTracker::new(42);
    assert_eq!(tracker.start_time, 42);
    assert_eq!(tracker.last_distributed_epoch, u64::MAX);
    assert_eq!(tracker.total_remaining(), HclawAmount::from_hclaw(BOUNTY_POOL));
    tracker.record_distribution(0, HclawAmount::from_hclaw(500_000));
    tracker.record_burn(HclawAmount::from_hclaw(250_000));
    assert_eq!(tracker.total_remaining(), HclawAmount::from_hclaw(1_250_000));
    tracker.record_burn(HclawAmount::from_hclaw(2_000_000));
    assert_eq!(tracker.total_remaining(), HclawAmount::zero());
    assert_eq!(tracker.total_paid, HclawAmount::from_hclaw(500_000));
    assert!(!tracker.is_next_epoch(0));
    assert!(tracker.is_next_epoch(1));
}

#[test]
fn day_from_epoch_wraps_beyond_a_byte() {
    assert_eq!(day_from_epoch(24 * 256), 0);
    assert_eq!(day_from_epoch(24 * 257 + 5), 1);
}

#[test]
fn distribution_keeps_the_order_of_recipients() {
    let addrs = vec![Address::from_bytes([9; 20]), Address::from_bytes([3; 20])];
    let result = distribute_evenly(&addrs, HclawAmount::from_raw(7));
    assert_eq!(
        result,
        vec![(addrs[0], HclawAmount::from_raw(3)), (addrs[1], HclawAmount::from_raw(3))]
    );
    // a share that rounds to zero is not handed out
    assert!(distribute_evenly(&addrs, HclawAmount::from_raw(1)).is_empty());
}
