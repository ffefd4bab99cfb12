use hardclaw::genesis::vesting::{VestingError, VestingSchedule};
use hardclaw::genesis::DAY_MS;
use hardclaw::types::amount::HclawAmount;
use hardclaw::types::Timestamp;


const START: Timestamp = 0;
const END: Timestamp = 30 * DAY_MS;

#[test]
fn test_immediate_unlock_covers_min_stake() {
    // Tier 3: 3000 tokens, min_stake 3000 — everything immediate
    let schedule = VestingSchedule::new(
        HclawAmount::from_hclaw(3_000),
        HclawAmount::from_hclaw(3_000),
        START,
        END,
        0,
    );

    assert_eq!(schedule.immediate_amount.whole_hclaw(), 3_000);
    assert_eq!(schedule.vesting_amount.whole_hclaw(), 0);
    assert_eq!(schedule.vested_amount().whole_hclaw(), 3_000);
}

#[test]
fn test_daily_vesting_with_liveness() {
    // 100K tokens, 250K min_stake — wait, min_stake > total here.
    // Let's use tier 1: 250K tokens, 250K min_stake — all immediate
    let schedule = VestingSchedule::new(
        HclawAmount::from_hclaw(250_000),
        HclawAmount::from_hclaw(250_000),
        START,
        END,
        0,
    );
    assert_eq!(schedule.vested_amount().whole_hclaw(), 250_000);

    // Hypothetical: 10K tokens, 1K min_stake, joined day 0
    let mut schedule = VestingSchedule::new(
        HclawAmount::from_hclaw(10_000),
        HclawAmount::from_hclaw(1_000),
        START,
        END,
        0,
    );

    // Immediate: 1000, vesting: 9000 over 30 days = 300/day
    assert_eq!(schedule.immediate_amount.whole_hclaw(), 1_000);
    assert_eq!(schedule.daily_amount.whole_hclaw(), 300);

    // No days active yet — only immediate available
    assert_eq!(schedule.vested_amount().whole_hclaw(), 1_000);

    // Active on days 0 and 1
    schedule.mark_day_active(0);
    schedule.mark_day_active(1);
    // 1000 immediate + 300 * 2 = 1600
    assert_eq!(schedule.vested_amount().whole_hclaw(), 1_600);
}

#[test]
fn test_missed_days_dont_vest() {
    let mut schedule = VestingSchedule::new(
        HclawAmount::from_hclaw(10_000),
        HclawAmount::from_hclaw(1_000),
        START,
        END,
        0,
    );

    // Active every other day for 30 days = 15 active days
    for day in (0..30).step_by(2) {
        schedule.mark_day_active(day);
    }

    // 1000 immediate + 300 * 15 = 5500
    assert_eq!(schedule.vested_amount().whole_hclaw(), 5_500);
    assert!(!schedule.is_fully_vested());

    // Forfeited: 300 * 15 = 4500
    assert_eq!(schedule.forfeited_amount().whole_hclaw(), 4_500);
}

#[test]
fn test_late_joiner_fewer_vesting_days() {
    // Join on day 20 — only 10 days of vesting
    let mut schedule = VestingSchedule::new(
        HclawAmount::from_hclaw(10_000),
        HclawAmount::from_hclaw(1_000),
        START,
        END,
        20,
    );

    // Vesting: 9000 / 10 days = 900 per day
    assert_eq!(schedule.daily_amount.whole_hclaw(), 900);

    // Active all 10 days
    for day in 20..30 {
        schedule.mark_day_active(day);
    }

    // 1000 immediate + 900 * 10 = 10000
    assert_eq!(schedule.vested_amount().whole_hclaw(), 10_000);
    assert!(schedule.is_fully_vested());
}

#[test]
fn test_withdrawal() {
    let mut schedule = VestingSchedule::new(
        HclawAmount::from_hclaw(10_000),
        HclawAmount::from_hclaw(1_000),
        START,
        END,
        0,
    );

    schedule.mark_day_active(0);
    // 1000 + 300 = 1300 available
    assert_eq!(schedule.withdrawable().whole_hclaw(), 1_300);

    schedule.withdraw(HclawAmount::from_hclaw(1_000)).unwrap();
    assert_eq!(schedule.withdrawable().whole_hclaw(), 300);

    // Can't over-withdraw
    assert!(schedule.withdraw(HclawAmount::from_hclaw(500)).is_err());
}

#[test]
fn test_tier7_all_immediate() {
    // Tier 7: 100 tokens, min_stake 100 — everything immediate
    let schedule = VestingSchedule::new(
        HclawAmount::from_hclaw(100),
        HclawAmount::from_hclaw(100),
        START,
        END,
        0,
    );

    assert_eq!(schedule.vesting_amount.whole_hclaw(), 0);
    assert_eq!(schedule.vested_amount().whole_hclaw(), 100);
    assert_eq!(schedule.forfeited_amount().whole_hclaw(), 0);
}

#[test]
fn vesting_edge_cases() {
    // a grant smaller than the minimum stake is immediate in full
    let schedule = VestingSchedule::new(
        HclawAmount::from_raw(10),
        HclawAmount::from_raw(25),
        START,
        END,
        0,
    );
    assert_eq!(schedule.immediate_amount.raw(), 10);
    assert_eq!(schedule.vesting_amount.raw(), 0);
    assert_eq!(schedule.daily_amount.raw(), 0);
    assert!(!schedule.is_fully_vested());

    // joining after the period leaves nothing to vest per day
    let mut late = VestingSchedule::new(
        HclawAmount::from_raw(100),
        HclawAmount::from_raw(10),
        START,
        END,
        30,
    );
    assert_eq!(late.daily_amount.raw(), 0);
    assert!(late.is_fully_vested());
    late.mark_day_active(99);
    assert_eq!(late.active_days_count(), 0);
    assert_eq!(late.vested_amount().raw(), 10);

    // rounding: 100 raw over 30 days is 3 a day, capped at the total
    let mut schedule = VestingSchedule::new(
        HclawAmount::from_raw(110),
        HclawAmount::from_raw(10),
        START,
        END,
        0,
    );
    assert_eq!(schedule.daily_amount.raw(), 3);
    for day in 0..30 {
        schedule.mark_day_active(day);
    }
    assert_eq!(schedule.active_days_count(), 30);
    assert_eq!(schedule.vested_amount().raw(), 100);
    assert_eq!(schedule.forfeited_amount().raw(), 0);

    // days before the join day do not count
    let mut schedule = VestingSchedule::new(
        HclawAmount::from_raw(110),
        HclawAmount::from_raw(10),
        START,
        END,
        10,
    );
    schedule.mark_day_active(3);
    schedule.mark_day_active(10);
    assert_eq!(schedule.active_days_count(), 1);
    assert_eq!(schedule.vested_amount().raw(), 15);
    assert_eq!(schedule.forfeited_amount().raw(), 5 * 19);

    match schedule.withdraw(HclawAmount::from_raw(16)) {
        Err(VestingError::InsufficientVested { available, requested }) => {
            assert_eq!(available.raw(), 15);
            assert_eq!(requested.raw(), 16);
        }
        Ok(()) => panic!("over-withdrawal accepted"),
    }
    assert!(schedule.withdraw(HclawAmount::from_raw(15)).is_ok());
    assert_eq!(schedule.withdrawable().raw(), 0);
}
