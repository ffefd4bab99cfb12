//! Genesis bounty system: a 90-day parabolic payout curve.
//!
//! Every hour, 1/24th of the day's budget is distributed evenly among the
//! eligible staked verifiers who attested to blocks in the prior hour. The
//! daily budget follows the curve day² × (90 - day).

use vstd::prelude::*;

use crate::types::address::Address;
use crate::types::amount::{HclawAmount, RAW_PER_HCLAW};

verus! {

/// Total bounty pool distributed over 90 days, in HCLAW
pub const BOUNTY_POOL: u64 = 2_000_000;

/// Bounty period duration (90 days)
pub const BOUNTY_DAYS: u8 = 90;

/// Minimum active nodes before bounties are paid
pub const MIN_PUBLIC_NODES: u32 = 5;

/// Sum of all weights: Σ day² × (90 - day) for day in 0..90
pub const TOTAL_WEIGHT: u128 = 5_466_825;

/// One hour in milliseconds
pub const HOUR_MS: u64 = 3_600_000;

/// Number of hours per day
pub const HOURS_PER_DAY: u64 = 24;

/// Total epochs in the bounty period (90 days × 24 hours)
pub const TOTAL_EPOCHS: u64 = 2160;

/// The weight of a day: day² × (90 - day) within the period, zero after it.
pub open spec fn daily_weight(day: int) -> int {
    if day >= BOUNTY_DAYS {
        0
    } else {
        day * day * (BOUNTY_DAYS - day)
    }
}

/// The budget of a day in raw units: the pool times the day's share of the
/// total weight, rounded down.
pub open spec fn daily_budget(day: int) -> int {
    (BOUNTY_POOL * RAW_PER_HCLAW) * daily_weight(day) / (TOTAL_WEIGHT as int)
}

/// The budget of one hour of a day in raw units.
pub open spec fn hourly_budget(day: int) -> int {
    daily_budget(day) / (HOURS_PER_DAY as int)
}

/// The epoch (hour index since start) of a timestamp, if it lies within the
/// bounty period.
pub open spec fn epoch_of(timestamp: u64, start_time: u64) -> Option<u64> {
    if timestamp < start_time {
        None
    } else if (timestamp - start_time) / (HOUR_MS as int) >= TOTAL_EPOCHS {
        None
    } else {
        Some(((timestamp - start_time) / (HOUR_MS as int)) as u64)
    }
}

/// The share of each recipient when `total` is spread evenly over `count`
/// recipients, rounded down.
pub open spec fn even_share(total: u128, count: nat) -> int {
    if count == 0 {
        0
    } else {
        total as int / count as int
    }
}

/// What an even distribution hands out: nothing where there are no
/// recipients or the share rounds to zero, and else the share to each
/// recipient, in their order.
pub open spec fn even_distribution(recipients: Seq<Address>, total: u128) -> Seq<
    (Address, HclawAmount),
> {
    if even_share(total, recipients.len()) == 0 {
        Seq::empty()
    } else {
        Seq::new(
            recipients.len(),
            |i: int| (recipients[i], HclawAmount(even_share(total, recipients.len()) as u128)),
        )
    }
}

proof fn lemma_weight_bound(day: int)
    requires
        0 <= day < 90,
    ensures
        0 <= day * day * (90 - day) <= 89 * 89 * 90,
{
    assert(0 <= day * day <= 89 * 89) by (nonlinear_arith)
        requires
            0 <= day <= 89,
    ;
    assert(0 <= day * day * (90 - day) <= 89 * 89 * 90) by (nonlinear_arith)
        requires
            0 <= day * day <= 89 * 89,
            0 < 90 - day <= 90,
    ;
}

/// Parabolic weight function: w(day) = day² × (90 - day)
///
/// - Starts at 0 (day 0)
/// - Peaks at day 60 (two-thirds through)
/// - Returns to 0 at day 90
pub fn calculate_daily_weight(day: u8) -> (w: u128)
    ensures
        w == daily_weight(day as int),
        w <= 89 * 89 * 90,
{
    if day >= BOUNTY_DAYS {
        return 0;
    }
    let d: u128 = day as u128;
    let remaining: u128 = (BOUNTY_DAYS - day) as u128;
    proof {
        lemma_weight_bound(day as int);
    }
    assert(d * d <= 89 * 89) by (nonlinear_arith)
        requires
            d <= 89,
    ;
    d * d * remaining
}

/// Calculate the daily budget for a given day
pub fn calculate_daily_budget(day: u8) -> (r: HclawAmount)
    ensures
        r.0 == daily_budget(day as int),
{
    let weight = calculate_daily_weight(day);
    let pool_raw = HclawAmount::from_hclaw(BOUNTY_POOL).raw();
    assert(pool_raw * weight <= 2_000_000 * 1_000_000_000_000_000_000 * (89 * 89 * 90))
        by (nonlinear_arith)
        requires
            pool_raw == 2_000_000 * 1_000_000_000_000_000_000,
            weight <= 89 * 89 * 90,
    ;
    let daily_raw: u128 = pool_raw * weight / TOTAL_WEIGHT;
    HclawAmount::from_raw(daily_raw)
}

/// Calculate the hourly budget for a given day (1/24th of daily budget).
/// Integer division leaves up to 23 raw units of dust per day.
pub fn calculate_hourly_budget(day: u8) -> (r: HclawAmount)
    ensures
        r.0 == hourly_budget(day as int),
{
    let daily = calculate_daily_budget(day);
    HclawAmount::from_raw(daily.raw() / (HOURS_PER_DAY as u128))
}

/// Compute the bounty epoch (hour index since start) from a timestamp.
/// Returns `None` if the timestamp is before start or beyond the 90-day
/// period.
pub fn compute_epoch(timestamp: u64, start_time: u64) -> (r: Option<u64>)
    ensures
        r == epoch_of(timestamp, start_time),
{
    if timestamp < start_time {
        return None;
    }
    let elapsed_ms: u64 = timestamp - start_time;
    let epoch: u64 = elapsed_ms / HOUR_MS;
    if epoch >= TOTAL_EPOCHS {
        None
    } else {
        Some(epoch)
    }
}

/// Get the day number (0-89) for a given epoch. Beyond the range of a byte
/// the day number wraps.
pub fn day_from_epoch(epoch: u64) -> (day: u8)
    ensures
        day == (epoch / HOURS_PER_DAY) % 256,
        epoch < TOTAL_EPOCHS ==> day == epoch / HOURS_PER_DAY && day < BOUNTY_DAYS,
{
    ((epoch / HOURS_PER_DAY) % 256) as u8
}

/// Distribute an amount evenly among recipients.
/// Any remainder (dust) is not distributed.
pub fn distribute_evenly(recipients: &[Address], total: HclawAmount) -> (r: Vec<
    (Address, HclawAmount),
>)
    ensures
        r@ == even_distribution(recipients@, total.0),
{
    if recipients.len() == 0 {
        assert(even_distribution(recipients@, total.0) =~= Seq::empty());
        return Vec::new();
    }
    let per_recipient = HclawAmount::from_raw(total.raw() / (recipients.len() as u128));
    if per_recipient.raw() == 0 {
        return Vec::new();
    }
    let mut out: Vec<(Address, HclawAmount)> = Vec::new();
    let mut i: usize = 0;
    while i < recipients.len()
        invariant
            0 <= i <= recipients@.len(),
            per_recipient.0 == even_share(total.0, recipients@.len()),
            per_recipient.0 != 0,
            out@ == even_distribution(recipients@, total.0).subrange(0, i as int),
        decreases recipients@.len() - i,
    {
        out.push((recipients[i], per_recipient));
        assert(out@ =~= even_distribution(recipients@, total.0).subrange(0, i as int + 1));
        i += 1;
    }
    assert(out@ =~= even_distribution(recipients@, total.0));
    out
}

/// Tracks bounty distributions over the 90-day period.
///
/// Epochs are distributed sequentially (0, 1, 2, ..., 2159). Each epoch is
/// one hour; epoch N can only be distributed once N-1 has been.
#[derive(Clone, Copy, Debug, PartialEq, Eq, Structural)]
pub struct BountyTracker {
    /// Last distributed epoch (hour index since start).
    /// `u64::MAX` means no distribution has occurred yet.
    pub last_distributed_epoch: u64,
    /// Total amount paid out across all epochs
    pub total_paid: HclawAmount,
    /// Total amount burned (skipped hours, dust, inactivity)
    pub total_burned: HclawAmount,
    /// Bounty period start timestamp (milliseconds)
    pub start_time: u64,
    /// Number of public (non-bootstrap) nodes
    pub public_node_count: u32,
}

impl BountyTracker {
    /// The epoch that is due next.
    pub open spec fn next_epoch(&self) -> int {
        if self.last_distributed_epoch == u64::MAX {
            0
        } else {
            self.last_distributed_epoch + 1
        }
    }

    /// Create a new bounty tracker
    pub fn new(start_time: u64) -> (r: Self)
        ensures
            r == (BountyTracker {
                last_distributed_epoch: u64::MAX,
                total_paid: HclawAmount(0),
                total_burned: HclawAmount(0),
                start_time,
                public_node_count: 0,
            }),
    {
        BountyTracker {
            last_distributed_epoch: u64::MAX,
            total_paid: HclawAmount::zero(),
            total_burned: HclawAmount::zero(),
            start_time,
            public_node_count: 0,
        }
    }

    /// Check if the given epoch is the next one to distribute.
    pub fn is_next_epoch(&self, epoch: u64) -> (r: bool)
        ensures
            r == (epoch == self.next_epoch()),
    {
        if self.last_distributed_epoch == u64::MAX {
            epoch == 0
        } else {
            epoch == self.last_distributed_epoch + 1
        }
    }

    /// Check if bounties are active (enough public nodes)
    pub fn is_active(&self) -> (r: bool)
        ensures
            r == (self.public_node_count >= MIN_PUBLIC_NODES),
    {
        self.public_node_count >= MIN_PUBLIC_NODES
    }

    /// Record a distribution for an epoch
    pub fn record_distribution(&mut self, epoch: u64, amount: HclawAmount)
        ensures
            *final(self) == (BountyTracker {
                last_distributed_epoch: epoch,
                total_paid: HclawAmount(
                    crate::contracts::journal::sat_add(old(self).total_paid.0, amount.0),
                ),
                ..*old(self)
            }),
    {
        self.last_distributed_epoch = epoch;
        self.total_paid = self.total_paid.saturating_add(amount);
    }

    /// Record burned bounty (skipped hours, dust, inactivity)
    pub fn record_burn(&mut self, amount: HclawAmount)
        ensures
            *final(self) == (BountyTracker {
                total_burned: HclawAmount(
                    crate::contracts::journal::sat_add(old(self).total_burned.0, amount.0),
                ),
                ..*old(self)
            }),
    {
        self.total_burned = self.total_burned.saturating_add(amount);
    }

    /// Update public node count
    pub fn update_node_count(&mut self, count: u32)
        ensures
            *final(self) == (BountyTracker { public_node_count: count, ..*old(self) }),
    {
        self.public_node_count = count;
    }

    /// Get total remaining (unpaid, unburned) bounty
    pub fn total_remaining(&self) -> (r: HclawAmount)
        ensures
            r.0 == crate::contracts::journal::sat_sub(
                crate::contracts::journal::sat_sub(
                    (BOUNTY_POOL * RAW_PER_HCLAW) as u128,
                    self.total_paid.0,
                ),
                self.total_burned.0,
            ),
    {
        let pool = HclawAmount::from_hclaw(BOUNTY_POOL);
        pool.saturating_sub(self.total_paid).saturating_sub(self.total_burned)
    }
}

} // verus!
