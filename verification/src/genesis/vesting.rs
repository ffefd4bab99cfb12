//! Liveness-gated daily vesting for airdrop tokens.
//!
//! Vesting is not purely time-based. Each verifier must operate a node each
//! day (proven by block attestations) to unlock that day's portion. A day
//! that is missed does not vest; its tokens are burned at bootstrap end.
//!
//! - Immediate unlock: enough to meet the minimum stake
//! - Remaining tokens: divided into daily portions
//! - Each daily portion unlocks only if the verifier was active that day

use vstd::prelude::*;

use super::BOOTSTRAP_DAYS;
use crate::contracts::journal::{sat_add, sat_sub};
use crate::types::amount::HclawAmount;
use crate::types::Timestamp;

verus! {

/// Liveness-gated vesting schedule for a single verifier
#[derive(Debug)]
pub struct VestingSchedule {
    /// Total grant amount
    pub total_amount: HclawAmount,
    /// Amount immediately available (enough to meet the minimum stake)
    pub immediate_amount: HclawAmount,
    /// Amount subject to daily vesting (total - immediate)
    pub vesting_amount: HclawAmount,
    /// Per-day vesting amount
    pub daily_amount: HclawAmount,
    /// Bootstrap start timestamp (for day alignment)
    pub bootstrap_start: Timestamp,
    /// Bootstrap end timestamp
    pub bootstrap_end: Timestamp,
    /// The day this verifier joined (0-indexed from bootstrap start)
    pub join_day: u32,
    /// Which days the verifier was active.
    /// Index = day number (0-29), value = whether they were active.
    pub daily_active: Vec<bool>,
    /// Total amount withdrawn so far
    pub withdrawn: HclawAmount,
}

/// Vesting errors
#[derive(Clone, Copy, Debug, PartialEq, Eq, Structural)]
pub enum VestingError {
    /// Not enough tokens have vested to cover the withdrawal
    InsufficientVested {
        /// Amount currently available
        available: HclawAmount,
        /// Amount requested
        requested: HclawAmount,
    },
}

/// Whether a day is marked active.
pub open spec fn active_on(active: Seq<bool>, day: int) -> bool {
    0 <= day < active.len() && active[day]
}

/// The number of active days among the days `from..to`.
pub open spec fn active_between(active: Seq<bool>, from: int, to: int) -> int
    decreases to - from,
{
    if from >= to {
        0
    } else {
        active_between(active, from, to - 1) + if active_on(active, to - 1) {
            1int
        } else {
            0int
        }
    }
}

/// The number of days among `from..to`: none where `from` is the later.
pub open spec fn days_between(from: int, to: int) -> int {
    if from >= to {
        0
    } else {
        to - from
    }
}

proof fn lemma_active_between_bound(active: Seq<bool>, from: int, to: int)
    ensures
        0 <= active_between(active, from, to) <= days_between(from, to),
    decreases to - from,
{
    if from < to {
        lemma_active_between_bound(active, from, to - 1);
    }
}

proof fn lemma_active_between_step(active: Seq<bool>, from: int, day: int, to: int)
    requires
        from <= day < to,
    ensures
        active_between(active, from, day + 1) == active_between(active, from, day) + if active_on(
            active,
            day,
        ) {
            1int
        } else {
            0int
        },
{
}

/// `a`, capped at the largest 128-bit value.
pub open spec fn capped(a: int) -> u128 {
    if a > u128::MAX {
        u128::MAX
    } else if a < 0 {
        0
    } else {
        a as u128
    }
}

impl VestingSchedule {
    /// The number of active days from the join day on.
    pub open spec fn spec_active_days(&self) -> int {
        active_between(self.daily_active@, self.join_day as int, BOOTSTRAP_DAYS as int)
    }

    /// The number of missed days from the join day on.
    pub open spec fn spec_missed_days(&self) -> int {
        days_between(self.join_day as int, BOOTSTRAP_DAYS as int) - self.spec_active_days()
    }

    /// The vested amount in raw units: the immediate amount plus the daily
    /// amount for each active day, capped at the total.
    pub open spec fn spec_vested(&self) -> u128 {
        let unlocked = capped(self.immediate_amount.0 + self.daily_amount.0 * self.spec_active_days());
        if unlocked <= self.total_amount.0 {
            unlocked
        } else {
            self.total_amount.0
        }
    }

    /// Whether `after` is this schedule with a day marked active and
    /// nothing else changed. A day beyond the schedule changes nothing.
    pub open spec fn marked_as(&self, after: VestingSchedule, day: u32) -> bool {
        &&& after.daily_active@ == if day < self.daily_active@.len() {
            self.daily_active@.update(day as int, true)
        } else {
            self.daily_active@
        }
        &&& after.total_amount == self.total_amount
        &&& after.immediate_amount == self.immediate_amount
        &&& after.vesting_amount == self.vesting_amount
        &&& after.daily_amount == self.daily_amount
        &&& after.bootstrap_start == self.bootstrap_start
        &&& after.bootstrap_end == self.bootstrap_end
        &&& after.join_day == self.join_day
        &&& after.withdrawn == self.withdrawn
    }

    /// The vested amount that the schedule would have with other days
    /// active, in raw units.
    pub open spec fn vested_with(&self, active: Seq<bool>) -> u128 {
        let unlocked = capped(
            self.immediate_amount.0 + self.daily_amount.0 * active_between(
                active,
                self.join_day as int,
                BOOTSTRAP_DAYS as int,
            ),
        );
        if unlocked <= self.total_amount.0 {
            unlocked
        } else {
            self.total_amount.0
        }
    }

    /// What marking a day active unlocks: the growth of the vested amount,
    /// in raw units.
    pub open spec fn unlocked_by(&self, day: u32) -> u128 {
        let marked = if day < self.daily_active@.len() {
            self.daily_active@.update(day as int, true)
        } else {
            self.daily_active@
        };
        if self.vested_with(marked) < self.spec_vested() {
            0
        } else {
            (self.vested_with(marked) - self.spec_vested()) as u128
        }
    }

    /// Create a new liveness-gated vesting schedule.
    ///
    /// `min_stake` tokens, or the whole grant where it is smaller, are
    /// available immediately. The remainder is divided into daily portions,
    /// one per day from the join day to the end of the bootstrap period.
    pub fn new(
        total_amount: HclawAmount,
        min_stake: HclawAmount,
        bootstrap_start: Timestamp,
        bootstrap_end: Timestamp,
        join_day: u32,
    ) -> (r: Self)
        ensures
            r.total_amount == total_amount,
            r.immediate_amount.0 == if min_stake.0 <= total_amount.0 {
                min_stake.0
            } else {
                total_amount.0
            },
            r.vesting_amount.0 == total_amount.0 - r.immediate_amount.0,
            r.daily_amount.0 == if join_day < BOOTSTRAP_DAYS {
                r.vesting_amount.0 as int / (BOOTSTRAP_DAYS - join_day)
            } else {
                0
            },
            r.bootstrap_start == bootstrap_start,
            r.bootstrap_end == bootstrap_end,
            r.join_day == join_day,
            r.daily_active@ == Seq::new(BOOTSTRAP_DAYS as nat, |i: int| false),
            r.withdrawn.0 == 0,
    {
        let immediate = min_stake.min(total_amount);
        let vesting = total_amount.saturating_sub(immediate);
        let days_remaining: u32 = if join_day < BOOTSTRAP_DAYS {
            BOOTSTRAP_DAYS - join_day
        } else {
            0
        };
        let daily = if days_remaining > 0 && vesting.raw() > 0 {
            HclawAmount::from_raw(vesting.raw() / (days_remaining as u128))
        } else {
            HclawAmount::zero()
        };
        let mut daily_active: Vec<bool> = Vec::new();
        let mut i: u32 = 0;
        while i < BOOTSTRAP_DAYS
            invariant
                0 <= i <= BOOTSTRAP_DAYS,
                daily_active@ == Seq::new(i as nat, |j: int| false),
            decreases BOOTSTRAP_DAYS - i,
        {
            daily_active.push(false);
            i += 1;
            assert(daily_active@ =~= Seq::new(i as nat, |j: int| false));
        }
        VestingSchedule {
            total_amount,
            immediate_amount: immediate,
            vesting_amount: vesting,
            daily_amount: daily,
            bootstrap_start,
            bootstrap_end,
            join_day,
            daily_active,
            withdrawn: HclawAmount::zero(),
        }
    }

    fn is_active_on(&self, day: u32) -> (r: bool)
        ensures
            r == active_on(self.daily_active@, day as int),
    {
        if (day as usize) < self.daily_active.len() {
            self.daily_active[day as usize]
        } else {
            false
        }
    }

    /// Mark a day as active. A day beyond the schedule is ignored.
    pub fn mark_day_active(&mut self, day: u32)
        ensures
            final(self).daily_active@ == if day < old(self).daily_active@.len() {
                old(self).daily_active@.update(day as int, true)
            } else {
                old(self).daily_active@
            },
            final(self).total_amount == old(self).total_amount,
            final(self).immediate_amount == old(self).immediate_amount,
            final(self).vesting_amount == old(self).vesting_amount,
            final(self).daily_amount == old(self).daily_amount,
            final(self).bootstrap_start == old(self).bootstrap_start,
            final(self).bootstrap_end == old(self).bootstrap_end,
            final(self).join_day == old(self).join_day,
            final(self).withdrawn == old(self).withdrawn,
            old(self).marked_as(*final(self), day),
            final(self).spec_vested() == old(self).vested_with(final(self).daily_active@),
    {
        if (day as usize) < self.daily_active.len() {
            self.daily_active[day as usize] = true;
        }
    }

    /// Count of active days since joining
    pub fn active_days_count(&self) -> (r: u32)
        ensures
            r == self.spec_active_days(),
    {
        let mut count: u32 = 0;
        let mut day: u32 = self.join_day;
        while day < BOOTSTRAP_DAYS
            invariant
                self.join_day <= day,
                day <= BOOTSTRAP_DAYS || day == self.join_day,
                count == active_between(self.daily_active@, self.join_day as int, day as int),
                count <= BOOTSTRAP_DAYS,
            decreases BOOTSTRAP_DAYS - day,
        {
            proof {
                lemma_active_between_step(
                    self.daily_active@,
                    self.join_day as int,
                    day as int,
                    BOOTSTRAP_DAYS as int,
                );
                lemma_active_between_bound(self.daily_active@, self.join_day as int, day as int + 1);
            }
            if self.is_active_on(day) {
                count += 1;
            }
            day += 1;
        }
        proof {
            if self.join_day >= BOOTSTRAP_DAYS {
                assert(active_between(
                    self.daily_active@,
                    self.join_day as int,
                    BOOTSTRAP_DAYS as int,
                ) == 0);
            }
        }
        count
    }

    /// Calculate total vested amount based on liveness.
    /// Only days where the verifier was active contribute to vesting.
    pub fn vested_amount(&self) -> (r: HclawAmount)
        ensures
            r.0 == self.spec_vested(),
    {
        let mut vested = self.immediate_amount;
        let mut day: u32 = self.join_day;
        while day < BOOTSTRAP_DAYS
            invariant
                self.join_day <= day,
                day <= BOOTSTRAP_DAYS || day == self.join_day,
                vested.0 == capped(
                    self.immediate_amount.0 + self.daily_amount.0 * active_between(
                        self.daily_active@,
                        self.join_day as int,
                        day as int,
                    ),
                ),
            decreases BOOTSTRAP_DAYS - day,
        {
            proof {
                lemma_active_between_step(
                    self.daily_active@,
                    self.join_day as int,
                    day as int,
                    BOOTSTRAP_DAYS as int,
                );
                lemma_active_between_bound(self.daily_active@, self.join_day as int, day as int);
                let n = active_between(self.daily_active@, self.join_day as int, day as int);
                assert(self.daily_amount.0 * (n + 1) == self.daily_amount.0 * n
                    + self.daily_amount.0) by (nonlinear_arith);
                assert(self.daily_amount.0 * n >= 0) by (nonlinear_arith)
                    requires
                        n >= 0,
                ;
            }
            if self.is_active_on(day) {
                vested = vested.saturating_add(self.daily_amount);
            }
            day += 1;
        }
        proof {
            if self.join_day >= BOOTSTRAP_DAYS {
                assert(active_between(
                    self.daily_active@,
                    self.join_day as int,
                    BOOTSTRAP_DAYS as int,
                ) == 0);
                assert(self.daily_amount.0 * 0 == 0);
            }
        }
        vested.min(self.total_amount)
    }

    /// Calculate withdrawable amount (vested minus already withdrawn)
    pub fn withdrawable(&self) -> (r: HclawAmount)
        ensures
            r.0 == sat_sub(self.spec_vested(), self.withdrawn.0),
    {
        self.vested_amount().saturating_sub(self.withdrawn)
    }

    /// Record a withdrawal. A withdrawal beyond the withdrawable amount is
    /// refused and changes nothing.
    pub fn withdraw(&mut self, amount: HclawAmount) -> (r: Result<(), VestingError>)
        ensures
            final(self).total_amount == old(self).total_amount,
            final(self).immediate_amount == old(self).immediate_amount,
            final(self).vesting_amount == old(self).vesting_amount,
            final(self).daily_amount == old(self).daily_amount,
            final(self).bootstrap_start == old(self).bootstrap_start,
            final(self).bootstrap_end == old(self).bootstrap_end,
            final(self).join_day == old(self).join_day,
            final(self).daily_active == old(self).daily_active,
            amount.0 > sat_sub(old(self).spec_vested(), old(self).withdrawn.0) ==> final(self).withdrawn == old(self).withdrawn && r == Err::<(), VestingError>(
                VestingError::InsufficientVested {
                    available: HclawAmount(sat_sub(old(self).spec_vested(), old(self).withdrawn.0)),
                    requested: amount,
                },
            ),
            amount.0 <= sat_sub(old(self).spec_vested(), old(self).withdrawn.0) ==> r.is_ok()
                && final(self).withdrawn.0 == sat_add(old(self).withdrawn.0, amount.0),
    {
        let available = self.withdrawable();
        if amount.0 > available.0 {
            return Err(VestingError::InsufficientVested { available, requested: amount });
        }
        self.withdrawn = self.withdrawn.saturating_add(amount);
        Ok(())
    }

    /// Calculate tokens that will be burned: the daily amount for each day
    /// that the verifier missed, capped at the largest representable amount.
    /// Only meaningful after bootstrap ends.
    pub fn forfeited_amount(&self) -> (r: HclawAmount)
        ensures
            r.0 == capped(self.daily_amount.0 * self.spec_missed_days()),
    {
        let active = self.active_days_count();
        proof {
            lemma_active_between_bound(
                self.daily_active@,
                self.join_day as int,
                BOOTSTRAP_DAYS as int,
            );
            let m = self.spec_missed_days();
            assert(self.daily_amount.0 * m >= 0) by (nonlinear_arith)
                requires
                    m >= 0,
            ;
        }
        let eligible: u32 = if self.join_day < BOOTSTRAP_DAYS {
            BOOTSTRAP_DAYS - self.join_day
        } else {
            0
        };
        let missed_days: u32 = eligible - active;
        self.daily_amount.saturating_mul(missed_days as u128)
    }

    /// Whether the schedule is fully vested (all eligible days were active)
    pub fn is_fully_vested(&self) -> (r: bool)
        ensures
            r == (self.spec_missed_days() == 0),
    {
        let active = self.active_days_count();
        let eligible: u32 = if self.join_day < BOOTSTRAP_DAYS {
            BOOTSTRAP_DAYS - self.join_day
        } else {
            0
        };
        active == eligible
    }
}

impl Clone for VestingSchedule {
    fn clone(&self) -> (r: Self)
        ensures
            r.total_amount == self.total_amount,
            r.immediate_amount == self.immediate_amount,
            r.vesting_amount == self.vesting_amount,
            r.daily_amount == self.daily_amount,
            r.bootstrap_start == self.bootstrap_start,
            r.bootstrap_end == self.bootstrap_end,
            r.join_day == self.join_day,
            r.daily_active@ == self.daily_active@,
            r.withdrawn == self.withdrawn,
    {
        let mut daily_active: Vec<bool> = Vec::new();
        let mut i: usize = 0;
        while i < self.daily_active.len()
            invariant
                0 <= i <= self.daily_active@.len(),
                daily_active@ == self.daily_active@.subrange(0, i as int),
            decreases self.daily_active@.len() - i,
        {
            daily_active.push(self.daily_active[i]);
            assert(daily_active@ =~= self.daily_active@.subrange(0, i as int + 1));
            i += 1;
        }
        assert(daily_active@ =~= self.daily_active@);
        VestingSchedule {
            total_amount: self.total_amount,
            immediate_amount: self.immediate_amount,
            vesting_amount: self.vesting_amount,
            daily_amount: self.daily_amount,
            bootstrap_start: self.bootstrap_start,
            bootstrap_end: self.bootstrap_end,
            join_day: self.join_day,
            daily_active,
            withdrawn: self.withdrawn,
        }
    }
}

} // verus!
