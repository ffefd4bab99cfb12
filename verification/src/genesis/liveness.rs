//! On-chain liveness tracking for vesting qualification.
//!
//! Vesting is gated on daily liveness: a verifier must operate a node each
//! day to unlock that day's vesting portion. Liveness is proven by block
//! attestations, which this module aggregates into daily records.
//!
//! A verifier is active on a day if they signed at least
//! `MIN_ATTESTATIONS_PER_DAY` block attestations in that day's window.

use vstd::prelude::*;

use super::{BOOTSTRAP_DAYS, DAY_MS};
use crate::types::address::Address;
use crate::types::address_map::AddressMap;
use crate::types::Timestamp;

verus! {

/// Minimum attestations per day to count as active.
pub const MIN_ATTESTATIONS_PER_DAY: u32 = 100;

/// Liveness record for a single day
pub struct DailyLiveness {
    /// Day number (0-indexed from bootstrap start)
    pub day: u32,
    /// Day start timestamp
    pub day_start: Timestamp,
    /// Day end timestamp
    pub day_end: Timestamp,
    /// Attestation count per verifier address for this day
    pub attestations: AddressMap<u32>,
}

/// The number of attestations that a record holds for a verifier.
pub open spec fn count_in(attestations: Map<Address, u32>, verifier: Address) -> u32 {
    if attestations.dom().contains(verifier) {
        attestations[verifier]
    } else {
        0
    }
}

/// The count after one more attestation; it stops at the largest value.
pub open spec fn one_more(count: u32) -> u32 {
    if count == u32::MAX {
        count
    } else {
        (count + 1) as u32
    }
}

impl DailyLiveness {
    /// Create a new daily record
    pub fn new(day: u32, bootstrap_start: Timestamp) -> (r: Self)
        requires
            bootstrap_start + (day + 1) * DAY_MS <= i64::MAX,
        ensures
            r.day == day,
            r.day_start == bootstrap_start + day * DAY_MS,
            r.day_end == r.day_start + DAY_MS,
            r.attestations@ == Map::<Address, u32>::empty(),
    {
        assert(day * DAY_MS + DAY_MS == (day + 1) * DAY_MS) by (nonlinear_arith);
        assert(0 <= day * DAY_MS <= 0xffff_ffff * DAY_MS) by (nonlinear_arith)
            requires
                0 <= day <= 0xffff_ffff,
                DAY_MS > 0,
        ;
        let offset: i64 = (day as i64) * DAY_MS;
        let day_start: i64 = bootstrap_start + offset;
        DailyLiveness { day, day_start, day_end: day_start + DAY_MS, attestations: AddressMap::new() }
    }

    /// Record an attestation for a verifier
    pub fn record_attestation(&mut self, verifier: &Address)
        ensures
            final(self).day == old(self).day,
            final(self).day_start == old(self).day_start,
            final(self).day_end == old(self).day_end,
            final(self).attestations@ == old(self).attestations@.insert(
                *verifier,
                one_more(count_in(old(self).attestations@, *verifier)),
            ),
    {
        let count: u32 = match self.attestations.get(verifier) {
            Some(c) => *c,
            None => 0,
        };
        let next: u32 = if count == u32::MAX {
            count
        } else {
            count + 1
        };
        self.attestations.insert(*verifier, next);
    }

    /// Check if a verifier met the liveness threshold for this day
    pub fn is_active(&self, verifier: &Address, min_attestations: u32) -> (r: bool)
        ensures
            r == (self.attestations@.dom().contains(*verifier) && self.attestations@[*verifier]
                >= min_attestations),
    {
        match self.attestations.get(verifier) {
            Some(count) => *count >= min_attestations,
            None => false,
        }
    }

    /// Get all verifiers who met liveness for this day, each once.
    pub fn active_verifiers(&self, min_attestations: u32) -> (r: Vec<Address>)
        ensures
            r@.no_duplicates(),
            forall|a: Address|
                r@.contains(a) <==> (self.attestations@.dom().contains(a)
                    && self.attestations@[a] >= min_attestations),
    {
        let n = self.attestations.len();
        let mut out: Vec<Address> = Vec::new();
        let mut i: usize = 0;
        while i < n
            invariant
                n == self.attestations.order().len(),
                self.attestations.order().no_duplicates(),
                self.attestations.order().to_set() == self.attestations@.dom(),
                0 <= i <= n,
                out@.no_duplicates(),
                forall|a: Address|
                    out@.contains(a) <==> (exists|j: int|
                        0 <= j < i && self.attestations.order()[j] == a
                            && self.attestations@[a] >= min_attestations),
            decreases n - i,
        {
            let key = self.attestations.key_at(i);
            let ghost before = out@;
            if *self.attestations.value_at(i) >= min_attestations {
                proof {
                    if before.contains(key) {
                        let j = choose|j: int|
                            0 <= j < i && self.attestations.order()[j] == key
                                && self.attestations@[key] >= min_attestations;
                        assert(self.attestations.order()[j] == self.attestations.order()[i as int]);
                    }
                }
                out.push(key);
                proof {
                    assert forall|a: Address|
                        out@.contains(a) <==> (exists|j: int|
                            0 <= j < i + 1 && self.attestations.order()[j] == a
                                && self.attestations@[a] >= min_attestations) by {
                        if out@.contains(a) {
                            let k = choose|k: int| 0 <= k < out@.len() && out@[k] == a;
                            if k < before.len() {
                                assert(before.contains(a));
                            } else {
                                assert(self.attestations.order()[i as int] == a);
                            }
                        }
                        if exists|j: int|
                            0 <= j < i + 1 && self.attestations.order()[j] == a
                                && self.attestations@[a] >= min_attestations {
                            let j = choose|j: int|
                                0 <= j < i + 1 && self.attestations.order()[j] == a
                                    && self.attestations@[a] >= min_attestations;
                            if j < i {
                                assert(before.contains(a));
                                let k = choose|k: int| 0 <= k < before.len() && before[k] == a;
                                assert(out@[k] == a);
                            } else {
                                assert(out@[before.len() as int] == a);
                            }
                        }
                    }
                }
            }
            i += 1;
        }
        proof {
            assert forall|a: Address|
                out@.contains(a) <==> (self.attestations@.dom().contains(a)
                    && self.attestations@[a] >= min_attestations) by {
                if self.attestations@.dom().contains(a) && self.attestations@[a]
                    >= min_attestations {
                    assert(self.attestations.order().to_set().contains(a));
                    assert(self.attestations.order().contains(a));
                    let j = choose|j: int|
                        0 <= j < self.attestations.order().len() && self.attestations.order()[j]
                            == a;
                    assert(0 <= j < i && self.attestations.order()[j] == a);
                }
                if out@.contains(a) {
                    let j = choose|j: int|
                        0 <= j < i && self.attestations.order()[j] == a && self.attestations@[a]
                            >= min_attestations;
                    assert(self.attestations.order().contains(a));
                    assert(self.attestations.order().to_set().contains(a));
                }
            }
        }
        out
    }
}

/// The day (0-indexed) in which a timestamp falls, if it lies within the
/// bootstrap period.
pub open spec fn day_of(bootstrap_start: Timestamp, timestamp: Timestamp) -> Option<u32> {
    if timestamp < bootstrap_start {
        None
    } else if (timestamp - bootstrap_start) / (DAY_MS as int) >= BOOTSTRAP_DAYS {
        None
    } else {
        Some(((timestamp - bootstrap_start) / (DAY_MS as int)) as u32)
    }
}

/// Tracks liveness across the full bootstrap period (30 days)
pub struct LivenessTracker {
    /// Bootstrap start timestamp (for computing day boundaries)
    bootstrap_start: Timestamp,
    /// Daily records (index = day number)
    days: Vec<DailyLiveness>,
    /// Minimum attestations per day to count as active
    min_attestations: u32,
    /// Current day index (which day are we in)
    current_day: u32,
}

/// What a tracker holds, as plain values.
pub struct LivenessView {
    /// Bootstrap start timestamp
    pub bootstrap_start: Timestamp,
    /// Attestation counts, one map per day
    pub days: Seq<Map<Address, u32>>,
    /// The latest day on which an attestation was recorded
    pub current_day: u32,
}

impl LivenessView {
    /// The tracker after an attestation by a verifier at a timestamp: the
    /// verifier's count for the day in which the timestamp falls goes up by
    /// one, and the latest day moves on to that day where it is later. A
    /// timestamp outside the bootstrap period, or in a day that the
    /// tracker does not keep, changes nothing.
    pub open spec fn after_attestation(self, verifier: Address, timestamp: Timestamp) -> LivenessView {
        match day_of(self.bootstrap_start, timestamp) {
            Some(day) => if day < self.days.len() {
                LivenessView {
                    bootstrap_start: self.bootstrap_start,
                    days: self.days.update(
                        day as int,
                        self.days[day as int].insert(
                            verifier,
                            one_more(count_in(self.days[day as int], verifier)),
                        ),
                    ),
                    current_day: if day > self.current_day {
                        day
                    } else {
                        self.current_day
                    },
                }
            } else {
                self
            },
            None => self,
        }
    }

    /// Whether a verifier met the threshold on a day.
    pub open spec fn active(self, verifier: Address, day: int) -> bool {
        0 <= day < self.days.len() && count_in(self.days[day], verifier)
            >= MIN_ATTESTATIONS_PER_DAY
    }

    /// The number of days before `upto` on which a verifier met the
    /// threshold.
    pub open spec fn active_days_before(self, verifier: Address, upto: int) -> int
        decreases upto,
    {
        if upto <= 0 {
            0
        } else {
            self.active_days_before(verifier, upto - 1) + if self.active(verifier, upto - 1) {
                1int
            } else {
                0int
            }
        }
    }

    /// The days before `upto` on which a verifier met the threshold, in
    /// ascending order.
    pub open spec fn active_list_before(self, verifier: Address, upto: int) -> Seq<u32>
        decreases upto,
    {
        if upto <= 0 {
            Seq::empty()
        } else if self.active(verifier, upto - 1) {
            self.active_list_before(verifier, upto - 1).push((upto - 1) as u32)
        } else {
            self.active_list_before(verifier, upto - 1)
        }
    }
}

spec fn day_maps(days: Seq<DailyLiveness>) -> Seq<Map<Address, u32>> {
    days.map_values(|d: DailyLiveness| d.attestations@)
}

impl View for LivenessTracker {
    type V = LivenessView;

    closed spec fn view(&self) -> LivenessView {
        LivenessView {
            bootstrap_start: self.bootstrap_start,
            days: day_maps(self.days@),
            current_day: self.current_day,
        }
    }
}

impl LivenessTracker {
    #[verifier::type_invariant]
    spec fn well_formed(self) -> bool {
        &&& self.days@.len() <= BOOTSTRAP_DAYS
        &&& self.min_attestations == MIN_ATTESTATIONS_PER_DAY
        &&& forall|i: int| 0 <= i < self.days@.len() ==> (#[trigger] self.days@[i]).day == i
    }

    /// Create a new tracker
    pub fn new(bootstrap_start: Timestamp) -> (r: Self)
        requires
            bootstrap_start + BOOTSTRAP_DAYS * DAY_MS <= i64::MAX,
        ensures
            r@.bootstrap_start == bootstrap_start,
            r@.days == Seq::new(BOOTSTRAP_DAYS as nat, |i: int| Map::<Address, u32>::empty()),
            r@.current_day == 0,
    {
        let mut days: Vec<DailyLiveness> = Vec::new();
        let mut day: u32 = 0;
        while day < BOOTSTRAP_DAYS
            invariant
                0 <= day <= BOOTSTRAP_DAYS,
                bootstrap_start + BOOTSTRAP_DAYS * DAY_MS <= i64::MAX,
                days@.len() == day,
                forall|i: int| 0 <= i < days@.len() ==> (#[trigger] days@[i]).day == i,
                day_maps(days@) == Seq::new(day as nat, |i: int| Map::<Address, u32>::empty()),
            decreases BOOTSTRAP_DAYS - day,
        {
            assert((day + 1) * DAY_MS <= BOOTSTRAP_DAYS * DAY_MS) by (nonlinear_arith)
                requires
                    day + 1 <= BOOTSTRAP_DAYS,
                    DAY_MS > 0,
            ;
            let record = DailyLiveness::new(day, bootstrap_start);
            let ghost before = days@;
            days.push(record);
            day += 1;
            assert(day_maps(days@) =~= day_maps(before).push(record.attestations@));
            assert(day_maps(days@) =~= Seq::new(
                day as nat,
                |i: int| Map::<Address, u32>::empty(),
            ));
        }
        LivenessTracker {
            bootstrap_start,
            days,
            min_attestations: MIN_ATTESTATIONS_PER_DAY,
            current_day: 0,
        }
    }

    /// Record an attestation at a given timestamp, in the day in which the
    /// timestamp falls. A timestamp outside the bootstrap period is ignored.
    pub fn record_attestation(&mut self, verifier: &Address, block_timestamp: Timestamp)
        ensures
            final(self)@ == old(self)@.after_attestation(*verifier, block_timestamp),
    {
        proof {
            use_type_invariant(&*self);
        }
        match self.day_for_timestamp(block_timestamp) {
            None => {},
            Some(day) => {
                if (day as usize) < self.days.len() {
                    let mut days: Vec<DailyLiveness> = Vec::new();
                    std::mem::swap(&mut self.days, &mut days);
                    let ghost before = days@;
                    let mut record = DailyLiveness {
                        day,
                        day_start: days[day as usize].day_start,
                        day_end: days[day as usize].day_end,
                        attestations: AddressMap::new(),
                    };
                    std::mem::swap(&mut days[day as usize], &mut record);
                    record.record_attestation(verifier);
                    std::mem::swap(&mut days[day as usize], &mut record);
                    assert(day_maps(days@) =~= day_maps(before).update(
                        day as int,
                        before[day as int].attestations@.insert(
                            *verifier,
                            one_more(count_in(before[day as int].attestations@, *verifier)),
                        ),
                    ));
                    self.days = days;
                    if day > self.current_day {
                        self.current_day = day;
                    }
                }
            },
        }
    }

    /// Get the day number (0-indexed) for a timestamp
    pub fn day_for_timestamp(&self, timestamp: Timestamp) -> (r: Option<u32>)
        ensures
            r == day_of(self@.bootstrap_start, timestamp),
    {
        if timestamp < self.bootstrap_start {
            return None;
        }
        let elapsed: i128 = (timestamp as i128) - (self.bootstrap_start as i128);
        let day: i128 = elapsed / (DAY_MS as i128);
        if day >= BOOTSTRAP_DAYS as i128 {
            None
        } else {
            Some(day as u32)
        }
    }

    /// Count how many days a verifier has been active (met liveness threshold)
    pub fn active_days(&self, verifier: &Address) -> (r: u32)
        ensures
            r == self@.active_days_before(*verifier, self@.days.len() as int),
    {
        proof {
            use_type_invariant(self);
        }
        let mut count: u32 = 0;
        let mut i: usize = 0;
        while i < self.days.len()
            invariant
                self.days@.len() <= BOOTSTRAP_DAYS,
                self.min_attestations == MIN_ATTESTATIONS_PER_DAY,
                0 <= i <= self.days@.len(),
                count <= i,
                count == self@.active_days_before(*verifier, i as int),
            decreases self.days@.len() - i,
        {
            if self.days[i].is_active(verifier, self.min_attestations) {
                count += 1;
            }
            i += 1;
        }
        count
    }

    /// Check if a verifier was active on a specific day
    pub fn was_active_on_day(&self, verifier: &Address, day: u32) -> (r: bool)
        ensures
            r == self@.active(*verifier, day as int),
    {
        proof {
            use_type_invariant(self);
        }
        if (day as usize) < self.days.len() {
            self.days[day as usize].is_active(verifier, self.min_attestations)
        } else {
            false
        }
    }

    /// Get the list of days a verifier was active (for vesting calculation)
    pub fn active_day_list(&self, verifier: &Address) -> (r: Vec<u32>)
        ensures
            r@ == self@.active_list_before(*verifier, self@.days.len() as int),
    {
        proof {
            use_type_invariant(self);
        }
        let mut out: Vec<u32> = Vec::new();
        let mut i: usize = 0;
        while i < self.days.len()
            invariant
                self.days@.len() <= BOOTSTRAP_DAYS,
                self.min_attestations == MIN_ATTESTATIONS_PER_DAY,
                forall|j: int| 0 <= j < self.days@.len() ==> (#[trigger] self.days@[j]).day == j,
                0 <= i <= self.days@.len(),
                out@ == self@.active_list_before(*verifier, i as int),
            decreases self.days@.len() - i,
        {
            if self.days[i].is_active(verifier, self.min_attestations) {
                out.push(self.days[i].day);
            }
            i += 1;
        }
        out
    }

    /// Get the current day number
    pub fn current_day(&self) -> (r: u32)
        ensures
            r == self@.current_day,
    {
        self.current_day
    }

    /// Get attestation count for a verifier on a specific day
    pub fn attestation_count(&self, verifier: &Address, day: u32) -> (r: u32)
        ensures
            r == if day < self@.days.len() {
                count_in(self@.days[day as int], *verifier)
            } else {
                0
            },
    {
        if (day as usize) < self.days.len() {
            match self.days[day as usize].attestations.get(verifier) {
                Some(c) => *c,
                None => 0,
            }
        } else {
            0
        }
    }
}

} // verus!
