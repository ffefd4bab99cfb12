//! Bootstrap state machine: orchestrates the 30-day genesis period.
//!
//! Ties together the airdrop tracker, liveness tracker, vesting schedules,
//! competency challenges, and DNS break-glass into a single state machine
//! that processes events block by block.

use vstd::prelude::*;
use vstd::string::*;

use super::airdrop::{flat_config, AirdropClaim, AirdropTracker};
use super::competency::CompetencyManager;
use super::liveness::LivenessTracker;
use super::vesting::{capped, VestingSchedule};
use super::{DnsBootstrapClaim, GenesisConfig, GenesisError, BOOTSTRAP_DAYS, DAY_MS};
use crate::contracts::journal::{sat_add, sat_sub};
use crate::encoding::{ends_with, ends_with_spec, text_bytes};
use crate::types::address::Address;
use crate::types::address_map::AddressMap;
use crate::types::amount::HclawAmount;
use crate::types::job::SystemJobKind;
use crate::types::Timestamp;

verus! {

/// Current phase of the bootstrap period
#[derive(Clone, Copy, Debug, PartialEq, Eq, Structural)]
pub enum BootstrapPhase {
    /// Bootstrap is active (within 30 days of genesis)
    Active,
    /// Bootstrap completed
    Completed {
        /// When bootstrap ended
        completed_at: Timestamp,
    },
}

/// The bootstrap state machine
pub struct BootstrapState {
    /// Genesis config (frozen at creation)
    pub config: GenesisConfig,
    /// Airdrop tracker
    pub airdrop: AirdropTracker,
    /// Liveness tracker
    pub liveness: LivenessTracker,
    /// Vesting schedules by address
    pub vesting_schedules: AddressMap<VestingSchedule>,
    /// Competency manager
    pub competency: CompetencyManager,
    /// DNS break-glass claims
    pub dns_claims: Vec<DnsBootstrapClaim>,
    /// Current phase
    pub phase: BootstrapPhase,
    /// Last day that was processed for vesting updates
    pub last_processed_day: Option<u32>,
}

/// Whether some claim in a list was made by an address.
pub open spec fn claimed_by(claims: Seq<DnsBootstrapClaim>, address: Address) -> bool {
    exists|i: int| 0 <= i < claims.len() && (#[trigger] claims[i]).address == address
}

/// Whether a day has been processed already.
pub open spec fn already_processed(last: Option<u32>, day: u32) -> bool {
    last matches Some(l) && day <= l
}

/// The unlock jobs that a day gives for the first `upto` of some verifiers,
/// in their order: one for each verifier with a schedule who was active on
/// the day and whose vested amount grows by the day, with the growth.
pub open spec fn unlocks_among(
    schedules: Map<Address, VestingSchedule>,
    liveness: super::liveness::LivenessView,
    order: Seq<Address>,
    day: u32,
    upto: int,
) -> Seq<SystemJobKind>
    decreases upto,
{
    if upto <= 0 {
        Seq::empty()
    } else {
        let before = unlocks_among(schedules, liveness, order, day, upto - 1);
        let verifier = order[upto - 1];
        if schedules.dom().contains(verifier) && liveness.active(verifier, day as int)
            && schedules[verifier].unlocked_by(day) > 0 {
            before.push(
                SystemJobKind::VestingUnlock {
                    beneficiary: verifier,
                    amount: HclawAmount(schedules[verifier].unlocked_by(day)),
                },
            )
        } else {
            before
        }
    }
}

/// The forfeited amounts of the first `upto` schedules, summed with a cap.
pub open spec fn forfeited_among(
    schedules: Map<Address, VestingSchedule>,
    order: Seq<Address>,
    upto: int,
) -> u128
    decreases upto,
{
    if upto <= 0 {
        0
    } else {
        sat_add(
            forfeited_among(schedules, order, upto - 1),
            capped(
                schedules[order[upto - 1]].daily_amount.0 * schedules[order[upto
                    - 1]].spec_missed_days(),
            ),
        )
    }
}

impl BootstrapState {
    /// Whether the state refuses every join and claim: the phase is over.
    pub open spec fn spec_active(&self) -> bool {
        self.phase is Active
    }

    /// Create from genesis config
    pub fn new(config: GenesisConfig) -> (r: Self)
        requires
            config.bootstrap_start + BOOTSTRAP_DAYS * DAY_MS <= i64::MAX,
        ensures
            r.config == config,
            r.phase is Active,
            r.last_processed_day.is_none(),
            r.dns_claims@.len() == 0,
            r.vesting_schedules@ == Map::<Address, VestingSchedule>::empty(),
            r.airdrop@.next_position == 1,
            r.airdrop@.claims == Map::<Address, AirdropClaim>::empty(),
            r.airdrop@.pre_approved == config.pre_approved@,
            r.competency@.pre_approved == config.pre_approved@.to_set(),
            r.competency@.verified == config.pre_approved@.to_set(),
            r.liveness@.bootstrap_start == config.bootstrap_start,
    {
        let airdrop = AirdropTracker::new(
            crate::encoding::copy_addresses(config.pre_approved.as_slice()),
        );
        let liveness = LivenessTracker::new(config.bootstrap_start);
        let competency = CompetencyManager::new(config.pre_approved.as_slice());
        BootstrapState {
            config,
            airdrop,
            liveness,
            vesting_schedules: AddressMap::new(),
            competency,
            dns_claims: Vec::new(),
            phase: BootstrapPhase::Active,
            last_processed_day: None,
        }
    }

    /// Is the bootstrap still active?
    pub fn is_active(&self) -> (r: bool)
        ensures
            r == self.spec_active(),
    {
        match self.phase {
            BootstrapPhase::Active => true,
            BootstrapPhase::Completed { .. } => false,
        }
    }

    /// Process a new verifier wanting to join.
    ///
    /// Reserves an airdrop position and returns the claim. A pre-approved
    /// verifier is activated at once; any other is activated after the
    /// competency challenge.
    pub fn process_verifier_join(&mut self, address: Address, now: Timestamp) -> (r: Result<
        AirdropClaim,
        GenesisError,
    >)
        ensures
            !old(self).spec_active() ==> r is Err && r->Err_0 is BootstrapNotActive,
            old(self).spec_active() && old(self).airdrop@.claims.dom().contains(address) ==> r is Err
                && r->Err_0 is AlreadyClaimed,
            old(self).spec_active() && !old(self).airdrop@.claims.dom().contains(address) && old(self).airdrop@.next_position > super::MAX_GENESIS_PARTICIPANTS ==> r is Err
                && r->Err_0 is AirdropExhausted,
            old(self).spec_active() && !old(self).airdrop@.claims.dom().contains(address) && old(self).airdrop@.next_position <= super::MAX_GENESIS_PARTICIPANTS ==> r is Ok,
            r is Ok ==> r->Ok_0 == (AirdropClaim {
                address,
                position: old(self).airdrop@.next_position,
                amount: flat_config().amount_per_participant,
                claimed_at: now,
                activated: false,
            }) && final(self).airdrop@.claims.dom().contains(address),
            r is Ok && old(self).competency@.pre_approved.contains(address) ==> final(self).vesting_schedules@.dom().contains(address) && final(self).airdrop@.claims[address].activated,
            final(self).phase == old(self).phase,
            final(self).last_processed_day == old(self).last_processed_day,
    {
        if !self.is_active() {
            return Err(GenesisError::BootstrapNotActive);
        }
        let claim = match self.airdrop.reserve_position(address, now) {
            Ok(c) => c,
            Err(e) => {
                return Err(e);
            },
        };
        if self.competency.is_pre_approved(&address) {
            match self.activate_verifier(&address, now) {
                Ok(_) => {},
                Err(e) => {
                    return Err(e);
                },
            }
        }
        Ok(claim)
    }

    /// Activate a verifier after competency is confirmed.
    ///
    /// Activates the claim, creates the vesting schedule, and returns the
    /// amount that is available immediately together with the system job
    /// that credits the airdrop.
    pub fn activate_verifier(&mut self, address: &Address, now: Timestamp) -> (r: Result<
        (HclawAmount, SystemJobKind),
        GenesisError,
    >)
        ensures
            final(self).phase == old(self).phase,
            final(self).last_processed_day == old(self).last_processed_day,
            final(self).competency == old(self).competency,
            final(self).liveness == old(self).liveness,
            !old(self).airdrop@.claims.dom().contains(*address) ==> r is Err
                && r->Err_0 is InvalidConfig && final(self).airdrop@ == old(self).airdrop@,
            old(self).airdrop@.claims.dom().contains(*address) && old(self).airdrop@.claims[*address].activated ==> r is Err && r->Err_0 is AlreadyClaimed
                && final(self).airdrop@ == old(self).airdrop@,
            old(self).airdrop@.claims.dom().contains(*address) && !old(self).airdrop@.claims[*address].activated ==> r is Ok && final(self).airdrop@.claims.dom().contains(*address) && final(self).airdrop@.claims[*address].activated && final(self).vesting_schedules@.dom().contains(*address) && r->Ok_0.0 == final(self).vesting_schedules@[*address].immediate_amount && (r->Ok_0.1
                matches SystemJobKind::AirdropClaim { recipient, position, amount } && recipient
                == *address && position == old(self).airdrop@.claims[*address].position && amount
                == old(self).airdrop@.claims[*address].amount),
    {
        let amount = match self.airdrop.activate_claim(address) {
            Ok(a) => a,
            Err(e) => {
                return Err(e);
            },
        };
        let position = match self.airdrop.get_claim(address) {
            Some(claim) => claim.position,
            None => {
                return Err(GenesisError::InvalidConfig(String::from_str("claim disappeared")));
            },
        };
        let join_day = match self.liveness.day_for_timestamp(now) {
            Some(d) => d,
            None => 0,
        };
        let schedule = VestingSchedule::new(
            amount,
            self.airdrop.config().min_stake,
            self.config.bootstrap_start,
            self.config.bootstrap_end,
            join_day,
        );
        let immediate = schedule.immediate_amount;
        self.vesting_schedules.insert(*address, schedule);
        let system_job = SystemJobKind::AirdropClaim { recipient: *address, position, amount };
        Ok((immediate, system_job))
    }

    /// Record a block attestation (for liveness tracking)
    pub fn record_attestation(&mut self, verifier: &Address, block_timestamp: Timestamp)
        ensures
            final(self).config == old(self).config,
            final(self).airdrop == old(self).airdrop,
            final(self).vesting_schedules == old(self).vesting_schedules,
            final(self).competency == old(self).competency,
            final(self).dns_claims == old(self).dns_claims,
            final(self).phase == old(self).phase,
            final(self).last_processed_day == old(self).last_processed_day,
            final(self).liveness@ == old(self).liveness@.after_attestation(
                *verifier,
                block_timestamp,
            ),
    {
        self.liveness.record_attestation(verifier, block_timestamp);
    }

    /// Process a day boundary: update vesting schedules based on liveness.
    ///
    /// Every verifier with a schedule who was active on `day` has the day
    /// marked, and exactly one vesting unlock job is issued for each of them
    /// whose vested amount grew, with the growth, in the order of the
    /// schedules. A day that is not later than the last processed day is
    /// ignored.
    pub fn process_day_end(&mut self, day: u32) -> (r: Vec<SystemJobKind>)
        ensures
            final(self).config == old(self).config,
            final(self).airdrop == old(self).airdrop,
            final(self).liveness == old(self).liveness,
            final(self).competency == old(self).competency,
            final(self).dns_claims == old(self).dns_claims,
            final(self).phase == old(self).phase,
            already_processed(old(self).last_processed_day, day) ==> r@.len() == 0 && final(self).last_processed_day == old(self).last_processed_day && final(self).vesting_schedules
                == old(self).vesting_schedules,
            !already_processed(old(self).last_processed_day, day) ==> final(self).last_processed_day == Some(day) && final(self).vesting_schedules@.dom() == old(self).vesting_schedules@.dom() && final(self).vesting_schedules.order() == old(self).vesting_schedules.order(),
            !already_processed(old(self).last_processed_day, day) ==> r@ == unlocks_among(
                old(self).vesting_schedules@,
                old(self).liveness@,
                old(self).vesting_schedules.order(),
                day,
                old(self).vesting_schedules.order().len() as int,
            ),
            !already_processed(old(self).last_processed_day, day) ==> forall|a: Address|
                old(self).vesting_schedules@.dom().contains(a) && old(self).liveness@.active(
                    a,
                    day as int,
                ) ==> (#[trigger] old(self).vesting_schedules@[a]).marked_as(
                    final(self).vesting_schedules@[a],
                    day,
                ),
            forall|i: int|
                0 <= i < r@.len() ==> (#[trigger] r@[i]) is VestingUnlock && old(self).liveness@.active(r@[i]->beneficiary, day as int) && r@[i]->VestingUnlock_amount.0
                    > 0,
            forall|a: Address|
                final(self).vesting_schedules@.dom().contains(a) && !old(self).liveness@.active(
                    a,
                    day as int,
                ) ==> #[trigger] final(self).vesting_schedules@[a] == old(self).vesting_schedules@[a],
    {
        match self.last_processed_day {
            Some(last) => {
                if day <= last {
                    return Vec::new();
                }
            },
            None => {},
        }
        self.last_processed_day = Some(day);
        let mut jobs: Vec<SystemJobKind> = Vec::new();
        let keys = self.vesting_schedules.keys();
        let ghost start = self.vesting_schedules@;
        let ghost live = self.liveness@;
        let n = self.vesting_schedules.len();
        let mut i: usize = 0;
        while i < keys.len()
            invariant
                0 <= i <= keys@.len(),
                keys@.len() == n,
                keys@.no_duplicates(),
                n == start.dom().len(),
                keys@.to_set() == start.dom(),
                self.vesting_schedules@.dom() == start.dom(),
                self.vesting_schedules.order() == keys@,
                start == old(self).vesting_schedules@,
                keys@ == old(self).vesting_schedules.order(),
                live == old(self).liveness@,
                self.config == old(self).config,
                self.airdrop == old(self).airdrop,
                self.liveness == old(self).liveness,
                self.competency == old(self).competency,
                self.dns_claims == old(self).dns_claims,
                self.phase == old(self).phase,
                self.last_processed_day == Some(day),
                jobs@ == unlocks_among(start, live, keys@, day, i as int),
                forall|k: int|
                    0 <= k < jobs@.len() ==> (#[trigger] jobs@[k]) is VestingUnlock
                        && self.liveness@.active(jobs@[k]->beneficiary, day as int)
                        && jobs@[k]->VestingUnlock_amount.0 > 0,
                forall|a: Address|
                    start.dom().contains(a) && !self.liveness@.active(a, day as int)
                        ==> #[trigger] self.vesting_schedules@[a] == start[a],
                forall|k: int|
                    i <= k < keys@.len() ==> self.vesting_schedules@[#[trigger] keys@[k]]
                        == start[keys@[k]],
                forall|k: int|
                    0 <= k < i && live.active(#[trigger] keys@[k], day as int) ==> start[keys@[k]].marked_as(
                        self.vesting_schedules@[keys@[k]],
                        day,
                    ),
            decreases keys@.len() - i,
        {
            let address = keys[i];
            assert(keys@.to_set().contains(address));
            let ghost held = self.vesting_schedules@;
            if self.liveness.was_active_on_day(&address, day) {
                let mut schedule = match self.vesting_schedules.get(&address) {
                    Some(s) => s.clone(),
                    None => {
                        i += 1;
                        continue ;
                    },
                };
                let before = schedule.vested_amount();
                assert(before.0 == start[address].spec_vested());
                schedule.mark_day_active(day);
                let after = schedule.vested_amount();
                assert(start[address].marked_as(schedule, day));
                self.vesting_schedules.insert(address, schedule);
                assert(self.vesting_schedules@.dom() =~= start.dom());
                let unlocked = after.saturating_sub(before);
                assert(unlocked.0 == start[address].unlocked_by(day));
                if unlocked.raw() > 0 {
                    jobs.push(SystemJobKind::VestingUnlock { beneficiary: address, amount: unlocked });
                }
                assert forall|k: int| i < k < keys@.len() implies self.vesting_schedules@[#[trigger] keys@[k]]
                    == start[keys@[k]] by {
                    assert(keys@[k] != address);
                    assert(held[keys@[k]] == start[keys@[k]]);
                }
                assert forall|k: int|
                    0 <= k < i && live.active(#[trigger] keys@[k], day as int) implies start[keys@[k]].marked_as(
                    self.vesting_schedules@[keys@[k]],
                    day,
                ) by {
                    assert(keys@[k] != address);
                    assert(self.vesting_schedules@[keys@[k]] == held[keys@[k]]);
                }
            }
            i += 1;
        }
        proof {
            assert forall|a: Address|
                start.dom().contains(a) && live.active(a, day as int) implies (#[trigger] start[a]).marked_as(
                self.vesting_schedules@[a],
                day,
            ) by {
                assert(keys@.to_set().contains(a));
                let k = choose|k: int| 0 <= k < keys@.len() && keys@[k] == a;
                assert(live.active(keys@[k], day as int));
            }
        }
        jobs
    }

    /// Process a DNS break-glass claim.
    ///
    /// Refused once the bootstrap is over, once all slots are used, where the
    /// hostname does not end with the authorised domain, and where the
    /// address has claimed before.
    pub fn process_dns_claim(&mut self, claim: DnsBootstrapClaim) -> (r: Result<
        SystemJobKind,
        GenesisError,
    >)
        ensures
            final(self).config == old(self).config,
            final(self).airdrop == old(self).airdrop,
            final(self).liveness == old(self).liveness,
            final(self).vesting_schedules == old(self).vesting_schedules,
            final(self).competency == old(self).competency,
            final(self).phase == old(self).phase,
            final(self).last_processed_day == old(self).last_processed_day,
            r is Err ==> final(self).dns_claims == old(self).dns_claims,
            !old(self).spec_active() ==> r is Err && r->Err_0 is BootstrapNotActive,
            old(self).spec_active() && old(self).dns_claims@.len() >= old(self).config.dns_break_glass.max_nodes ==> r is Err && r->Err_0 is DnsBreakGlassExhausted,
            old(self).spec_active() && old(self).dns_claims@.len() < old(self).config.dns_break_glass.max_nodes && (!ends_with_spec(
                text_bytes(claim.hostname@),
                text_bytes(old(self).config.dns_break_glass.domain@),
            ) || claimed_by(old(self).dns_claims@, claim.address)) ==> r is Err
                && r->Err_0 is DnsBreakGlassInvalid,
            old(self).spec_active() && old(self).dns_claims@.len() < old(self).config.dns_break_glass.max_nodes && ends_with_spec(
                text_bytes(claim.hostname@),
                text_bytes(old(self).config.dns_break_glass.domain@),
            ) && !claimed_by(old(self).dns_claims@, claim.address) ==> r is Ok && final(self).dns_claims@ == old(self).dns_claims@.push(claim) && (r->Ok_0
                matches SystemJobKind::DnsBootstrapClaim { node, hostname, amount } && node
                == claim.address && hostname == claim.hostname && amount == claim.amount),
    {
        if !self.is_active() {
            return Err(GenesisError::BootstrapNotActive);
        }
        if self.dns_claims.len() >= self.config.dns_break_glass.max_nodes as usize {
            return Err(GenesisError::DnsBreakGlassExhausted);
        }
        if !ends_with(
            claim.hostname.as_str().as_bytes(),
            self.config.dns_break_glass.domain.as_str().as_bytes(),
        ) {
            return Err(
                GenesisError::DnsBreakGlassInvalid(
                    String::from_str("hostname ").concat(claim.hostname.as_str()).concat(
                        " is not under domain ",
                    ).concat(self.config.dns_break_glass.domain.as_str()),
                ),
            );
        }
        let mut i: usize = 0;
        while i < self.dns_claims.len()
            invariant
                0 <= i <= self.dns_claims@.len(),
                *self == *old(self),
                self.spec_active(),
                self.dns_claims@.len() < self.config.dns_break_glass.max_nodes,
                ends_with_spec(
                    text_bytes(claim.hostname@),
                    text_bytes(self.config.dns_break_glass.domain@),
                ),
                forall|j: int| 0 <= j < i ==> (#[trigger] self.dns_claims@[j]).address != claim.address,
            decreases self.dns_claims@.len() - i,
        {
            if self.dns_claims[i].address == claim.address {
                return Err(
                    GenesisError::DnsBreakGlassInvalid(
                        String::from_str("address has already claimed a DNS bootstrap slot"),
                    ),
                );
            }
            i += 1;
        }
        let job = SystemJobKind::DnsBootstrapClaim {
            node: claim.address,
            hostname: claim.hostname.clone(),
            amount: claim.amount,
        };
        self.dns_claims.push(claim);
        Ok(job)
    }

    /// Check if bootstrap should complete and transition phases.
    ///
    /// The bootstrap completes once the period has run out or every airdrop
    /// position is taken. Returns the completion job at that moment, and
    /// nothing before and after it.
    pub fn check_completion(&mut self, now: Timestamp) -> (r: Option<SystemJobKind>)
        ensures
            final(self).config == old(self).config,
            final(self).airdrop == old(self).airdrop,
            final(self).liveness == old(self).liveness,
            final(self).vesting_schedules == old(self).vesting_schedules,
            final(self).competency == old(self).competency,
            final(self).dns_claims == old(self).dns_claims,
            final(self).last_processed_day == old(self).last_processed_day,
            old(self).spec_active() && (now >= old(self).config.bootstrap_end || old(self).airdrop@.next_position > super::MAX_GENESIS_PARTICIPANTS) ==> final(self).phase == (
            BootstrapPhase::Completed { completed_at: now }) && (r matches Some(
                SystemJobKind::BootstrapComplete { total_verifiers, total_distributed },
            ) && total_distributed == old(self).airdrop@.total_distributed && total_verifiers
                == super::airdrop::activated_among(
                old(self).airdrop@.claims,
                old(self).airdrop@.claimants,
                old(self).airdrop@.claimants.len() as int,
            )),
            !(old(self).spec_active() && (now >= old(self).config.bootstrap_end || old(self).airdrop@.next_position > super::MAX_GENESIS_PARTICIPANTS)) ==> r.is_none() && final(self).phase == old(self).phase,
    {
        if !self.is_active() {
            return None;
        }
        let should_complete = now >= self.config.bootstrap_end || self.airdrop.is_exhausted();
        if should_complete {
            self.phase = BootstrapPhase::Completed { completed_at: now };
            Some(
                SystemJobKind::BootstrapComplete {
                    total_verifiers: self.airdrop.activated_count(),
                    total_distributed: self.airdrop.total_distributed(),
                },
            )
        } else {
            None
        }
    }

    /// Get the current min stake
    pub fn current_min_stake(&self) -> (r: HclawAmount)
        ensures
            r == flat_config().min_stake,
    {
        self.airdrop.current_min_stake()
    }

    /// Get vesting schedule for an address
    pub fn get_vesting(&self, address: &Address) -> (r: Option<&VestingSchedule>)
        ensures
            r == if self.vesting_schedules@.dom().contains(*address) {
                Some(&self.vesting_schedules@[*address])
            } else {
                None
            },
    {
        self.vesting_schedules.get(address)
    }

    /// Calculate total forfeited tokens (for burning at bootstrap end): what
    /// every vesting schedule forfeits, plus the unclaimed airdrop pool.
    pub fn total_forfeited(&self) -> (r: HclawAmount)
        ensures
            r.0 == sat_add(
                forfeited_among(
                    self.vesting_schedules@,
                    self.vesting_schedules.order(),
                    self.vesting_schedules.order().len() as int,
                ),
                sat_sub(
                    (super::GENESIS_AIRDROP_AMOUNT * crate::types::amount::RAW_PER_HCLAW
                        * super::MAX_GENESIS_PARTICIPANTS) as u128,
                    self.airdrop@.total_distributed.0,
                ),
            ),
    {
        let mut total = HclawAmount::zero();
        let n = self.vesting_schedules.len();
        let mut i: usize = 0;
        while i < n
            invariant
                n == self.vesting_schedules.order().len(),
                0 <= i <= n,
                total.0 == forfeited_among(
                    self.vesting_schedules@,
                    self.vesting_schedules.order(),
                    i as int,
                ),
            decreases n - i,
        {
            let schedule = self.vesting_schedules.value_at(i);
            total = total.saturating_add(schedule.forfeited_amount());
            i += 1;
        }
        total.saturating_add(self.airdrop.unclaimed_pool())
    }

    /// How many DNS break-glass slots remain
    pub fn dns_slots_remaining(&self) -> (r: u32)
        ensures
            r == if self.dns_claims@.len() >= self.config.dns_break_glass.max_nodes {
                0
            } else {
                self.config.dns_break_glass.max_nodes - self.dns_claims@.len()
            },
    {
        let used = self.dns_claims.len();
        let max = self.config.dns_break_glass.max_nodes;
        if used >= max as usize {
            0
        } else {
            max - (used as u32)
        }
    }
}

} // verus!
