//! Flat airdrop allocation and tracking.
//!
//! 100 HCLAW to each of the first 5,000 verifiers.

use vstd::prelude::*;
use vstd::string::*;

use super::{GenesisError, GENESIS_AIRDROP_AMOUNT, MAX_GENESIS_PARTICIPANTS, MINIMUM_STAKE_HCLAW};
use crate::contracts::journal::{sat_add, sat_sub};
use crate::encoding::contains_address;
use crate::types::address::Address;
use crate::types::address_map::AddressMap;
use crate::types::amount::{HclawAmount, RAW_PER_HCLAW};
use crate::types::Timestamp;

verus! {

/// Airdrop configuration
#[derive(Clone, Copy, Debug, PartialEq, Eq, Structural)]
pub struct AirdropConfig {
    /// Flat amount each participant receives (100 HCLAW)
    pub amount_per_participant: HclawAmount,
    /// Maximum number of participants (5,000)
    pub max_participants: u32,
    /// Minimum stake required (50 HCLAW)
    pub min_stake: HclawAmount,
}

/// The flat airdrop configuration: 100 HCLAW each, 5,000 participants,
/// minimum stake 50 HCLAW.
pub open spec fn flat_config() -> AirdropConfig {
    AirdropConfig {
        amount_per_participant: HclawAmount((GENESIS_AIRDROP_AMOUNT * RAW_PER_HCLAW) as u128),
        max_participants: MAX_GENESIS_PARTICIPANTS,
        min_stake: HclawAmount((MINIMUM_STAKE_HCLAW * RAW_PER_HCLAW) as u128),
    }
}

impl AirdropConfig {
    /// Create default flat airdrop config
    pub fn new() -> (r: Self)
        ensures
            r == flat_config(),
    {
        AirdropConfig {
            amount_per_participant: HclawAmount::from_hclaw(GENESIS_AIRDROP_AMOUNT),
            max_participants: MAX_GENESIS_PARTICIPANTS,
            min_stake: HclawAmount::from_hclaw(MINIMUM_STAKE_HCLAW),
        }
    }

    /// Total airdrop pool: the amount per participant times the number of
    /// participants, capped at the largest representable amount.
    pub fn total_pool(&self) -> (r: HclawAmount)
        ensures
            r.0 == if self.amount_per_participant.0 * self.max_participants > u128::MAX {
                u128::MAX as int
            } else {
                self.amount_per_participant.0 * self.max_participants
            },
    {
        self.amount_per_participant.saturating_mul(self.max_participants as u128)
    }

    /// Minimum stake for all participants
    pub fn current_min_stake(&self) -> (r: HclawAmount)
        ensures
            r == self.min_stake,
    {
        self.min_stake
    }
}

impl Default for AirdropConfig {
    fn default() -> (r: Self)
        ensures
            r == flat_config(),
    {
        Self::new()
    }
}

/// A single airdrop claim
#[derive(Clone, Copy, Debug, PartialEq, Eq)]
pub struct AirdropClaim {
    /// Address that claimed
    pub address: Address,
    /// Position in the airdrop (1-indexed)
    pub position: u32,
    /// Airdrop amount (100 HCLAW)
    pub amount: HclawAmount,
    /// When claimed
    pub claimed_at: Timestamp,
    /// Whether activated (post-competency check)
    pub activated: bool,
}

/// Tracks airdrop claims during the bootstrap period
pub struct AirdropTracker {
    /// Airdrop configuration
    config: AirdropConfig,
    /// Claims by address
    claims: AddressMap<AirdropClaim>,
    /// Next position to be assigned (1-indexed)
    next_position: u32,
    /// Total tokens distributed so far
    total_distributed: HclawAmount,
    /// Pre-approved addresses (skip competency check)
    pre_approved: Vec<Address>,
}

/// What a tracker holds, as plain values.
pub struct AirdropView {
    /// Claims by address
    pub claims: Map<Address, AirdropClaim>,
    /// The claimants in the order of their claims
    pub claimants: Seq<Address>,
    /// Next position to be assigned (1-indexed)
    pub next_position: u32,
    /// Total tokens distributed so far
    pub total_distributed: HclawAmount,
    /// Pre-approved addresses
    pub pre_approved: Seq<Address>,
}

/// How many of the first `upto` claimants have an activated claim.
pub open spec fn activated_among(
    claims: Map<Address, AirdropClaim>,
    claimants: Seq<Address>,
    upto: int,
) -> int
    decreases upto,
{
    if upto <= 0 {
        0
    } else {
        activated_among(claims, claimants, upto - 1) + if claims[claimants[upto - 1]].activated {
            1int
        } else {
            0int
        }
    }
}

proof fn lemma_activated_bound(claims: Map<Address, AirdropClaim>, claimants: Seq<Address>, upto: int)
    requires
        0 <= upto,
    ensures
        0 <= activated_among(claims, claimants, upto) <= upto,
    decreases upto,
{
    if upto > 0 {
        lemma_activated_bound(claims, claimants, upto - 1);
    }
}

impl View for AirdropTracker {
    type V = AirdropView;

    closed spec fn view(&self) -> AirdropView {
        AirdropView {
            claims: self.claims@,
            claimants: self.claims.order(),
            next_position: self.next_position,
            total_distributed: self.total_distributed,
            pre_approved: self.pre_approved@,
        }
    }
}

impl AirdropTracker {
    #[verifier::type_invariant]
    spec fn well_formed(self) -> bool {
        &&& self.config == flat_config()
        &&& 1 <= self.next_position <= MAX_GENESIS_PARTICIPANTS + 1
        &&& self.claims.order().len() == self.next_position - 1
    }

    /// Create a new tracker
    pub fn new(pre_approved: Vec<Address>) -> (r: Self)
        ensures
            r@ == (AirdropView {
                claims: Map::empty(),
                claimants: Seq::empty(),
                next_position: 1,
                total_distributed: HclawAmount(0),
                pre_approved: pre_approved@,
            }),
    {
        AirdropTracker {
            config: AirdropConfig::new(),
            claims: AddressMap::new(),
            next_position: 1,
            total_distributed: HclawAmount::zero(),
            pre_approved,
        }
    }

    /// Reserve the next airdrop position for an address.
    /// Does not distribute tokens yet: that happens on activation.
    pub fn reserve_position(&mut self, address: Address, now: Timestamp) -> (r: Result<
        AirdropClaim,
        GenesisError,
    >)
        ensures
            old(self)@.claims.dom().contains(address) ==> r is Err && r->Err_0 is AlreadyClaimed
                && final(self)@ == old(self)@,
            !old(self)@.claims.dom().contains(address) && old(self)@.next_position
                > MAX_GENESIS_PARTICIPANTS ==> r is Err && r->Err_0 is AirdropExhausted && final(self)@ == old(self)@,
            !old(self)@.claims.dom().contains(address) && old(self)@.next_position
                <= MAX_GENESIS_PARTICIPANTS ==> r is Ok && r->Ok_0 == (AirdropClaim {
                address,
                position: old(self)@.next_position,
                amount: flat_config().amount_per_participant,
                claimed_at: now,
                activated: false,
            }) && final(self)@ == (AirdropView {
                claims: old(self)@.claims.insert(address, r->Ok_0),
                claimants: old(self)@.claimants.push(address),
                next_position: (old(self)@.next_position + 1) as u32,
                ..old(self)@
            }),
    {
        proof {
            use_type_invariant(&*self);
        }
        if self.claims.contains_key(&address) {
            return Err(GenesisError::AlreadyClaimed);
        }
        if self.next_position > self.config.max_participants {
            return Err(GenesisError::AirdropExhausted);
        }
        let claim = AirdropClaim {
            address,
            position: self.next_position,
            amount: self.config.amount_per_participant,
            claimed_at: now,
            activated: false,
        };
        let mut rest = AirdropTracker::new(Vec::new());
        std::mem::swap(self, &mut rest);
        *self = rest.install(address, claim);
        Ok(claim)
    }

    fn install(self, address: Address, claim: AirdropClaim) -> (r: Self)
        requires
            !self@.claims.dom().contains(address),
            self@.next_position <= MAX_GENESIS_PARTICIPANTS,
        ensures
            r@ == (AirdropView {
                claims: self@.claims.insert(address, claim),
                claimants: self@.claimants.push(address),
                next_position: (self@.next_position + 1) as u32,
                ..self@
            }),
    {
        proof {
            use_type_invariant(&self);
        }
        let mut claims = self.claims;
        claims.insert(address, claim);
        AirdropTracker {
            config: self.config,
            claims,
            next_position: self.next_position + 1,
            total_distributed: self.total_distributed,
            pre_approved: self.pre_approved,
        }
    }

    fn replace_claim(self, address: Address, claim: AirdropClaim, total: HclawAmount) -> (r: Self)
        requires
            self@.claims.dom().contains(address),
        ensures
            r@ == (AirdropView {
                claims: self@.claims.insert(address, claim),
                total_distributed: total,
                ..self@
            }),
    {
        proof {
            use_type_invariant(&self);
        }
        let mut claims = self.claims;
        claims.insert(address, claim);
        AirdropTracker {
            config: self.config,
            claims,
            next_position: self.next_position,
            total_distributed: total,
            pre_approved: self.pre_approved,
        }
    }

    /// Activate a claim (after competency check passes).
    /// Returns the amount to credit to the verifier.
    pub fn activate_claim(&mut self, address: &Address) -> (r: Result<HclawAmount, GenesisError>)
        ensures
            !old(self)@.claims.dom().contains(*address) ==> r is Err && r->Err_0 is InvalidConfig
                && final(self)@ == old(self)@,
            old(self)@.claims.dom().contains(*address) && old(self)@.claims[*address].activated
                ==> r is Err && r->Err_0 is AlreadyClaimed && final(self)@ == old(self)@,
            old(self)@.claims.dom().contains(*address) && !old(self)@.claims[*address].activated
                ==> r == Ok::<HclawAmount, GenesisError>(old(self)@.claims[*address].amount)
                && final(self)@ == (AirdropView {
                claims: old(self)@.claims.insert(
                    *address,
                    AirdropClaim { activated: true, ..old(self)@.claims[*address] },
                ),
                total_distributed: HclawAmount(
                    sat_add(old(self)@.total_distributed.0, old(self)@.claims[*address].amount.0),
                ),
                ..old(self)@
            }),
    {
        let claim = match self.claims.get(address) {
            None => {
                return Err(
                    GenesisError::InvalidConfig(
                        String::from_str("no claim found for address ").concat(
                            address.to_hex().as_str(),
                        ),
                    ),
                );
            },
            Some(c) => *c,
        };
        if claim.activated {
            return Err(GenesisError::AlreadyClaimed);
        }
        let activated = AirdropClaim { activated: true, ..claim };
        let total = self.total_distributed.saturating_add(claim.amount);
        let mut rest = AirdropTracker::new(Vec::new());
        std::mem::swap(self, &mut rest);
        *self = rest.replace_claim(*address, activated, total);
        Ok(claim.amount)
    }

    /// Get a claim by address
    pub fn get_claim(&self, address: &Address) -> (r: Option<&AirdropClaim>)
        ensures
            r == if self@.claims.dom().contains(*address) {
                Some(&self@.claims[*address])
            } else {
                None
            },
    {
        self.claims.get(address)
    }

    /// Next position to be assigned
    pub fn next_position(&self) -> (r: u32)
        ensures
            r == self@.next_position,
    {
        self.next_position
    }

    /// How many positions have been reserved
    pub fn claimed_count(&self) -> (r: u32)
        ensures
            r == self@.claimants.len(),
            r == self@.claims.dom().len(),
            r == self@.next_position - 1,
    {
        proof {
            use_type_invariant(self);
        }
        self.claims.len() as u32
    }

    /// How many claims have been activated
    pub fn activated_count(&self) -> (r: u32)
        ensures
            r == activated_among(self@.claims, self@.claimants, self@.claimants.len() as int),
    {
        proof {
            use_type_invariant(self);
        }
        let n = self.claims.len();
        let mut count: u32 = 0;
        let mut i: usize = 0;
        while i < n
            invariant
                n == self.claims.order().len(),
                n <= MAX_GENESIS_PARTICIPANTS,
                0 <= i <= n,
                count == activated_among(self.claims@, self.claims.order(), i as int),
                count <= i,
            decreases n - i,
        {
            if self.claims.value_at(i).activated {
                count += 1;
            }
            i += 1;
        }
        count
    }

    /// Total tokens distributed so far
    pub fn total_distributed(&self) -> (r: HclawAmount)
        ensures
            r == self@.total_distributed,
    {
        self.total_distributed
    }

    /// Whether all positions have been claimed
    pub fn is_exhausted(&self) -> (r: bool)
        ensures
            r == (self@.next_position > MAX_GENESIS_PARTICIPANTS),
    {
        proof {
            use_type_invariant(self);
        }
        self.next_position > self.config.max_participants
    }

    /// Current min stake (flat for all participants)
    pub fn current_min_stake(&self) -> (r: HclawAmount)
        ensures
            r == flat_config().min_stake,
    {
        proof {
            use_type_invariant(self);
        }
        self.config.current_min_stake()
    }

    /// Check if an address is pre-approved
    pub fn is_pre_approved(&self, address: &Address) -> (r: bool)
        ensures
            r == self@.pre_approved.contains(*address),
    {
        contains_address(self.pre_approved.as_slice(), address)
    }

    /// Get the config
    pub fn config(&self) -> (r: &AirdropConfig)
        ensures
            *r == flat_config(),
    {
        proof {
            use_type_invariant(self);
        }
        &self.config
    }

    /// Calculate unclaimed tokens (for burning at bootstrap end): the pool
    /// less what has been distributed.
    pub fn unclaimed_pool(&self) -> (r: HclawAmount)
        ensures
            r.0 == sat_sub(
                (GENESIS_AIRDROP_AMOUNT * RAW_PER_HCLAW * MAX_GENESIS_PARTICIPANTS) as u128,
                self@.total_distributed.0,
            ),
    {
        proof {
            use_type_invariant(self);
        }
        let total_pool = self.config.total_pool();
        total_pool.saturating_sub(self.total_distributed)
    }
}

} // verus!
