//! Genesis bootstrapping.
//!
//! The genesis block is a bounty task: the job of bootstrapping the network
//! over a 30-day period. This module holds the flat airdrop, liveness-gated
//! vesting, competency challenges, the DNS break-glass mechanism, and the
//! bootstrap state machine.

pub mod airdrop;
pub mod bootstrap;
pub mod bounty;
pub mod competency;
pub mod config;
pub mod contracts;
pub mod launch;
pub mod liveness;
pub mod vesting;

use vstd::prelude::*;
use vstd::string::*;

use crate::crypto::hash::{blake3_digest, hash_data};
use crate::crypto::signature::PublicKey;
use crate::encoding::{
    address_bytes, copy_addresses, push_addresses, push_bytes, push_i64_le, push_text,
    push_u128_le, push_u32_le, spec_i64_to_le_bytes, text_bytes,
};
use crate::types::address::Address;
use crate::types::amount::HclawAmount;
use crate::types::Timestamp;

verus! {

/// Duration of the bootstrap period (30 days in milliseconds)
pub const BOOTSTRAP_DURATION_MS: i64 = 30 * 24 * 60 * 60 * 1000;

/// One day in milliseconds
pub const DAY_MS: i64 = 24 * 60 * 60 * 1000;

/// Number of days in the bootstrap period
pub const BOOTSTRAP_DAYS: u32 = 30;

/// Flat airdrop per participant, in HCLAW
pub const GENESIS_AIRDROP_AMOUNT: u64 = 100;

/// Airdrop for pre-approved founder wallets, in HCLAW
pub const FOUNDER_AIRDROP_AMOUNT: u64 = 250_000;

/// Tokens per bootstrap node, in HCLAW
pub const BOOTSTRAP_NODE_TOKENS: u64 = 500_000;

/// Maximum genesis participants
pub const MAX_GENESIS_PARTICIPANTS: u32 = 5_000;

/// Total airdrop pool: 500,000 HCLAW (5,000 × 100)
pub const AIRDROP_POOL_HCLAW: u64 = 5_000 * 100;

/// Minimum stake required (50 HCLAW)
pub const MINIMUM_STAKE_HCLAW: u64 = 50;

/// Maximum DNS break-glass bootstrap nodes
pub const MAX_DNS_BOOTSTRAP_NODES: u32 = 10;

/// Tokens per DNS break-glass node
pub const DNS_BOOTSTRAP_TOKENS: u64 = 250_000;

/// DNS break-glass vesting period (24 hours)
pub const DNS_BOOTSTRAP_VESTING_MS: i64 = 24 * 60 * 60 * 1000;

/// DNS domain that authorizes bootstrap nodes
pub const BOOTSTRAP_DNS_DOMAIN: &'static str = "clawpaper.com";

/// The text whose digest is the id of the bootstrap job
pub const BOOTSTRAP_JOB_TAG: &'static str = "hardclaw-genesis-bootstrap-v1";

/// When the bootstrap job is considered complete
#[derive(Clone, Copy, Debug, PartialEq, Eq, Structural)]
pub struct BootstrapCompletionCriteria {
    /// Maximum duration (30 days from genesis)
    pub max_duration_ms: i64,
    /// Target verifier count (early completion if reached)
    pub target_verifiers: u32,
    /// Minimum verifiers needed for a healthy network
    pub min_verifiers: u32,
}

/// The genesis bootstrap job: the chain's first task
#[derive(Debug)]
pub struct BootstrapJob {
    /// Deterministic job ID
    pub id: crate::types::Id,
    /// Human-readable description
    pub description: String,
    /// Total bounty (the airdrop pool)
    pub total_bounty: HclawAmount,
    /// Completion criteria
    pub completion: BootstrapCompletionCriteria,
}

impl Clone for BootstrapJob {
    fn clone(&self) -> (r: Self)
        ensures
            r == *self,
    {
        BootstrapJob {
            id: self.id,
            description: self.description.clone(),
            total_bounty: self.total_bounty,
            completion: self.completion,
        }
    }
}

/// The id of the bootstrap job: the digest of a fixed tag.
pub open spec fn bootstrap_job_id() -> crate::types::Id {
    crate::crypto::hash::Hash(blake3_digest(text_bytes(BOOTSTRAP_JOB_TAG@)))
}

impl BootstrapJob {
    /// Create the bootstrap job with a deterministic ID
    pub fn new(total_bounty: HclawAmount, bootstrap_duration_ms: i64) -> (r: Self)
        ensures
            r.id == bootstrap_job_id(),
            r.total_bounty == total_bounty,
            r.completion == (BootstrapCompletionCriteria {
                max_duration_ms: bootstrap_duration_ms,
                target_verifiers: MAX_GENESIS_PARTICIPANTS,
                min_verifiers: 5,
            }),
    {
        let id = hash_data(BOOTSTRAP_JOB_TAG.as_bytes());
        BootstrapJob {
            id,
            description: String::from_str(
                "Bootstrap the HardClaw network: onboard verifiers, distribute airdrop via daily bounty curve over 90 days.",
            ),
            total_bounty,
            completion: BootstrapCompletionCriteria {
                max_duration_ms: bootstrap_duration_ms,
                target_verifiers: MAX_GENESIS_PARTICIPANTS,
                min_verifiers: 5,
            },
        }
    }
}

/// Configuration for the DNS break-glass mechanism.
///
/// Up to 10 additional bootstrap nodes can be authorized through DNS records
/// on the bootstrap domain. A DNS record alone is not sufficient: it must
/// carry a signature by the genesis authority key over the node's public key.
#[derive(Debug)]
pub struct DnsBreakGlassConfig {
    /// Domain to resolve bootstrap nodes from
    pub domain: String,
    /// Maximum additional nodes that can be authorized
    pub max_nodes: u32,
    /// Tokens per DNS bootstrap node
    pub tokens_each: HclawAmount,
    /// Vesting period (24 hours)
    pub vesting_ms: i64,
    /// Authority public key
    pub authority_key: PublicKey,
}

impl Clone for DnsBreakGlassConfig {
    fn clone(&self) -> (r: Self)
        ensures
            r.domain == self.domain,
            r.max_nodes == self.max_nodes,
            r.tokens_each == self.tokens_each,
            r.vesting_ms == self.vesting_ms,
            r.authority_key@ == self.authority_key@,
    {
        DnsBreakGlassConfig {
            domain: self.domain.clone(),
            max_nodes: self.max_nodes,
            tokens_each: self.tokens_each,
            vesting_ms: self.vesting_ms,
            authority_key: self.authority_key.clone(),
        }
    }
}

/// A DNS break-glass claim
#[derive(Debug)]
pub struct DnsBootstrapClaim {
    /// Node address
    pub address: Address,
    /// Node public key
    pub node_key: PublicKey,
    /// DNS hostname that resolved to this node
    pub hostname: String,
    /// Tokens allocated
    pub amount: HclawAmount,
    /// When claimed
    pub claimed_at: Timestamp,
    /// When fully vested (`claimed_at` + 24h)
    pub vests_at: Timestamp,
}

impl Clone for DnsBootstrapClaim {
    fn clone(&self) -> (r: Self)
        ensures
            r.address == self.address,
            r.node_key@ == self.node_key@,
            r.hostname == self.hostname,
            r.amount == self.amount,
            r.claimed_at == self.claimed_at,
            r.vests_at == self.vests_at,
    {
        DnsBootstrapClaim {
            address: self.address,
            node_key: self.node_key.clone(),
            hostname: self.hostname.clone(),
            amount: self.amount,
            claimed_at: self.claimed_at,
            vests_at: self.vests_at,
        }
    }
}

/// The full genesis configuration embedded in block 0
#[derive(Debug)]
pub struct GenesisConfig {
    /// Chain identifier (prevents replay across networks)
    pub chain_id: String,
    /// The bootstrap job
    pub bootstrap_job: BootstrapJob,
    /// Flat airdrop amount (100 HCLAW per participant)
    pub airdrop_amount: HclawAmount,
    /// Maximum participants (5,000)
    pub max_participants: u32,
    /// Pre-approved verifier addresses (skip competency check)
    pub pre_approved: Vec<Address>,
    /// DNS break-glass configuration
    pub dns_break_glass: DnsBreakGlassConfig,
    /// Bootstrap period start (genesis block timestamp)
    pub bootstrap_start: Timestamp,
    /// Bootstrap period end
    pub bootstrap_end: Timestamp,
    /// Protocol version at genesis
    pub protocol_version: u32,
    /// Whether to deploy genesis contracts in the genesis block
    pub deploy_contracts: bool,
    /// Initial total voting power (sum of all stakes)
    pub initial_voting_power: u128,
}

impl Clone for GenesisConfig {
    fn clone(&self) -> (r: Self)
        ensures
            r.chain_id == self.chain_id,
            r.bootstrap_job == self.bootstrap_job,
            r.airdrop_amount == self.airdrop_amount,
            r.max_participants == self.max_participants,
            r.pre_approved@ == self.pre_approved@,
            r.dns_break_glass.domain == self.dns_break_glass.domain,
            r.dns_break_glass.max_nodes == self.dns_break_glass.max_nodes,
            r.dns_break_glass.tokens_each == self.dns_break_glass.tokens_each,
            r.dns_break_glass.vesting_ms == self.dns_break_glass.vesting_ms,
            r.dns_break_glass.authority_key@ == self.dns_break_glass.authority_key@,
            r.bootstrap_start == self.bootstrap_start,
            r.bootstrap_end == self.bootstrap_end,
            r.protocol_version == self.protocol_version,
            r.deploy_contracts == self.deploy_contracts,
            r.initial_voting_power == self.initial_voting_power,
    {
        GenesisConfig {
            chain_id: self.chain_id.clone(),
            bootstrap_job: self.bootstrap_job.clone(),
            airdrop_amount: self.airdrop_amount,
            max_participants: self.max_participants,
            pre_approved: copy_addresses(self.pre_approved.as_slice()),
            dns_break_glass: self.dns_break_glass.clone(),
            bootstrap_start: self.bootstrap_start,
            bootstrap_end: self.bootstrap_end,
            protocol_version: self.protocol_version,
            deploy_contracts: self.deploy_contracts,
            initial_voting_power: self.initial_voting_power,
        }
    }
}

/// Genesis-related errors
#[derive(Debug)]
pub enum GenesisError {
    /// Invalid genesis configuration
    InvalidConfig(String),
    /// Bootstrap period not active
    BootstrapNotActive,
    /// Airdrop exhausted
    AirdropExhausted,
    /// Address already claimed
    AlreadyClaimed,
    /// Competency challenge failed
    CompetencyFailed(String),
    /// DNS break-glass limit reached
    DnsBreakGlassExhausted,
    /// Invalid DNS break-glass claim
    DnsBreakGlassInvalid(String),
    /// Liveness requirement not met
    LivenessNotMet {
        /// The day that failed liveness
        day: u32,
    },
    /// IO error (config file loading)
    Io(String),
    /// Config parse error
    ParseError(String),
}

impl GenesisError {
    /// A human-readable description of the error.
    pub fn message(&self) -> (r: String)
        ensures
            self matches GenesisError::InvalidConfig(m) ==> r@ == "invalid genesis config: "@ + m@,
            self is BootstrapNotActive ==> r@ == "bootstrap period not active"@,
            self is AirdropExhausted ==> r@ == "all airdrop positions have been claimed"@,
            self is AlreadyClaimed ==> r@ == "address has already claimed an airdrop"@,
            self matches GenesisError::CompetencyFailed(m) ==> r@ == "competency challenge: "@
                + m@,
            self is DnsBreakGlassExhausted ==> r@
                == "DNS break-glass: all 10 slots have been used"@,
            self matches GenesisError::DnsBreakGlassInvalid(m) ==> r@ == "DNS break-glass: "@ + m@,
            self matches GenesisError::Io(m) ==> r@ == "io error: "@ + m@,
            self matches GenesisError::ParseError(m) ==> r@ == "config parse error: "@ + m@,
    {
        match self {
            GenesisError::InvalidConfig(m) => String::from_str("invalid genesis config: ").concat(
                m.as_str(),
            ),
            GenesisError::BootstrapNotActive => String::from_str("bootstrap period not active"),
            GenesisError::AirdropExhausted => String::from_str(
                "all airdrop positions have been claimed",
            ),
            GenesisError::AlreadyClaimed => String::from_str(
                "address has already claimed an airdrop",
            ),
            GenesisError::CompetencyFailed(m) => String::from_str("competency challenge: ").concat(
                m.as_str(),
            ),
            GenesisError::DnsBreakGlassExhausted => String::from_str(
                "DNS break-glass: all 10 slots have been used",
            ),
            GenesisError::DnsBreakGlassInvalid(m) => String::from_str("DNS break-glass: ").concat(
                m.as_str(),
            ),
            GenesisError::LivenessNotMet { day } => String::from_str(
                "liveness requirement not met for day ",
            ).concat(day.to_string().as_str()),
            GenesisError::Io(m) => String::from_str("io error: ").concat(m.as_str()),
            GenesisError::ParseError(m) => String::from_str("config parse error: ").concat(
                m.as_str(),
            ),
        }
    }
}

impl GenesisConfig {
    /// The bytes whose digest is the config hash.
    pub open spec fn spec_hash_bytes(&self) -> Seq<u8> {
        text_bytes(self.chain_id@) + self.bootstrap_job.id.0@ + spec_i64_to_le_bytes(
            self.bootstrap_start,
        ) + spec_i64_to_le_bytes(self.bootstrap_end) + vstd::bytes::spec_u128_to_le_bytes(
            self.airdrop_amount.0,
        ) + vstd::bytes::spec_u32_to_le_bytes(self.max_participants) + address_bytes(
            self.pre_approved@,
        ) + self.dns_break_glass.authority_key@
    }

    /// Whether the config passes validation.
    pub open spec fn is_valid(&self) -> bool {
        &&& self.chain_id@.len() > 0
        &&& self.max_participants != 0
        &&& self.airdrop_amount.0 != 0
        &&& self.dns_break_glass.max_nodes <= 10
    }

    /// The airdrop pool and the full DNS break-glass reserve as raw units,
    /// each capped, and their sum capped.
    pub open spec fn spec_max_supply(&self) -> u128 {
        let airdrop = if self.airdrop_amount.0 * self.max_participants > u128::MAX {
            u128::MAX
        } else {
            (self.airdrop_amount.0 * self.max_participants) as u128
        };
        let dns = if self.dns_break_glass.tokens_each.0 * self.dns_break_glass.max_nodes
            > u128::MAX {
            u128::MAX
        } else {
            (self.dns_break_glass.tokens_each.0 * self.dns_break_glass.max_nodes) as u128
        };
        crate::contracts::journal::sat_add(airdrop, dns)
    }

    /// Create the default genesis config
    pub fn new(
        chain_id: String,
        pre_approved: Vec<Address>,
        authority_key: PublicKey,
        now: Timestamp,
    ) -> (r: Self)
        requires
            now + BOOTSTRAP_DURATION_MS <= i64::MAX,
        ensures
            r.chain_id == chain_id,
            r.bootstrap_job.id == bootstrap_job_id(),
            r.bootstrap_job.total_bounty.0 == AIRDROP_POOL_HCLAW * crate::types::amount::RAW_PER_HCLAW,
            r.airdrop_amount.0 == GENESIS_AIRDROP_AMOUNT * crate::types::amount::RAW_PER_HCLAW,
            r.max_participants == MAX_GENESIS_PARTICIPANTS,
            r.pre_approved == pre_approved,
            r.dns_break_glass.domain@ == BOOTSTRAP_DNS_DOMAIN@,
            r.dns_break_glass.max_nodes == MAX_DNS_BOOTSTRAP_NODES,
            r.dns_break_glass.tokens_each.0 == DNS_BOOTSTRAP_TOKENS
                * crate::types::amount::RAW_PER_HCLAW,
            r.dns_break_glass.vesting_ms == DNS_BOOTSTRAP_VESTING_MS,
            r.dns_break_glass.authority_key == authority_key,
            r.bootstrap_start == now,
            r.bootstrap_end == now + BOOTSTRAP_DURATION_MS,
            r.protocol_version == 1,
            !r.deploy_contracts,
            r.initial_voting_power == 0,
    {
        let airdrop_amount = HclawAmount::from_hclaw(GENESIS_AIRDROP_AMOUNT);
        let total_bounty = HclawAmount::from_hclaw(AIRDROP_POOL_HCLAW);
        GenesisConfig {
            chain_id,
            bootstrap_job: BootstrapJob::new(total_bounty, BOOTSTRAP_DURATION_MS),
            airdrop_amount,
            max_participants: MAX_GENESIS_PARTICIPANTS,
            pre_approved,
            dns_break_glass: DnsBreakGlassConfig {
                domain: String::from_str(BOOTSTRAP_DNS_DOMAIN),
                max_nodes: MAX_DNS_BOOTSTRAP_NODES,
                tokens_each: HclawAmount::from_hclaw(DNS_BOOTSTRAP_TOKENS),
                vesting_ms: DNS_BOOTSTRAP_VESTING_MS,
                authority_key,
            },
            bootstrap_start: now,
            bootstrap_end: now + BOOTSTRAP_DURATION_MS,
            protocol_version: 1,
            deploy_contracts: false,
            initial_voting_power: 0,
        }
    }

    /// Compute a deterministic hash of this config (for genesis block hash)
    pub fn config_hash(&self) -> (r: crate::types::Id)
        ensures
            r == crate::crypto::hash::Hash(blake3_digest(self.spec_hash_bytes())),
    {
        let mut data: Vec<u8> = Vec::new();
        push_text(&mut data, self.chain_id.as_str());
        push_bytes(&mut data, self.bootstrap_job.id.0.as_slice());
        push_i64_le(&mut data, self.bootstrap_start);
        push_i64_le(&mut data, self.bootstrap_end);
        push_u128_le(&mut data, self.airdrop_amount.0);
        push_u32_le(&mut data, self.max_participants);
        push_addresses(&mut data, self.pre_approved.as_slice());
        push_bytes(&mut data, self.dns_break_glass.authority_key.as_bytes());
        assert(data@ =~= self.spec_hash_bytes());
        hash_data(data.as_slice())
    }

    /// Validate the config
    pub fn validate(&self) -> (r: Result<(), GenesisError>)
        ensures
            r.is_ok() == self.is_valid(),
            r is Err ==> r->Err_0 is InvalidConfig,
    {
        if self.chain_id.as_str().is_empty() {
            return Err(GenesisError::InvalidConfig(String::from_str("chain_id is empty")));
        }
        if self.max_participants == 0 {
            return Err(GenesisError::InvalidConfig(String::from_str("max_participants is zero")));
        }
        if self.airdrop_amount.raw() == 0 {
            return Err(GenesisError::InvalidConfig(String::from_str("airdrop_amount is zero")));
        }
        if self.dns_break_glass.max_nodes > 10 {
            return Err(
                GenesisError::InvalidConfig(
                    String::from_str("DNS break-glass max_nodes cannot exceed 10"),
                ),
            );
        }
        Ok(())
    }

    /// Total maximum supply that could be minted at genesis
    /// (airdrop pool + full DNS break-glass reserve)
    pub fn max_genesis_supply(&self) -> (r: HclawAmount)
        ensures
            r.0 == self.spec_max_supply(),
    {
        let airdrop_total = self.airdrop_amount.saturating_mul(self.max_participants as u128);
        let dns_reserve = self.dns_break_glass.tokens_each.saturating_mul(
            self.dns_break_glass.max_nodes as u128,
        );
        airdrop_total.saturating_add(dns_reserve)
    }
}

} // verus!
