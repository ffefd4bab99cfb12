//! Genesis bounty contract: participant onboarding and bounty distribution.
//!
//! - Participants join with a minimum stake
//! - Tiered airdrop (founders 250K, everyone else 100 HCLAW)
//! - Hourly bounty distribution to eligible staked verifiers
//!
//! The contract itself holds only its id. Every durable fact lives in
//! contract storage, so that any node replaying the same transactions over
//! the same storage arrives at the same state.

use vstd::prelude::*;
use vstd::string::*;

use super::codec::{
    address_list_bytes, address_views, push_address_list, push_amount, push_blob,
    push_text_field, read_address, read_address_list, read_amount, read_blob, read_text,
    read_u128, read_u32, read_u64, Reader,
};
use super::bounty_rules::{
    addresses_of, after_deployment, after_distribution, after_join, after_node_count,
    after_payment, after_payments, after_transaction, budget_of, can_distribute, can_join,
    day_of, is_staked, paid_out, participant_key_of, stored_config, TOPIC_HOURLY_BURNED,
    TOPIC_HOURLY_DISTRIBUTED, TOPIC_INITIALIZED, TOPIC_PARTICIPANT_JOINED,
};
use super::root::state_root_of;
use super::state::ContractState;
use super::transaction::ContractTransaction;
use super::{
    copy_events, event_views, Contract, ContractError, ContractEvent, ContractResult,
    ExecutionResult,
};
use crate::crypto::signature::PublicKey;
use crate::encoding::{
    contains_address, copy_bytes, decimal_text, decimal_text_wide, hex_encode, push_bytes,
    push_text, push_u32_le,
    push_u64_le, text_bytes,
};
use crate::genesis::bounty::{
    calculate_hourly_budget, day_from_epoch, distribute_evenly, BountyTracker, };
use crate::genesis::launch::BOOTSTRAP_SECONDS;
use crate::genesis::DnsBreakGlassConfig;
use crate::types::address::{lemma_address_of, Address};
use crate::types::amount::HclawAmount;
use crate::types::Id;

verus! {

/// Storage key of the deployment configuration
pub const KEY_CONFIG: &'static str = "config";

/// Storage key of the participant count
pub const KEY_PARTICIPANT_COUNT: &'static str = "participant_count";

/// Storage key of the bounty tracker
pub const KEY_BOUNTY_TRACKER: &'static str = "bounty_tracker";

/// Prefix of the storage keys of participant records
pub const PARTICIPANT_PREFIX: &'static str = "participant:";

/// The bytes of the genesis bounty contract id
pub const GENESIS_BOUNTY_CONTRACT_ID_BYTES: [u8; 32] = [
    0xb0, 0x47, 0x1c, 0xd8, 0x9f, 0x6e, 0x3a, 0x22, 0x5c, 0x94, 0xe1, 0xf2, 0x68, 0xd9, 0x0b, 0x7a,
    0x31, 0x8e, 0x52, 0xc3, 0x1a, 0x0f, 0x93, 0x6d, 0x78, 0xb2, 0x45, 0xf6, 0x29, 0xc8, 0x11, 0x5e,
];

/// Minimum stake to join genesis (50 HCLAW)
pub const MIN_STAKE: u64 = 50;

/// Flat airdrop amount per participant (100 HCLAW)
pub const AIRDROP_AMOUNT: u64 = 100;

/// Maximum participants (5000)
pub const MAX_PARTICIPANTS: usize = 5_000;

/// Gas charged for every execution
pub const BOUNTY_GAS: u64 = 100_000;

/// The id of the genesis bounty contract.
pub open spec fn spec_genesis_bounty_contract_id() -> Id {
    crate::crypto::hash::Hash(GENESIS_BOUNTY_CONTRACT_ID_BYTES)
}

/// The id of the genesis bounty contract.
pub fn genesis_bounty_contract_id() -> (r: Id)
    ensures
        r == spec_genesis_bounty_contract_id(),
{
    crate::crypto::hash::Hash(GENESIS_BOUNTY_CONTRACT_ID_BYTES)
}

/// Genesis configuration passed as deployment data
#[derive(Debug)]
pub struct GenesisDeploymentConfig {
    /// Standard airdrop amount per participant (100 HCLAW)
    pub airdrop_amount: HclawAmount,
    /// Founder airdrop amount for pre-approved wallets (250,000 HCLAW)
    pub founder_airdrop_amount: HclawAmount,
    /// Maximum participants allowed
    pub max_participants: u32,
    /// Pre-approved addresses (founders)
    pub pre_approved: Vec<Address>,
    /// Bootstrap node addresses
    pub bootstrap_nodes: Vec<Address>,
    /// Tokens per bootstrap node (500,000 HCLAW)
    pub bootstrap_node_tokens: HclawAmount,
    /// DNS break-glass configuration
    pub dns_break_glass: DnsBreakGlassConfig,
    /// Bootstrap period end timestamp
    pub bootstrap_end: u64,
}

/// Actions the bounty contract can perform
#[derive(Debug)]
pub enum BountyAction {
    /// Join genesis with stake
    JoinGenesis {
        /// Amount to stake
        stake: HclawAmount,
    },
    /// Distribute hourly bounty to eligible staked verifiers.
    ///
    /// Injected as a system job by the block proposer at each hour boundary.
    /// All verifiers re-execute it: a proposer who lies about the eligible
    /// list produces a state root that no one else arrives at.
    DistributeHourly {
        /// Hour index since bounty start (0–2159)
        epoch: u64,
        /// Staked verifiers who attested in the prior hour
        eligible_verifiers: Vec<Address>,
    },
    /// Update public node count
    UpdateNodeCount {
        /// Number of public nodes
        count: u32,
    },
}

/// Participant state
#[derive(Clone, Copy, Debug)]
pub struct Participant {
    /// Address
    pub address: Address,
    /// Stake amount
    pub stake: HclawAmount,
    /// Airdrop received
    pub airdrop: HclawAmount,
    /// Total bounties earned
    pub bounties_earned: HclawAmount,
    /// Join timestamp
    pub joined_at: u64,
}

/// What an action holds, as plain values.
pub enum ActionView {
    /// Join genesis with stake
    Join {
        /// Amount to stake
        stake: u128,
    },
    /// Distribute hourly bounty
    Distribute {
        /// Hour index since bounty start
        epoch: u64,
        /// The eligible verifiers, each as its bytes
        eligible: Seq<Seq<u8>>,
    },
    /// Update public node count
    Nodes {
        /// Number of public nodes
        count: u32,
    },
}

/// An action read off the front of a byte string: a 32-bit tag, then the
/// fields of the variant.
pub open spec fn read_action(bytes: Seq<u8>) -> Option<ActionView> {
    match read_u32(bytes) {
        Some((tag, rest)) => if tag == 0 {
            match read_amount(rest) {
                Some((stake, _)) => Some(ActionView::Join { stake: stake.0 }),
                None => None,
            }
        } else if tag == 1 {
            match read_u64(rest) {
                Some((epoch, after)) => match read_address_list(after) {
                    Some((eligible, _)) => Some(ActionView::Distribute { epoch, eligible }),
                    None => None,
                },
                None => None,
            }
        } else if tag == 2 {
            match read_u32(rest) {
                Some((count, _)) => Some(ActionView::Nodes { count }),
                None => None,
            }
        } else {
            None
        },
        None => None,
    }
}

impl View for BountyAction {
    type V = ActionView;

    open spec fn view(&self) -> ActionView {
        match self {
            BountyAction::JoinGenesis { stake } => ActionView::Join { stake: stake.0 },
            BountyAction::DistributeHourly {
                epoch,
                eligible_verifiers,
            } => ActionView::Distribute {
                epoch: *epoch,
                eligible: address_views(eligible_verifiers@),
            },
            BountyAction::UpdateNodeCount { count } => ActionView::Nodes { count: *count },
        }
    }
}

impl BountyAction {
    /// The bytes of the action.
    pub open spec fn spec_encode(&self) -> Seq<u8> {
        match self {
            BountyAction::JoinGenesis { stake } => vstd::bytes::spec_u32_to_le_bytes(0)
                + vstd::bytes::spec_u128_to_le_bytes(stake.0),
            BountyAction::DistributeHourly {
                epoch,
                eligible_verifiers,
            } => vstd::bytes::spec_u32_to_le_bytes(1) + vstd::bytes::spec_u64_to_le_bytes(*epoch)
                + address_list_bytes(eligible_verifiers@),
            BountyAction::UpdateNodeCount { count } => vstd::bytes::spec_u32_to_le_bytes(2)
                + vstd::bytes::spec_u32_to_le_bytes(*count),
        }
    }

    /// Write the action as bytes.
    pub fn encode(&self) -> (r: Vec<u8>)
        ensures
            r@ == self.spec_encode(),
    {
        let mut out: Vec<u8> = Vec::new();
        match self {
            BountyAction::JoinGenesis { stake } => {
                push_u32_le(&mut out, 0);
                push_amount(&mut out, *stake);
            },
            BountyAction::DistributeHourly { epoch, eligible_verifiers } => {
                push_u32_le(&mut out, 1);
                push_u64_le(&mut out, *epoch);
                push_address_list(&mut out, eligible_verifiers.as_slice());
            },
            BountyAction::UpdateNodeCount { count } => {
                push_u32_le(&mut out, 2);
                push_u32_le(&mut out, *count);
            },
        }
        assert(out@ =~= self.spec_encode());
        out
    }

    /// Read an action from the front of `input`; what follows it is ignored.
    pub fn decode(input: &[u8]) -> (r: Option<Self>)
        ensures
            match read_action(input@) {
                Some(action) => r is Some && r->Some_0@ == action,
                None => r is None,
            },
    {
        let mut reader = Reader::new(input);
        let tag = match reader.u32() {
            Some(t) => t,
            None => {
                return None;
            },
        };
        if tag == 0 {
            match reader.amount() {
                Some(stake) => Some(BountyAction::JoinGenesis { stake }),
                None => None,
            }
        } else if tag == 1 {
            let epoch = match reader.u64() {
                Some(e) => e,
                None => {
                    return None;
                },
            };
            match reader.address_list() {
                Some(eligible_verifiers) => Some(
                    BountyAction::DistributeHourly { epoch, eligible_verifiers },
                ),
                None => None,
            }
        } else if tag == 2 {
            match reader.u32() {
                Some(count) => Some(BountyAction::UpdateNodeCount { count }),
                None => None,
            }
        } else {
            None
        }
    }
}

/// An action is read back from its bytes, whatever follows them.
pub proof fn lemma_action_round_trip(action: BountyAction, tail: Seq<u8>)
    requires
        action matches BountyAction::DistributeHourly { eligible_verifiers, .. }
            ==> eligible_verifiers@.len() <= u64::MAX,
    ensures
        read_action(action.spec_encode() + tail) == Some(action@),
{
    match action {
        BountyAction::JoinGenesis { stake } => {
            let body = vstd::bytes::spec_u128_to_le_bytes(stake.0) + tail;
            assert(action.spec_encode() + tail =~= vstd::bytes::spec_u32_to_le_bytes(0) + body);
            super::codec::lemma_read_u32(0, body);
            super::codec::lemma_read_u128(stake.0, tail);
        },
        BountyAction::DistributeHourly { epoch, eligible_verifiers } => {
            let list = crate::encoding::address_bytes(eligible_verifiers@) + tail;
            let counted = vstd::bytes::spec_u64_to_le_bytes(eligible_verifiers@.len() as u64)
                + list;
            let body = vstd::bytes::spec_u64_to_le_bytes(epoch) + counted;
            assert(action.spec_encode() + tail =~= vstd::bytes::spec_u32_to_le_bytes(1) + body);
            super::codec::lemma_read_u32(1, body);
            super::codec::lemma_read_u64(epoch, counted);
            super::codec::lemma_read_u64(eligible_verifiers@.len() as u64, list);
            super::codec::lemma_read_addresses(eligible_verifiers@, tail);
        },
        BountyAction::UpdateNodeCount { count } => {
            let body = vstd::bytes::spec_u32_to_le_bytes(count) + tail;
            assert(action.spec_encode() + tail =~= vstd::bytes::spec_u32_to_le_bytes(2) + body);
            super::codec::lemma_read_u32(2, body);
            super::codec::lemma_read_u32(count, tail);
        },
    }
}

/// What a participant record holds, as plain values.
pub struct ParticipantView {
    /// Address, as its bytes
    pub address: Seq<u8>,
    /// Stake amount
    pub stake: u128,
    /// Airdrop received
    pub airdrop: u128,
    /// Total bounties earned
    pub bounties_earned: u128,
    /// Join timestamp
    pub joined_at: u64,
}

/// A participant record read off the front of a byte string.
pub open spec fn read_participant(bytes: Seq<u8>) -> Option<ParticipantView> {
    match read_address(bytes) {
        Some((address, r1)) => match read_amount(r1) {
            Some((stake, r2)) => match read_amount(r2) {
                Some((airdrop, r3)) => match read_amount(r3) {
                    Some((bounties_earned, r4)) => match read_u64(r4) {
                        Some((joined_at, _)) => Some(
                            ParticipantView {
                                address,
                                stake: stake.0,
                                airdrop: airdrop.0,
                                bounties_earned: bounties_earned.0,
                                joined_at,
                            },
                        ),
                        None => None,
                    },
                    None => None,
                },
                None => None,
            },
            None => None,
        },
        None => None,
    }
}

impl View for Participant {
    type V = ParticipantView;

    open spec fn view(&self) -> ParticipantView {
        ParticipantView {
            address: self.address.0@,
            stake: self.stake.0,
            airdrop: self.airdrop.0,
            bounties_earned: self.bounties_earned.0,
            joined_at: self.joined_at,
        }
    }
}

impl Participant {
    /// The bytes of the record.
    pub open spec fn spec_encode(&self) -> Seq<u8> {
        self.address.0@ + vstd::bytes::spec_u128_to_le_bytes(self.stake.0)
            + vstd::bytes::spec_u128_to_le_bytes(self.airdrop.0)
            + vstd::bytes::spec_u128_to_le_bytes(self.bounties_earned.0)
            + vstd::bytes::spec_u64_to_le_bytes(self.joined_at)
    }

    /// Write the record as bytes.
    pub fn encode(&self) -> (r: Vec<u8>)
        ensures
            r@ == self.spec_encode(),
    {
        let mut out: Vec<u8> = Vec::new();
        push_bytes(&mut out, self.address.0.as_slice());
        push_amount(&mut out, self.stake);
        push_amount(&mut out, self.airdrop);
        push_amount(&mut out, self.bounties_earned);
        push_u64_le(&mut out, self.joined_at);
        assert(out@ =~= self.spec_encode());
        out
    }

    /// Read a record from the front of `input`; what follows it is ignored.
    pub fn decode(input: &[u8]) -> (r: Option<Self>)
        ensures
            match read_participant(input@) {
                Some(record) => r is Some && r->Some_0@ == record,
                None => r is None,
            },
    {
        let mut reader = Reader::new(input);
        let address = match reader.address() {
            Some(v) => v,
            None => {
                return None;
            },
        };
        let stake = match reader.amount() {
            Some(v) => v,
            None => {
                return None;
            },
        };
        let airdrop = match reader.amount() {
            Some(v) => v,
            None => {
                return None;
            },
        };
        let bounties_earned = match reader.amount() {
            Some(v) => v,
            None => {
                return None;
            },
        };
        let joined_at = match reader.u64() {
            Some(v) => v,
            None => {
                return None;
            },
        };
        Some(Participant { address, stake, airdrop, bounties_earned, joined_at })
    }
}

/// A participant record is read back from its bytes.
pub proof fn lemma_participant_round_trip(record: Participant, tail: Seq<u8>)
    ensures
        read_participant(record.spec_encode() + tail) == Some(record@),
{
    let joined = vstd::bytes::spec_u64_to_le_bytes(record.joined_at) + tail;
    let earned = vstd::bytes::spec_u128_to_le_bytes(record.bounties_earned.0) + joined;
    let airdrop = vstd::bytes::spec_u128_to_le_bytes(record.airdrop.0) + earned;
    let stake = vstd::bytes::spec_u128_to_le_bytes(record.stake.0) + airdrop;
    assert(record.spec_encode() + tail =~= record.address.0@ + stake);
    super::codec::lemma_read_address(record.address, stake);
    super::codec::lemma_read_u128(record.stake.0, airdrop);
    super::codec::lemma_read_u128(record.airdrop.0, earned);
    super::codec::lemma_read_u128(record.bounties_earned.0, joined);
    super::codec::lemma_read_u64(record.joined_at, tail);
}

/// The bytes of a bounty tracker.
pub open spec fn tracker_bytes(tracker: BountyTracker) -> Seq<u8> {
    vstd::bytes::spec_u64_to_le_bytes(tracker.last_distributed_epoch)
        + vstd::bytes::spec_u128_to_le_bytes(tracker.total_paid.0)
        + vstd::bytes::spec_u128_to_le_bytes(tracker.total_burned.0)
        + vstd::bytes::spec_u64_to_le_bytes(tracker.start_time) + vstd::bytes::spec_u32_to_le_bytes(
        tracker.public_node_count,
    )
}

/// A bounty tracker read off the front of a byte string.
pub open spec fn read_tracker(bytes: Seq<u8>) -> Option<BountyTracker> {
    match read_u64(bytes) {
        Some((last_distributed_epoch, r1)) => match read_amount(r1) {
            Some((total_paid, r2)) => match read_amount(r2) {
                Some((total_burned, r3)) => match read_u64(r3) {
                    Some((start_time, r4)) => match read_u32(r4) {
                        Some((public_node_count, _)) => Some(
                            BountyTracker {
                                last_distributed_epoch,
                                total_paid,
                                total_burned,
                                start_time,
                                public_node_count,
                            },
                        ),
                        None => None,
                    },
                    None => None,
                },
                None => None,
            },
            None => None,
        },
        None => None,
    }
}

/// Write a bounty tracker as bytes.
pub fn encode_tracker(tracker: &BountyTracker) -> (r: Vec<u8>)
    ensures
        r@ == tracker_bytes(*tracker),
{
    let mut out: Vec<u8> = Vec::new();
    push_u64_le(&mut out, tracker.last_distributed_epoch);
    push_amount(&mut out, tracker.total_paid);
    push_amount(&mut out, tracker.total_burned);
    push_u64_le(&mut out, tracker.start_time);
    push_u32_le(&mut out, tracker.public_node_count);
    assert(out@ =~= tracker_bytes(*tracker));
    out
}

/// Read a bounty tracker from the front of `input`.
pub fn decode_tracker(input: &[u8]) -> (r: Option<BountyTracker>)
    ensures
        r == read_tracker(input@),
{
    let mut reader = Reader::new(input);
    let last_distributed_epoch = match reader.u64() {
        Some(v) => v,
        None => {
            return None;
        },
    };
    let total_paid = match reader.amount() {
        Some(v) => v,
        None => {
            return None;
        },
    };
    let total_burned = match reader.amount() {
        Some(v) => v,
        None => {
            return None;
        },
    };
    let start_time = match reader.u64() {
        Some(v) => v,
        None => {
            return None;
        },
    };
    let public_node_count = match reader.u32() {
        Some(v) => v,
        None => {
            return None;
        },
    };
    Some(
        BountyTracker {
            last_distributed_epoch,
            total_paid,
            total_burned,
            start_time,
            public_node_count,
        },
    )
}

/// A bounty tracker is read back from its bytes.
pub proof fn lemma_tracker_round_trip(tracker: BountyTracker, tail: Seq<u8>)
    ensures
        read_tracker(tracker_bytes(tracker) + tail) == Some(tracker),
{
    let nodes = vstd::bytes::spec_u32_to_le_bytes(tracker.public_node_count) + tail;
    let start = vstd::bytes::spec_u64_to_le_bytes(tracker.start_time) + nodes;
    let burned = vstd::bytes::spec_u128_to_le_bytes(tracker.total_burned.0) + start;
    let paid = vstd::bytes::spec_u128_to_le_bytes(tracker.total_paid.0) + burned;
    assert(tracker_bytes(tracker) + tail =~= vstd::bytes::spec_u64_to_le_bytes(
        tracker.last_distributed_epoch,
    ) + paid);
    super::codec::lemma_read_u64(tracker.last_distributed_epoch, paid);
    super::codec::lemma_read_u128(tracker.total_paid.0, burned);
    super::codec::lemma_read_u128(tracker.total_burned.0, start);
    super::codec::lemma_read_u64(tracker.start_time, nodes);
    super::codec::lemma_read_u32(tracker.public_node_count, tail);
}

/// What a deployment configuration holds, as plain values.
pub struct ConfigView {
    /// Standard airdrop amount per participant
    pub airdrop_amount: u128,
    /// Founder airdrop amount for pre-approved wallets
    pub founder_airdrop_amount: u128,
    /// Maximum participants allowed
    pub max_participants: u32,
    /// Pre-approved addresses, each as its bytes
    pub pre_approved: Seq<Seq<u8>>,
    /// Bootstrap node addresses, each as its bytes
    pub bootstrap_nodes: Seq<Seq<u8>>,
    /// Tokens per bootstrap node
    pub bootstrap_node_tokens: u128,
    /// Domain to resolve bootstrap nodes from
    pub domain: Seq<char>,
    /// Maximum additional nodes that can be authorized
    pub max_nodes: u32,
    /// Tokens per DNS bootstrap node
    pub tokens_each: u128,
    /// Vesting period
    pub vesting_ms: i64,
    /// Authority public key, as its bytes
    pub authority_key: Seq<u8>,
    /// Bootstrap period end timestamp
    pub bootstrap_end: u64,
}

impl View for GenesisDeploymentConfig {
    type V = ConfigView;

    open spec fn view(&self) -> ConfigView {
        ConfigView {
            airdrop_amount: self.airdrop_amount.0,
            founder_airdrop_amount: self.founder_airdrop_amount.0,
            max_participants: self.max_participants,
            pre_approved: address_views(self.pre_approved@),
            bootstrap_nodes: address_views(self.bootstrap_nodes@),
            bootstrap_node_tokens: self.bootstrap_node_tokens.0,
            domain: self.dns_break_glass.domain@,
            max_nodes: self.dns_break_glass.max_nodes,
            tokens_each: self.dns_break_glass.tokens_each.0,
            vesting_ms: self.dns_break_glass.vesting_ms,
            authority_key: self.dns_break_glass.authority_key@,
            bootstrap_end: self.bootstrap_end,
        }
    }
}

/// The break-glass part of a configuration and the end of the bootstrap
/// period, read off the front of a byte string and joined to the fields that
/// were read before them. The authority key must have the size of a public
/// key.
pub open spec fn read_config_end(head: ConfigView, bytes: Seq<u8>) -> Option<ConfigView> {
    match read_text(bytes) {
        Some((domain, r1)) => match read_u32(r1) {
            Some((max_nodes, r2)) => match read_u128(r2) {
                Some((tokens_each, r3)) => match read_u64(r3) {
                    Some((vesting, r4)) => match read_blob(r4) {
                        Some((authority_key, r5)) => if authority_key.len()
                            == crate::crypto::signature::PUBKEY_SIZE {
                            match read_u64(r5) {
                                Some((bootstrap_end, _)) => Some(
                                    ConfigView {
                                        domain,
                                        max_nodes,
                                        tokens_each,
                                        vesting_ms: vesting as i64,
                                        authority_key,
                                        bootstrap_end,
                                        ..head
                                    },
                                ),
                                None => None,
                            }
                        } else {
                            None
                        },
                        None => None,
                    },
                    None => None,
                },
                None => None,
            },
            None => None,
        },
        None => None,
    }
}

/// A configuration read off the front of a byte string.
pub open spec fn read_config(bytes: Seq<u8>) -> Option<ConfigView> {
    match read_u128(bytes) {
        Some((airdrop_amount, r1)) => match read_u128(r1) {
            Some((founder_airdrop_amount, r2)) => match read_u32(r2) {
                Some((max_participants, r3)) => match read_address_list(r3) {
                    Some((pre_approved, r4)) => match read_address_list(r4) {
                        Some((bootstrap_nodes, r5)) => match read_u128(r5) {
                            Some((bootstrap_node_tokens, r6)) => read_config_end(
                                ConfigView {
                                    airdrop_amount,
                                    founder_airdrop_amount,
                                    max_participants,
                                    pre_approved,
                                    bootstrap_nodes,
                                    bootstrap_node_tokens,
                                    domain: Seq::empty(),
                                    max_nodes: 0,
                                    tokens_each: 0,
                                    vesting_ms: 0,
                                    authority_key: Seq::empty(),
                                    bootstrap_end: 0,
                                },
                                r6,
                            ),
                            None => None,
                        },
                        None => None,
                    },
                    None => None,
                },
                None => None,
            },
            None => None,
        },
        None => None,
    }
}

/// A list of addresses with its length in front is read back from its
/// bytes.
proof fn lemma_read_address_list(list: Seq<Address>, tail: Seq<u8>)
    requires
        list.len() <= u64::MAX,
    ensures
        read_address_list(address_list_bytes(list) + tail) == Some((address_views(list), tail)),
{
    let body = crate::encoding::address_bytes(list) + tail;
    assert(address_list_bytes(list) + tail =~= vstd::bytes::spec_u64_to_le_bytes(
        list.len() as u64,
    ) + body);
    super::codec::lemma_read_u64(list.len() as u64, body);
    super::codec::lemma_read_addresses(list, tail);
}

/// The front of a configuration is read back from its bytes.
proof fn lemma_config_front_round_trip(config: GenesisDeploymentConfig, rest: Seq<u8>)
    requires
        config.pre_approved@.len() <= u64::MAX,
        config.bootstrap_nodes@.len() <= u64::MAX,
    ensures
        ({
            let t5 = vstd::bytes::spec_u128_to_le_bytes(config.bootstrap_node_tokens.0) + rest;
            let t4 = address_list_bytes(config.bootstrap_nodes@) + t5;
            let t3 = address_list_bytes(config.pre_approved@) + t4;
            let t2 = vstd::bytes::spec_u32_to_le_bytes(config.max_participants) + t3;
            let t1 = vstd::bytes::spec_u128_to_le_bytes(config.founder_airdrop_amount.0) + t2;
            let t0 = vstd::bytes::spec_u128_to_le_bytes(config.airdrop_amount.0) + t1;
            &&& config.front_bytes() + rest == t0
            &&& read_u128(t0) == Some((config.airdrop_amount.0, t1))
            &&& read_u128(t1) == Some((config.founder_airdrop_amount.0, t2))
            &&& read_u32(t2) == Some((config.max_participants, t3))
            &&& read_address_list(t3) == Some((address_views(config.pre_approved@), t4))
            &&& read_address_list(t4) == Some((address_views(config.bootstrap_nodes@), t5))
            &&& read_u128(t5) == Some((config.bootstrap_node_tokens.0, rest))
        }),
{
    let t5 = vstd::bytes::spec_u128_to_le_bytes(config.bootstrap_node_tokens.0) + rest;
    let t4 = address_list_bytes(config.bootstrap_nodes@) + t5;
    let t3 = address_list_bytes(config.pre_approved@) + t4;
    let t2 = vstd::bytes::spec_u32_to_le_bytes(config.max_participants) + t3;
    let t1 = vstd::bytes::spec_u128_to_le_bytes(config.founder_airdrop_amount.0) + t2;
    super::codec::lemma_joined_six(
        vstd::bytes::spec_u128_to_le_bytes(config.airdrop_amount.0),
        vstd::bytes::spec_u128_to_le_bytes(config.founder_airdrop_amount.0),
        vstd::bytes::spec_u32_to_le_bytes(config.max_participants),
        address_list_bytes(config.pre_approved@),
        address_list_bytes(config.bootstrap_nodes@),
        vstd::bytes::spec_u128_to_le_bytes(config.bootstrap_node_tokens.0),
        rest,
    );
    super::codec::lemma_read_u128(config.airdrop_amount.0, t1);
    super::codec::lemma_read_u128(config.founder_airdrop_amount.0, t2);
    super::codec::lemma_read_u32(config.max_participants, t3);
    lemma_read_address_list(config.pre_approved@, t4);
    lemma_read_address_list(config.bootstrap_nodes@, t5);
    super::codec::lemma_read_u128(config.bootstrap_node_tokens.0, rest);
}

/// The end of a configuration is read back from its bytes.
proof fn lemma_config_end_round_trip(config: GenesisDeploymentConfig, tail: Seq<u8>)
    requires
        vstd::utf8::encode_utf8(config.dns_break_glass.domain@).len() <= u64::MAX,
        config.dns_break_glass.authority_key@.len() == crate::crypto::signature::PUBKEY_SIZE,
    ensures
        ({
            let t5 = vstd::bytes::spec_u64_to_le_bytes(config.bootstrap_end) + tail;
            let t4 = super::codec::blob_bytes(config.dns_break_glass.authority_key@) + t5;
            let t3 = crate::encoding::spec_i64_to_le_bytes(config.dns_break_glass.vesting_ms) + t4;
            let t2 = vstd::bytes::spec_u128_to_le_bytes(config.dns_break_glass.tokens_each.0) + t3;
            let t1 = vstd::bytes::spec_u32_to_le_bytes(config.dns_break_glass.max_nodes) + t2;
            let t0 = super::codec::text_field_bytes(config.dns_break_glass.domain@) + t1;
            &&& config.end_bytes() + tail == t0
            &&& read_text(t0) == Some((config.dns_break_glass.domain@, t1))
            &&& read_u32(t1) == Some((config.dns_break_glass.max_nodes, t2))
            &&& read_u128(t2) == Some((config.dns_break_glass.tokens_each.0, t3))
            &&& read_u64(t3) == Some((config.dns_break_glass.vesting_ms as u64, t4))
            &&& (config.dns_break_glass.vesting_ms as u64) as i64
                == config.dns_break_glass.vesting_ms
            &&& read_blob(t4) == Some((config.dns_break_glass.authority_key@, t5))
            &&& read_u64(t5) == Some((config.bootstrap_end, tail))
        }),
{
    let vesting = config.dns_break_glass.vesting_ms;
    let t5 = vstd::bytes::spec_u64_to_le_bytes(config.bootstrap_end) + tail;
    let t4 = super::codec::blob_bytes(config.dns_break_glass.authority_key@) + t5;
    let t3 = crate::encoding::spec_i64_to_le_bytes(vesting) + t4;
    let t2 = vstd::bytes::spec_u128_to_le_bytes(config.dns_break_glass.tokens_each.0) + t3;
    let t1 = vstd::bytes::spec_u32_to_le_bytes(config.dns_break_glass.max_nodes) + t2;
    super::codec::lemma_joined_six(
        super::codec::text_field_bytes(config.dns_break_glass.domain@),
        vstd::bytes::spec_u32_to_le_bytes(config.dns_break_glass.max_nodes),
        vstd::bytes::spec_u128_to_le_bytes(config.dns_break_glass.tokens_each.0),
        crate::encoding::spec_i64_to_le_bytes(vesting),
        super::codec::blob_bytes(config.dns_break_glass.authority_key@),
        vstd::bytes::spec_u64_to_le_bytes(config.bootstrap_end),
        tail,
    );
    super::codec::lemma_read_text(config.dns_break_glass.domain@, t1);
    super::codec::lemma_read_u32(config.dns_break_glass.max_nodes, t2);
    super::codec::lemma_read_u128(config.dns_break_glass.tokens_each.0, t3);
    super::codec::lemma_read_u64(vesting as u64, t4);
    assert((vesting as u64) as i64 == vesting) by (bit_vector);
    super::codec::lemma_read_blob(config.dns_break_glass.authority_key@, t5);
    super::codec::lemma_read_u64(config.bootstrap_end, tail);
}

/// A configuration is read back from its bytes, whatever follows them.
pub proof fn lemma_config_round_trip(config: GenesisDeploymentConfig, tail: Seq<u8>)
    requires
        config.pre_approved@.len() <= u64::MAX,
        config.bootstrap_nodes@.len() <= u64::MAX,
        vstd::utf8::encode_utf8(config.dns_break_glass.domain@).len() <= u64::MAX,
        config.dns_break_glass.authority_key@.len() == crate::crypto::signature::PUBKEY_SIZE,
    ensures
        read_config(config.spec_encode() + tail) == Some(config@),
{
    let back = config.end_bytes() + tail;
    assert(config.spec_encode() + tail == config.front_bytes() + back) by {
        assert(config.spec_encode() + tail =~= config.front_bytes() + back);
    }
    lemma_config_front_round_trip(config, back);
    lemma_config_end_round_trip(config, tail);
}

impl GenesisDeploymentConfig {
    /// The bytes of the front of the configuration: the airdrops, the limit,
    /// the two lists and the tokens of a bootstrap node.
    pub open spec fn front_bytes(&self) -> Seq<u8> {
        vstd::bytes::spec_u128_to_le_bytes(self.airdrop_amount.0)
            + vstd::bytes::spec_u128_to_le_bytes(self.founder_airdrop_amount.0)
            + vstd::bytes::spec_u32_to_le_bytes(self.max_participants) + address_list_bytes(
            self.pre_approved@,
        ) + address_list_bytes(self.bootstrap_nodes@) + vstd::bytes::spec_u128_to_le_bytes(
            self.bootstrap_node_tokens.0,
        )
    }

    /// The bytes of the end of the configuration: the break-glass part and
    /// the end of the bootstrap period.
    pub open spec fn end_bytes(&self) -> Seq<u8> {
        super::codec::text_field_bytes(self.dns_break_glass.domain@)
            + vstd::bytes::spec_u32_to_le_bytes(self.dns_break_glass.max_nodes)
            + vstd::bytes::spec_u128_to_le_bytes(self.dns_break_glass.tokens_each.0)
            + crate::encoding::spec_i64_to_le_bytes(self.dns_break_glass.vesting_ms)
            + super::codec::blob_bytes(self.dns_break_glass.authority_key@)
            + vstd::bytes::spec_u64_to_le_bytes(self.bootstrap_end)
    }

    /// The bytes of the configuration.
    pub open spec fn spec_encode(&self) -> Seq<u8> {
        self.front_bytes() + self.end_bytes()
    }

    /// Write the configuration as bytes.
    pub fn encode(&self) -> (r: Vec<u8>)
        ensures
            r@ == self.spec_encode(),
    {
        let mut out: Vec<u8> = Vec::new();
        push_amount(&mut out, self.airdrop_amount);
        push_amount(&mut out, self.founder_airdrop_amount);
        push_u32_le(&mut out, self.max_participants);
        push_address_list(&mut out, self.pre_approved.as_slice());
        push_address_list(&mut out, self.bootstrap_nodes.as_slice());
        push_amount(&mut out, self.bootstrap_node_tokens);
        push_text_field(&mut out, self.dns_break_glass.domain.as_str());
        push_u32_le(&mut out, self.dns_break_glass.max_nodes);
        push_amount(&mut out, self.dns_break_glass.tokens_each);
        crate::encoding::push_i64_le(&mut out, self.dns_break_glass.vesting_ms);
        push_blob(&mut out, self.dns_break_glass.authority_key.as_bytes());
        push_u64_le(&mut out, self.bootstrap_end);
        assert(out@ =~= self.spec_encode());
        out
    }

    /// Read a configuration from the front of `input`. Everything must be
    /// there, the domain must be UTF-8, and the authority key must have the
    /// size of a public key.
    pub fn decode(input: &[u8]) -> (r: Option<Self>)
        ensures
            match read_config(input@) {
                Some(config) => r is Some && r->Some_0@ == config,
                None => r is None,
            },
    {
        let mut reader = Reader::new(input);
        let airdrop_amount = match reader.amount() {
            Some(v) => v,
            None => {
                return None;
            },
        };
        let founder_airdrop_amount = match reader.amount() {
            Some(v) => v,
            None => {
                return None;
            },
        };
        let max_participants = match reader.u32() {
            Some(v) => v,
            None => {
                return None;
            },
        };
        let pre_approved = match reader.address_list() {
            Some(v) => v,
            None => {
                return None;
            },
        };
        let bootstrap_nodes = match reader.address_list() {
            Some(v) => v,
            None => {
                return None;
            },
        };
        let bootstrap_node_tokens = match reader.amount() {
            Some(v) => v,
            None => {
                return None;
            },
        };
        let domain = match reader.text() {
            Some(v) => v,
            None => {
                return None;
            },
        };
        let max_nodes = match reader.u32() {
            Some(v) => v,
            None => {
                return None;
            },
        };
        let tokens_each = match reader.amount() {
            Some(v) => v,
            None => {
                return None;
            },
        };
        let vesting_ms = match reader.u64() {
            Some(v) => v as i64,
            None => {
                return None;
            },
        };
        let key_bytes = match reader.blob() {
            Some(v) => v,
            None => {
                return None;
            },
        };
        let authority_key = match PublicKey::from_bytes(key_bytes.as_slice()) {
            Ok(k) => k,
            Err(_) => {
                return None;
            },
        };
        let bootstrap_end = match reader.u64() {
            Some(v) => v,
            None => {
                return None;
            },
        };
        Some(
            GenesisDeploymentConfig {
                airdrop_amount,
                founder_airdrop_amount,
                max_participants,
                pre_approved,
                bootstrap_nodes,
                bootstrap_node_tokens,
                dns_break_glass: DnsBreakGlassConfig {
                    domain,
                    max_nodes,
                    tokens_each,
                    vesting_ms,
                    authority_key,
                },
                bootstrap_end,
            },
        )
    }
}

/// Genesis bounty contract, fully storage-backed.
///
/// The struct holds only the fixed contract id; all mutable state lives in
/// contract storage.
#[derive(Clone, Copy, Debug)]
pub struct GenesisBountyContract {
    /// Contract ID
    id: Id,
    /// The first twenty bytes of the id
    home: [u8; 20],
}

/// The first twenty bytes of a contract id: the address under which the
/// contract keeps its storage.
pub open spec fn storage_address_of(id: Id) -> Seq<u8> {
    id.0@.subrange(0, 20)
}

/// The storage key of a participant: the prefix, then the address in
/// hexadecimal.
pub open spec fn spec_participant_key(address: Address) -> Seq<u8> {
    participant_key_of(address.0@)
}

/// An address is in a list exactly where its bytes are among the views.
proof fn lemma_listed(list: Seq<Address>, address: Address)
    ensures
        list.contains(address) == address_views(list).contains(address.0@),
{
    if list.contains(address) {
        let i = choose|i: int| 0 <= i < list.len() && list[i] == address;
        assert(address_views(list)[i] == address.0@);
    }
    if address_views(list).contains(address.0@) {
        let i = choose|i: int|
            0 <= i < address_views(list).len() && address_views(list)[i] == address.0@;
        assert(list[i].0 =~= address.0);
    }
}

/// The addresses with the bytes of some addresses are those addresses.
proof fn lemma_addresses_of(list: Seq<Address>)
    ensures
        addresses_of(address_views(list)) == list,
{
    assert forall|i: int| 0 <= i < list.len() implies addresses_of(address_views(list))[i]
        == list[i] by {
        lemma_address_of(list[i]);
    }
    assert(addresses_of(address_views(list)) =~= list);
}

/// The count that a stored byte string stands for: the 64-bit integer at its
/// front, and zero where there is none.
pub open spec fn stored_count(stored: Option<Seq<u8>>) -> u64 {
    match stored {
        Some(bytes) => match read_u64(bytes) {
            Some((count, _)) => count,
            None => 0,
        },
        None => 0,
    }
}

/// The participant record that a stored byte string stands for, if it
/// stands for one.
pub open spec fn stored_participant(stored: Option<Seq<u8>>) -> Option<ParticipantView> {
    match stored {
        Some(bytes) => read_participant(bytes),
        None => None,
    }
}

/// The bounty tracker that a stored byte string stands for: a fresh tracker
/// where there is none or the bytes do not decode.
pub open spec fn stored_tracker(stored: Option<Seq<u8>>) -> BountyTracker {
    let decoded = match stored {
        Some(bytes) => read_tracker(bytes),
        None => None,
    };
    match decoded {
        Some(tracker) => tracker,
        None => BountyTracker {
            last_distributed_epoch: u64::MAX,
            total_paid: HclawAmount(0),
            total_burned: HclawAmount(0),
            start_time: 0,
            public_node_count: 0,
        },
    }
}

/// What is saved is what is loaded: a stored participant record, bounty
/// tracker or count stands for the value that was written.
pub proof fn lemma_stored_values(participant: Participant, tracker: BountyTracker, count: u64)
    ensures
        stored_participant(Some(participant.spec_encode())) == Some(participant@),
        stored_tracker(Some(tracker_bytes(tracker))) == tracker,
        stored_count(Some(vstd::bytes::spec_u64_to_le_bytes(count))) == count,
{
    let none = Seq::<u8>::empty();
    lemma_participant_round_trip(participant, none);
    assert(participant.spec_encode() + none =~= participant.spec_encode());
    lemma_tracker_round_trip(tracker, none);
    assert(tracker_bytes(tracker) + none =~= tracker_bytes(tracker));
    super::codec::lemma_read_u64(count, none);
    assert(vstd::bytes::spec_u64_to_le_bytes(count) + none =~= vstd::bytes::spec_u64_to_le_bytes(
        count,
    ));
}

fn failed(message: &str) -> (r: ContractError)
    ensures
        r matches ContractError::ExecutionFailed(text) && text@ == message@,
{
    ContractError::ExecutionFailed(String::from_str(message))
}

fn key_bytes(key: &str) -> (r: Vec<u8>)
    ensures
        r@ == text_bytes(key@),
{
    copy_bytes(key.as_bytes())
}

impl GenesisBountyContract {
    #[verifier::type_invariant]
    spec fn home_is_front_of_id(self) -> bool {
        self.home@ == self.id.0@.subrange(0, 20)
    }

    /// Create new genesis bounty contract
    pub fn new(_start_time: i64) -> (r: Self)
        ensures
            r.contract_id() == spec_genesis_bounty_contract_id(),
            r.spec_address() == bounty_home(),
    {
        let id = genesis_bounty_contract_id();
        let home = Address::from_prefix(id.0.as_slice());
        proof {
            lemma_address_of(home);
        }
        GenesisBountyContract { id, home: home.0 }
    }

    /// What the contract has stored under a key.
    pub open spec fn stored(&self, state: &ContractState, key: Seq<u8>) -> Option<Seq<u8>> {
        state.journal().read(self.spec_address(), key)
    }

    /// The address under which the contract keeps its storage.
    pub closed spec fn spec_address(&self) -> Address {
        Address(self.home)
    }

    /// Address derived from the contract id, under which the contract keeps
    /// its storage
    pub fn address(&self) -> (r: Address)
        ensures
            r == self.spec_address(),
            r.0@ == storage_address_of(self.contract_id()),
    {
        proof {
            use_type_invariant(self);
        }
        Address(self.home)
    }

    /// The storage key of a participant
    pub fn participant_key(sender: &Address) -> (r: Vec<u8>)
        ensures
            r@ == spec_participant_key(*sender),
    {
        let mut key: Vec<u8> = Vec::new();
        push_text(&mut key, PARTICIPANT_PREFIX);
        let hex = hex_encode(sender.0.as_slice());
        push_text(&mut key, hex.as_str());
        key
    }

    /// The deployment configuration, read from storage. Fails where the
    /// contract has not been initialised or the stored bytes do not decode.
    pub fn load_config(&self, state: &ContractState) -> (r: ContractResult<GenesisDeploymentConfig>)
        ensures
            match stored_config(self.stored(state, text_bytes(KEY_CONFIG@))) {
                Some(config) => r is Ok && r->Ok_0@ == config,
                None => r is Err && r->Err_0 is ExecutionFailed,
            },
    {
        let key = key_bytes(KEY_CONFIG);
        let data = match state.storage_read(&self.address(), key.as_slice()) {
            Some(d) => d,
            None => {
                return Err(failed("Contract not initialized"));
            },
        };
        match GenesisDeploymentConfig::decode(data.as_slice()) {
            Some(c) => Ok(c),
            None => Err(failed("Config deserialization failed")),
        }
    }

    /// The participant count, read from storage; zero where there is none.
    pub fn load_participant_count(&self, state: &ContractState) -> (r: u64)
        ensures
            r == stored_count(self.stored(state, text_bytes(KEY_PARTICIPANT_COUNT@))),
    {
        let key = key_bytes(KEY_PARTICIPANT_COUNT);
        match state.storage_read(&self.address(), key.as_slice()) {
            Some(d) => {
                let mut reader = Reader::new(d.as_slice());
                match reader.u64() {
                    Some(n) => n,
                    None => 0,
                }
            },
            None => 0,
        }
    }

    /// Write the participant count to storage.
    pub fn save_participant_count(&self, state: &mut ContractState, count: u64)
        ensures
            final(state).base_accounts() == old(state).base_accounts(),
            final(state).base_storage() == old(state).base_storage(),
            final(state).journal() == old(state).journal().storage_write(
                self.spec_address(),
                text_bytes(KEY_PARTICIPANT_COUNT@),
                vstd::bytes::spec_u64_to_le_bytes(count),
            ),
    {
        let mut data: Vec<u8> = Vec::new();
        push_u64_le(&mut data, count);
        state.storage_write(self.address(), key_bytes(KEY_PARTICIPANT_COUNT), data);
    }

    /// The record of a participant, read from storage.
    pub fn load_participant(&self, state: &ContractState, sender: &Address) -> (r: Option<
        Participant,
    >)
        ensures
            match stored_participant(self.stored(state, spec_participant_key(*sender))) {
                Some(record) => r is Some && r->Some_0@ == record,
                None => r is None,
            },
    {
        let key = Self::participant_key(sender);
        match state.storage_read(&self.address(), key.as_slice()) {
            Some(d) => Participant::decode(d.as_slice()),
            None => None,
        }
    }

    /// Write the record of a participant to storage.
    pub fn save_participant(&self, state: &mut ContractState, participant: &Participant) -> (r:
        ContractResult<()>)
        ensures
            r is Ok,
            final(state).base_accounts() == old(state).base_accounts(),
            final(state).base_storage() == old(state).base_storage(),
            final(state).journal() == old(state).journal().storage_write(
                self.spec_address(),
                spec_participant_key(participant.address),
                participant.spec_encode(),
            ),
    {
        let key = Self::participant_key(&participant.address);
        state.storage_write(self.address(), key, participant.encode());
        Ok(())
    }

    /// The bounty tracker, read from storage; a fresh one where there is
    /// none.
    pub fn load_bounty_tracker(&self, state: &ContractState) -> (r: BountyTracker)
        ensures
            r == stored_tracker(self.stored(state, text_bytes(KEY_BOUNTY_TRACKER@))),
    {
        let key = key_bytes(KEY_BOUNTY_TRACKER);
        let stored = match state.storage_read(&self.address(), key.as_slice()) {
            Some(d) => decode_tracker(d.as_slice()),
            None => None,
        };
        match stored {
            Some(t) => t,
            None => BountyTracker::new(0),
        }
    }

    /// Write the bounty tracker to storage.
    pub fn save_bounty_tracker(&self, state: &mut ContractState, tracker: &BountyTracker) -> (r:
        ContractResult<()>)
        ensures
            r is Ok,
            final(state).base_accounts() == old(state).base_accounts(),
            final(state).base_storage() == old(state).base_storage(),
            final(state).journal() == old(state).journal().storage_write(
                self.spec_address(),
                text_bytes(KEY_BOUNTY_TRACKER@),
                tracker_bytes(*tracker),
            ),
    {
        state.storage_write(self.address(), key_bytes(KEY_BOUNTY_TRACKER), encode_tracker(tracker));
        Ok(())
    }

    /// Parse action from transaction input
    pub fn parse_action(input: &[u8]) -> (r: ContractResult<BountyAction>)
        ensures
            match read_action(input@) {
                Some(action) => r is Ok && r->Ok_0@ == action,
                None => r is Err && r->Err_0 is InvalidTransaction,
            },
    {
        match BountyAction::decode(input) {
            Some(a) => Ok(a),
            None => Err(ContractError::InvalidTransaction(String::from_str("Failed to parse action"))),
        }
    }

    /// Join genesis.
    ///
    /// A founder joins without a stake and receives the founder airdrop;
    /// anyone else stakes at least the minimum, which is debited, and
    /// receives the standard airdrop. Joining twice, or once the
    /// participant limit is reached, is refused.
    pub fn execute_join(
        &self,
        state: &mut ContractState,
        sender: Address,
        stake_amount: HclawAmount,
        now: u64,
    ) -> (r: ContractResult<()>)
        ensures
            final(state).base_accounts() == old(state).base_accounts(),
            final(state).base_storage() == old(state).base_storage(),
            r.is_ok() == can_join(old(state).journal(), self.spec_address(), sender, stake_amount.0),
            r is Ok ==> final(state).journal() == after_join(
                old(state).journal(),
                self.spec_address(),
                self.contract_id(),
                sender,
                stake_amount.0,
                now,
            ),
            r is Err ==> final(state).journal() == old(state).journal() && (r->Err_0 is ExecutionFailed
                || r->Err_0 is InsufficientBalance),
    {
        let config = match self.load_config(state) {
            Ok(c) => c,
            Err(e) => {
                return Err(e);
            },
        };
        if self.load_participant(state, &sender).is_some() {
            return Err(failed("Already joined genesis"));
        }
        let participant_count = self.load_participant_count(state);
        if participant_count >= config.max_participants as u64 {
            return Err(failed("Maximum participants reached"));
        }
        let is_founder = contains_address(config.pre_approved.as_slice(), &sender);
        proof {
            lemma_listed(config.pre_approved@, sender);
        }
        if !is_founder {
            let min_stake = HclawAmount::from_hclaw(MIN_STAKE);
            if stake_amount.0 < min_stake.0 {
                return Err(
                    ContractError::ExecutionFailed(
                        String::from_str("Stake ").concat(
                            decimal_text_wide(stake_amount.0).as_str(),
                        ).concat(" below minimum ").concat(
                            decimal_text_wide(min_stake.0).as_str(),
                        ),
                    ),
                );
            }
            match state.debit(sender, stake_amount) {
                Ok(()) => {},
                Err(e) => {
                    return Err(e);
                },
            }
        }
        let airdrop = if is_founder {
            config.founder_airdrop_amount
        } else {
            config.airdrop_amount
        };
        state.credit(sender, airdrop);
        let participant = Participant {
            address: sender,
            stake: stake_amount,
            airdrop,
            bounties_earned: HclawAmount::zero(),
            joined_at: now,
        };
        let _ = self.save_participant(state, &participant);
        self.save_participant_count(state, participant_count + 1);
        let mut event_data: Vec<u8> = Vec::new();
        push_bytes(&mut event_data, sender.0.as_slice());
        push_amount(&mut event_data, stake_amount);
        assert(event_data@ =~= sender.0@ + vstd::bytes::spec_u128_to_le_bytes(stake_amount.0));
        state.emit_event(
            ContractEvent {
                contract_id: self.id,
                topic: String::from_str(TOPIC_PARTICIPANT_JOINED),
                data: event_data,
            },
        );
        Ok(())
    }

    /// Distribute the bounty of one hour.
    ///
    /// Refused while bounties are not active and for any epoch but the next
    /// one. Without eligible verifiers, or with an empty budget, the hour's
    /// budget is burned. Otherwise every eligible verifier must be a
    /// participant with a stake; the budget is spread evenly over them and
    /// what is left over is burned.
    #[verifier::loop_isolation(false)]
    pub fn execute_distribute_hourly(
        &self,
        state: &mut ContractState,
        epoch: u64,
        eligible_verifiers: Vec<Address>,
    ) -> (r: ContractResult<()>)
        ensures
            final(state).base_accounts() == old(state).base_accounts(),
            final(state).base_storage() == old(state).base_storage(),
            r.is_ok() == can_distribute(
                old(state).journal(),
                self.spec_address(),
                epoch,
                eligible_verifiers@,
            ),
            r is Ok ==> final(state).journal() == after_distribution(
                old(state).journal(),
                self.spec_address(),
                self.contract_id(),
                epoch,
                eligible_verifiers@,
            ),
            r is Err ==> final(state).journal() == old(state).journal() && r->Err_0 is ExecutionFailed,
    {
        let ghost home = self.spec_address();
        let ghost start = state.journal();
        let mut tracker = self.load_bounty_tracker(state);
        if !tracker.is_active() {
            return Err(
                failed(
                    String::from_str("Bounties not active (need ").concat(
                        decimal_text(crate::genesis::bounty::MIN_PUBLIC_NODES as u64).as_str(),
                    ).concat(" public nodes, have ").concat(
                        decimal_text(tracker.public_node_count as u64).as_str(),
                    ).concat(")").as_str(),
                ),
            );
        }
        if !tracker.is_next_epoch(epoch) {
            return Err(
                failed(
                    String::from_str("Epoch ").concat(decimal_text(epoch).as_str()).concat(
                        " is not the next expected epoch",
                    ).as_str(),
                ),
            );
        }
        let day = day_from_epoch(epoch);
        let hourly_budget = calculate_hourly_budget(day);
        if eligible_verifiers.len() == 0 || hourly_budget.raw() == 0 {
            tracker.record_distribution(epoch, HclawAmount::zero());
            tracker.record_burn(hourly_budget);
            let _ = self.save_bounty_tracker(state, &tracker);
            let mut event_data: Vec<u8> = Vec::new();
            push_u64_le(&mut event_data, epoch);
            push_bytes(&mut event_data, [day].as_slice());
            push_amount(&mut event_data, hourly_budget);
            assert(event_data@ =~= vstd::bytes::spec_u64_to_le_bytes(epoch) + seq![day_of(epoch)]
                + vstd::bytes::spec_u128_to_le_bytes(budget_of(epoch)));
            state.emit_event(
                ContractEvent {
                    contract_id: self.id,
                    topic: String::from_str(TOPIC_HOURLY_BURNED),
                    data: event_data,
                },
            );
            return Ok(());
        }
        let mut i: usize = 0;
        while i < eligible_verifiers.len()
            invariant
                0 <= i <= eligible_verifiers@.len(),
                state.journal() == start,
                state.base_accounts() == old(state).base_accounts(),
                state.base_storage() == old(state).base_storage(),
                forall|j: int| 0 <= j < i ==> is_staked(start, home, #[trigger] eligible_verifiers@[j]),
            decreases eligible_verifiers@.len() - i,
        {
            match self.load_participant(state, &eligible_verifiers[i]) {
                None => {
                    assert(!is_staked(start, home, eligible_verifiers@[i as int]));
                    return Err(
                        failed(
                            String::from_str("Address ").concat(
                                hex_encode(eligible_verifiers[i].0.as_slice()).as_str(),
                            ).concat(" is not a participant").as_str(),
                        ),
                    );
                },
                Some(p) => {
                    if p.stake.raw() == 0 {
                        assert(!is_staked(start, home, eligible_verifiers@[i as int]));
                        return Err(
                            failed(
                                String::from_str("Address ").concat(
                                    hex_encode(eligible_verifiers[i].0.as_slice()).as_str(),
                                ).concat(" has zero stake").as_str(),
                            ),
                        );
                    }
                },
            }
            i += 1;
        }
        let distributions = distribute_evenly(eligible_verifiers.as_slice(), hourly_budget);
        let ghost shares = distributions@;
        let mut total_distributed = HclawAmount::zero();
        let mut k: usize = 0;
        while k < distributions.len()
            invariant
                0 <= k <= distributions@.len(),
                distributions@ == shares,
                state.base_accounts() == old(state).base_accounts(),
                state.base_storage() == old(state).base_storage(),
                total_distributed.0 == paid_out(shares, k as nat),
                after_payments(start, home, shares, 0) == after_payments(
                    state.journal(),
                    home,
                    shares,
                    k as nat,
                ),
            decreases distributions@.len() - k,
        {
            let ghost before = state.journal();
            let (addr, amount) = distributions[k];
            state.credit(addr, amount);
            total_distributed = total_distributed.saturating_add(amount);
            match self.load_participant(state, &addr) {
                Some(p) => {
                    let mut participant = p;
                    participant.bounties_earned = participant.bounties_earned.saturating_add(amount);
                    let _ = self.save_participant(state, &participant);
                },
                None => {},
            }
            assert(state.journal() == after_payment(before, home, addr, amount.0));
            k += 1;
        }
        let dust = hourly_budget.saturating_sub(total_distributed);
        tracker.record_distribution(epoch, total_distributed);
        if dust.raw() > 0 {
            tracker.record_burn(dust);
        }
        let _ = self.save_bounty_tracker(state, &tracker);
        let mut event_data: Vec<u8> = Vec::new();
        push_u64_le(&mut event_data, epoch);
        push_bytes(&mut event_data, [day].as_slice());
        push_amount(&mut event_data, total_distributed);
        push_u32_le(&mut event_data, ((eligible_verifiers.len() as u128) % 0x1_0000_0000) as u32);
        assert(event_data@ =~= vstd::bytes::spec_u64_to_le_bytes(epoch) + seq![day_of(epoch)]
            + vstd::bytes::spec_u128_to_le_bytes(total_distributed.0)
            + vstd::bytes::spec_u32_to_le_bytes(
            (eligible_verifiers@.len() % 0x1_0000_0000) as u32,
        ));
        state.emit_event(
            ContractEvent {
                contract_id: self.id,
                topic: String::from_str(TOPIC_HOURLY_DISTRIBUTED),
                data: event_data,
            },
        );
        Ok(())
    }

    /// Update the number of public nodes.
    pub fn execute_update_nodes(&self, state: &mut ContractState, count: u32) -> (r:
        ContractResult<()>)
        ensures
            r is Ok,
            final(state).base_accounts() == old(state).base_accounts(),
            final(state).base_storage() == old(state).base_storage(),
            final(state).journal() == after_node_count(
                old(state).journal(),
                self.spec_address(),
                count,
            ),
    {
        let mut tracker = self.load_bounty_tracker(state);
        tracker.update_node_count(count);
        self.save_bounty_tracker(state, &tracker)
    }
}

/// The address under which the genesis bounty contract keeps its storage:
/// the first twenty bytes of its id.
pub open spec fn bounty_home() -> Address {
    crate::types::address::address_of(storage_address_of(spec_genesis_bounty_contract_id()))
}

/// Whether a result and a journal are what the bounty contract gives for a
/// transaction on a journal: a transaction whose input is no action is
/// refused as invalid and changes nothing; any other leaves what its action
/// leaves, and succeeds where the action is accepted. A success tells the
/// root of the ledger as it stands, the flat gas charge, the events so far
/// and no output.
pub open spec fn is_bounty_execution(
    home: Address,
    contract_id: Id,
    before: super::journal::Journal,
    tx: ContractTransaction,
    r: ContractResult<ExecutionResult>,
    after: super::journal::Journal,
) -> bool {
    &&& match read_action(tx.input@) {
        Some(action) => {
            let done = after_transaction(
                before,
                home,
                contract_id,
                tx.sender_address,
                tx.timestamp as u64,
                action,
            );
            after == done.0 && r.is_ok() == done.1
        },
        None => r is Err && r->Err_0 is InvalidTransaction && after == before,
    }
    &&& r is Ok ==> r->Ok_0.new_state_root == state_root_of(after.accounts) && r->Ok_0.gas_used
        == BOUNTY_GAS && r->Ok_0.output@.len() == 0 && event_views(r->Ok_0.events@) == after.events
}

/// Whether a verdict is what a contract gives that accepts a claimed result
/// exactly where its root is the root of the ledger as it stands.
pub open spec fn is_root_verdict(
    journal: super::journal::Journal,
    result: ExecutionResult,
    r: ContractResult<bool>,
) -> bool {
    r == Ok::<bool, ContractError>(state_root_of(journal.accounts) == result.new_state_root)
}

impl Contract for GenesisBountyContract {
    closed spec fn contract_id(&self) -> Id {
        self.id
    }

    open spec fn executes(
        &self,
        before: super::journal::Journal,
        tx: ContractTransaction,
        r: ContractResult<ExecutionResult>,
        after: super::journal::Journal,
    ) -> bool {
        is_bounty_execution(self.spec_address(), self.contract_id(), before, tx, r, after)
    }

    open spec fn verifies(
        &self,
        journal: super::journal::Journal,
        tx: ContractTransaction,
        result: ExecutionResult,
        r: ContractResult<bool>,
    ) -> bool {
        is_root_verdict(journal, result, r)
    }

    fn id(&self) -> (r: Id) {
        self.id
    }

    fn name(&self) -> (r: &str)
        ensures
            r@ == "GenesisBountyContract"@,
    {
        "GenesisBountyContract"
    }

    fn version(&self) -> (r: u32)
        ensures
            r == 1,
    {
        1
    }

    fn execute(&self, state: &mut ContractState, tx: &ContractTransaction) -> (r: ContractResult<
        ExecutionResult,
    >)
        ensures
            match read_action(tx.input@) {
                Some(action) => {
                    let after = after_transaction(
                        old(state).journal(),
                        self.spec_address(),
                        self.contract_id(),
                        tx.sender_address,
                        tx.timestamp as u64,
                        action,
                    );
                    final(state).journal() == after.0 && r.is_ok() == after.1
                },
                None => r is Err && r->Err_0 is InvalidTransaction && final(state).journal() == old(
                    state,
                ).journal(),
            },
            r is Ok ==> r->Ok_0.new_state_root == state_root_of(final(state).journal().accounts)
                && r->Ok_0.gas_used == BOUNTY_GAS && r->Ok_0.output@.len() == 0 && event_views(
                r->Ok_0.events@,
            ) == final(state).journal().events,
    {
        let action = match Self::parse_action(tx.input.as_slice()) {
            Ok(a) => a,
            Err(e) => {
                return Err(e);
            },
        };
        let done = match action {
            BountyAction::JoinGenesis { stake } => self.execute_join(
                state,
                tx.sender_address,
                stake,
                tx.timestamp as u64,
            ),
            BountyAction::DistributeHourly { epoch, eligible_verifiers } => {
                proof {
                    lemma_addresses_of(eligible_verifiers@);
                }
                self.execute_distribute_hourly(state, epoch, eligible_verifiers)
            },
            BountyAction::UpdateNodeCount { count } => self.execute_update_nodes(state, count),
        };
        match done {
            Err(e) => Err(e),
            Ok(()) => Ok(
                ExecutionResult {
                    new_state_root: state.compute_state_root(),
                    gas_used: BOUNTY_GAS,
                    events: copy_events(state.events()),
                    output: Vec::new(),
                },
            ),
        }
    }

    fn verify(
        &self,
        state: &ContractState,
        _tx: &ContractTransaction,
        result: &ExecutionResult,
    ) -> (r: ContractResult<bool>)
        ensures
            r == Ok::<bool, ContractError>(
                state_root_of(state.journal().accounts) == result.new_state_root,
            ),
    {
        let computed_root = state.compute_state_root();
        Ok(computed_root == result.new_state_root)
    }

    fn is_upgradeable(&self) -> (r: bool)
        ensures
            !r,
    {
        false
    }

    /// Keeps the configuration, sets the participant count to zero and
    /// starts a fresh tracker. The tracker starts at the launch of the
    /// chain, which the configuration fixes: the contract reads no clock, so
    /// that every node arrives at the same storage.
    fn on_deploy(&self, state: &mut ContractState, init_data: &[u8]) -> (r: ContractResult<()>)
        ensures
            r.is_ok() == read_config(init_data@).is_some(),
            r is Err ==> r->Err_0 is InvalidTransaction && final(state).journal() == old(state).journal(),
            r is Ok ==> final(state).journal() == after_deployment(
                old(state).journal(),
                self.spec_address(),
                self.contract_id(),
                init_data@,
            ),
    {
        let config = match GenesisDeploymentConfig::decode(init_data) {
            Some(c) => c,
            None => {
                return Err(ContractError::InvalidTransaction(String::from_str("Invalid init_data")));
            },
        };
        state.storage_write(self.address(), key_bytes(KEY_CONFIG), copy_bytes(init_data));
        self.save_participant_count(state, 0);
        let launched = if config.bootstrap_end >= BOOTSTRAP_SECONDS {
            config.bootstrap_end - BOOTSTRAP_SECONDS
        } else {
            0
        };
        let start = match launched.checked_mul(1000) {
            Some(millis) => millis,
            None => u64::MAX,
        };
        let tracker = BountyTracker::new(start);
        let _ = self.save_bounty_tracker(state, &tracker);
        let mut event_data: Vec<u8> = Vec::new();
        push_u64_le(&mut event_data, config.bootstrap_end);
        state.emit_event(
            ContractEvent {
                contract_id: self.id,
                topic: String::from_str(TOPIC_INITIALIZED),
                data: event_data,
            },
        );
        Ok(())
    }
}

} // verus!
