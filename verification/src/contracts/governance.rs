//! Governance contract: on-chain governance.
//!
//! - Proposal creation and voting
//! - Parameter updates via governance
//! - Contract upgrades
//! - Treasury spending
//! - Emergency pauses
//!
//! All state is storage-backed; the contract itself holds only its id.

use vstd::prelude::*;
use vstd::string::*;

use super::codec::{
    lemma_joined_five, lemma_read_text, lemma_split_joined, push_text_field, read_address,
    read_digest, read_text, read_u128, read_u32, read_u64, read_u8, text_field_bytes, Reader,
};
use super::governance_codec::{
    action_list_bytes, lemma_action_list_round_trip, push_actions,
    read_action_list, read_actions, writable,
};
use super::governance_rules::{
    after_action, after_actions, after_creation, after_execution, after_power_update,
    after_transaction, after_vote, ids_bytes, index_bytes, lemma_read_ids_fails, new_proposal,
    proposal_key_of, proposal_seed, read_ids, recorded, saved, stored_index, stored_power, stored_proposal,
    vote_byte, voted, with_vote, PARAM_PREFIX, PAUSED_PREFIX, TOPIC_PROPOSAL_CREATED,
    TOPIC_PROPOSAL_EXECUTED, TOPIC_VOTE_CAST, TREASURY_SPEND_PREFIX, UPGRADE_HASH_PREFIX,
    UPGRADE_PREFIX,
};
use super::root::state_root_of;
use super::state::ContractState;
use super::transaction::ContractTransaction;
use super::{
    copy_events, event_views, Contract, ContractError, ContractEvent, ContractResult,
    ExecutionResult,
};
use crate::crypto::hash::hash_data;
use crate::encoding::{
    copy_bytes, hex_encode, push_bytes, push_digests, push_i64_le, push_text, push_u128_le,
    push_u32_le, push_u64_le, spec_i64_to_le_bytes, text_bytes,
};
use crate::types::address::{address_of, lemma_address_of, Address};
use crate::types::amount::HclawAmount;
use crate::types::governance::{action_views, GovernanceAction, GovernanceActionView};
use crate::types::Id;

verus! {

/// The bytes of the governance contract id
pub const GOVERNANCE_CONTRACT_ID_BYTES: [u8; 32] = [
    0x67, 0x0f, 0x8a, 0x3d, 0x1c, 0xe2, 0x49, 0xb7, 0x95, 0x2a, 0xf4, 0x68, 0xd0, 0x1b, 0x7c, 0x8e,
    0x52, 0xc9, 0x31, 0xa6, 0x0d, 0xf3, 0x6b, 0x94, 0x28, 0xe5, 0xb1, 0x47, 0x9d, 0x0c, 0x5f, 0x82,
];

/// Minimum voting period (7 days in milliseconds)
pub const MIN_VOTING_PERIOD: i64 = 7 * 24 * 60 * 60 * 1000;

/// Quorum requirement (30% of total voting power)
pub const QUORUM_PERCENT: u8 = 30;

/// Approval threshold (66% of votes cast)
pub const APPROVAL_THRESHOLD_PERCENT: u8 = 66;

/// Storage key of the total voting power
pub const KEY_TOTAL_VOTING_POWER: &'static str = "gov:total_voting_power";

/// Storage key of the proposal index
pub const KEY_PROPOSAL_INDEX: &'static str = "gov:proposal_index";

/// Prefix of the storage keys of proposals
pub const PROPOSAL_PREFIX: &'static str = "gov:proposal:";

/// Gas charged for every execution
pub const GOVERNANCE_GAS: u64 = 150_000;

/// The id of the governance contract.
pub open spec fn spec_governance_contract_id() -> Id {
    crate::crypto::hash::Hash(GOVERNANCE_CONTRACT_ID_BYTES)
}

/// The id of the governance contract.
pub fn governance_contract_id() -> (r: Id)
    ensures
        r == spec_governance_contract_id(),
{
    crate::crypto::hash::Hash(GOVERNANCE_CONTRACT_ID_BYTES)
}

/// Actions the governance contract can perform
#[derive(Debug)]
pub enum GovernanceTransactionKind {
    /// Create a new proposal
    CreateProposal {
        /// Title of the proposal
        title: String,
        /// Description
        description: String,
        /// Actions to execute if approved
        actions: Vec<GovernanceAction>,
        /// Voting period end time
        voting_ends_at: i64,
    },
    /// Cast a vote on a proposal
    Vote {
        /// Proposal ID
        proposal_id: Id,
        /// Vote (true = yes, false = no)
        in_favor: bool,
        /// Voting power (based on stake)
        voting_power: u128,
    },
    /// Execute an approved proposal
    Execute {
        /// Proposal ID
        proposal_id: Id,
    },
    /// Update total voting power (called when stakes change)
    UpdateVotingPower {
        /// New total voting power
        total_power: u128,
    },
}

/// Proposal status
#[derive(Clone, Copy, Debug, PartialEq, Eq, Structural)]
pub enum ProposalStatus {
    /// Currently accepting votes
    Active,
    /// Voting period ended, awaiting execution
    Passed,
    /// Voting period ended, did not pass
    Rejected,
    /// Successfully executed
    Executed,
    /// Failed to execute
    ExecutionFailed,
}

/// A governance proposal
#[derive(Debug)]
pub struct Proposal {
    /// Proposal ID
    pub id: Id,
    /// Creator
    pub proposer: Address,
    /// Title
    pub title: String,
    /// Description
    pub description: String,
    /// Actions to execute
    pub actions: Vec<GovernanceAction>,
    /// Creation timestamp
    pub created_at: i64,
    /// Voting ends at
    pub voting_ends_at: i64,
    /// Votes in favor (voting power)
    pub yes_votes: u128,
    /// Votes against (voting power)
    pub no_votes: u128,
    /// Voters and their votes, in the order in which they voted
    pub voters: Vec<(Address, bool)>,
    /// Current status
    pub status: ProposalStatus,
}

/// Whether an address has voted.
pub open spec fn has_voted(voters: Seq<(Address, bool)>, voter: Address) -> bool {
    exists|i: int| 0 <= i < voters.len() && (#[trigger] voters[i]).0 == voter
}

/// What `part` is of `whole`, in percent, rounded down.
pub open spec fn percent_of(part: u128, whole: u128) -> int {
    part as int * 100 / whole as int
}

/// What `part` is of `whole`, in percent, rounded down: zero where `whole`
/// is zero, and capped at the largest 128-bit value.
pub fn percentage_of(part: u128, whole: u128) -> (r: u128)
    ensures
        whole == 0 ==> r == 0,
        whole > 0 ==> r == if percent_of(part, whole) > u128::MAX {
            u128::MAX as int
        } else {
            percent_of(part, whole)
        },
        part <= whole ==> r <= 100,
{
    if whole == 0 {
        return 0;
    }
    let full: u128 = part / whole;
    let rest: u128 = part % whole;
    let mut quotient: u128 = 0;
    let mut remainder: u128 = 0;
    let mut i: u32 = 0;
    while i < 100
        invariant
            0 <= i <= 100,
            rest < whole,
            remainder < whole,
            quotient <= i,
            quotient * whole + remainder == i * rest,
        decreases 100 - i,
    {
        proof {
            assert((i + 1) * rest == i * rest + rest) by (nonlinear_arith);
            assert((quotient + 1) * whole == quotient * whole + whole) by (nonlinear_arith);
        }
        if remainder >= whole - rest {
            remainder = remainder - (whole - rest);
            quotient = quotient + 1;
        } else {
            remainder = remainder + rest;
        }
        i += 1;
    }
    proof {
        let p = part as int;
        let w = whole as int;
        let f = full as int;
        let t = rest as int;
        let q = quotient as int;
        let m = remainder as int;
        assert(p == f * w + t) by (nonlinear_arith)
            requires
                f == p / w,
                t == p % w,
                w > 0,
        ;
        assert(p * 100 / w == f * 100 + q) by (nonlinear_arith)
            requires
                p == f * w + t,
                q * w + m == 100 * t,
                0 <= m < w,
                w > 0,
        ;
        if part <= whole {
            assert(f * 100 + q <= 100) by (nonlinear_arith)
                requires
                    p == f * w + t,
                    p <= w,
                    0 <= t < w,
                    0 <= f,
                    q * w + m == 100 * t,
                    0 <= m,
                    0 <= q,
                    w > 0,
            ;
        }
    }
    match full.checked_mul(100) {
        Some(hundreds) => hundreds.saturating_add(quotient),
        None => u128::MAX,
    }
}

fn failed(message: &str) -> (r: ContractError)
    ensures
        r matches ContractError::ExecutionFailed(text) && text@ == message@,
{
    ContractError::ExecutionFailed(String::from_str(message))
}

fn key_bytes(key: &str) -> (r: Vec<u8>)
    ensures
        r@ == text_bytes(key@),
{
    copy_bytes(key.as_bytes())
}

/// The tag under which a status is written.
pub open spec fn spec_status_tag(status: ProposalStatus) -> u32 {
    match status {
        ProposalStatus::Active => 0,
        ProposalStatus::Passed => 1,
        ProposalStatus::Rejected => 2,
        ProposalStatus::Executed => 3,
        ProposalStatus::ExecutionFailed => 4,
    }
}

/// The status that a tag stands for, if it stands for one.
pub open spec fn spec_status_of(tag: u32) -> Option<ProposalStatus> {
    if tag == 0 {
        Some(ProposalStatus::Active)
    } else if tag == 1 {
        Some(ProposalStatus::Passed)
    } else if tag == 2 {
        Some(ProposalStatus::Rejected)
    } else if tag == 3 {
        Some(ProposalStatus::Executed)
    } else if tag == 4 {
        Some(ProposalStatus::ExecutionFailed)
    } else {
        None
    }
}

fn status_tag(status: ProposalStatus) -> (r: u32)
    ensures
        r == spec_status_tag(status),
{
    match status {
        ProposalStatus::Active => 0,
        ProposalStatus::Passed => 1,
        ProposalStatus::Rejected => 2,
        ProposalStatus::Executed => 3,
        ProposalStatus::ExecutionFailed => 4,
    }
}

fn status_of(tag: u32) -> (r: Option<ProposalStatus>)
    ensures
        r == spec_status_of(tag),
{
    if tag == 0 {
        Some(ProposalStatus::Active)
    } else if tag == 1 {
        Some(ProposalStatus::Passed)
    } else if tag == 2 {
        Some(ProposalStatus::Rejected)
    } else if tag == 3 {
        Some(ProposalStatus::Executed)
    } else if tag == 4 {
        Some(ProposalStatus::ExecutionFailed)
    } else {
        None
    }
}

/// The byte of a flag: one for true, zero for false.
pub open spec fn flag_byte(flag: bool) -> u8 {
    if flag {
        1
    } else {
        0
    }
}

/// A flag read off the front of a byte string: one byte, zero or one.
pub open spec fn read_flag(bytes: Seq<u8>) -> Option<(bool, Seq<u8>)> {
    match read_u8(bytes) {
        Some((byte, rest)) => if byte > 1 {
            None
        } else {
            Some((byte == 1, rest))
        },
        None => None,
    }
}

/// A timestamp read off the front of a byte string.
pub open spec fn read_time(bytes: Seq<u8>) -> Option<(i64, Seq<u8>)> {
    match read_u64(bytes) {
        Some((value, rest)) => Some((value as i64, rest)),
        None => None,
    }
}

fn push_flag(out: &mut Vec<u8>, flag: bool)
    ensures
        final(out)@ == old(out)@ + seq![flag_byte(flag)],
{
    out.push(if flag {
        1u8
    } else {
        0u8
    });
    assert(out@ =~= old(out)@ + seq![flag_byte(flag)]);
}

fn flag(reader: &mut Reader) -> (r: Option<bool>)
    ensures
        match read_flag(old(reader).rest()) {
            Some((value, rest)) => r == Some(value) && final(reader).rest() == rest,
            None => r is None,
        },
{
    let byte = reader.u8()?;
    if byte > 1 {
        None
    } else {
        Some(byte == 1)
    }
}

fn time(reader: &mut Reader) -> (r: Option<i64>)
    ensures
        match read_time(old(reader).rest()) {
            Some((value, rest)) => r == Some(value) && final(reader).rest() == rest,
            None => r is None,
        },
{
    let value = reader.u64()?;
    Some(value as i64)
}

/// A flag is read back from its byte.
pub proof fn lemma_read_flag(flag: bool, tail: Seq<u8>)
    ensures
        read_flag(seq![flag_byte(flag)] + tail) == Some((flag, tail)),
{
    lemma_split_joined(seq![flag_byte(flag)], tail);
}

/// A timestamp is read back from its bytes.
pub proof fn lemma_read_time(value: i64, tail: Seq<u8>)
    ensures
        read_time(spec_i64_to_le_bytes(value) + tail) == Some((value, tail)),
{
    super::codec::lemma_read_u64(value as u64, tail);
    assert((value as u64) as i64 == value) by (bit_vector);
}

/// What a governance transaction holds, as plain values.
pub enum KindView {
    /// Create a new proposal
    CreateProposal {
        /// Title of the proposal
        title: Seq<char>,
        /// Description
        description: Seq<char>,
        /// Actions to execute if approved
        actions: Seq<GovernanceActionView>,
        /// Voting period end time
        voting_ends_at: i64,
    },
    /// Cast a vote on a proposal
    Vote {
        /// Proposal ID, as its bytes
        proposal_id: Seq<u8>,
        /// Vote (true = yes, false = no)
        in_favor: bool,
        /// Voting power
        voting_power: u128,
    },
    /// Execute an approved proposal
    Execute {
        /// Proposal ID, as its bytes
        proposal_id: Seq<u8>,
    },
    /// Update total voting power
    UpdateVotingPower {
        /// New total voting power
        total_power: u128,
    },
}

impl View for GovernanceTransactionKind {
    type V = KindView;

    open spec fn view(&self) -> KindView {
        match self {
            GovernanceTransactionKind::CreateProposal {
                title,
                description,
                actions,
                voting_ends_at,
            } => KindView::CreateProposal {
                title: title@,
                description: description@,
                actions: action_views(actions@),
                voting_ends_at: *voting_ends_at,
            },
            GovernanceTransactionKind::Vote {
                proposal_id,
                in_favor,
                voting_power,
            } => KindView::Vote {
                proposal_id: proposal_id.0@,
                in_favor: *in_favor,
                voting_power: *voting_power,
            },
            GovernanceTransactionKind::Execute { proposal_id } => KindView::Execute {
                proposal_id: proposal_id.0@,
            },
            GovernanceTransactionKind::UpdateVotingPower {
                total_power,
            } => KindView::UpdateVotingPower { total_power: *total_power },
        }
    }
}

/// The bytes of a governance transaction: a 32-bit tag, then the fields.
pub open spec fn kind_bytes(kind: KindView) -> Seq<u8> {
    match kind {
        KindView::CreateProposal {
            title,
            description,
            actions,
            voting_ends_at,
        } => vstd::bytes::spec_u32_to_le_bytes(0) + text_field_bytes(title) + text_field_bytes(
            description,
        ) + action_list_bytes(actions) + spec_i64_to_le_bytes(voting_ends_at),
        KindView::Vote {
            proposal_id,
            in_favor,
            voting_power,
        } => vstd::bytes::spec_u32_to_le_bytes(1) + proposal_id + seq![flag_byte(in_favor)]
            + vstd::bytes::spec_u128_to_le_bytes(voting_power),
        KindView::Execute { proposal_id } => vstd::bytes::spec_u32_to_le_bytes(2) + proposal_id,
        KindView::UpdateVotingPower { total_power } => vstd::bytes::spec_u32_to_le_bytes(3)
            + vstd::bytes::spec_u128_to_le_bytes(total_power),
    }
}

/// A governance transaction read off the front of a byte string.
pub open spec fn read_kind(bytes: Seq<u8>) -> Option<KindView> {
    match read_u32(bytes) {
        Some((tag, r0)) => if tag == 0 {
            match read_text(r0) {
                Some((title, r1)) => match read_text(r1) {
                    Some((description, r2)) => match read_action_list(r2) {
                        Some((actions, r3)) => match read_time(r3) {
                            Some((voting_ends_at, _)) => Some(
                                KindView::CreateProposal {
                                    title,
                                    description,
                                    actions,
                                    voting_ends_at,
                                },
                            ),
                            None => None,
                        },
                        None => None,
                    },
                    None => None,
                },
                None => None,
            }
        } else if tag == 1 {
            match read_digest(r0) {
                Some((proposal_id, r1)) => match read_flag(r1) {
                    Some((in_favor, r2)) => match read_u128(r2) {
                        Some((voting_power, _)) => Some(
                            KindView::Vote { proposal_id, in_favor, voting_power },
                        ),
                        None => None,
                    },
                    None => None,
                },
                None => None,
            }
        } else if tag == 2 {
            match read_digest(r0) {
                Some((proposal_id, _)) => Some(KindView::Execute { proposal_id }),
                None => None,
            }
        } else if tag == 3 {
            match read_u128(r0) {
                Some((total_power, _)) => Some(KindView::UpdateVotingPower { total_power }),
                None => None,
            }
        } else {
            None
        },
        None => None,
    }
}

/// Whether a governance transaction can be written: its ids have their
/// sizes and its texts and lists have lengths that fit in 64 bits.
pub open spec fn kind_writable(kind: KindView) -> bool {
    match kind {
        KindView::CreateProposal {
            title,
            description,
            actions,
            voting_ends_at,
        } => vstd::utf8::encode_utf8(title).len() <= u64::MAX && vstd::utf8::encode_utf8(
            description,
        ).len() <= u64::MAX && actions.len() <= u64::MAX && forall|i: int|
            0 <= i < actions.len() ==> writable(#[trigger] actions[i]),
        KindView::Vote { proposal_id, .. } => proposal_id.len() == 32,
        KindView::Execute { proposal_id } => proposal_id.len() == 32,
        KindView::UpdateVotingPower { .. } => true,
    }
}

/// The fields of a transaction that creates a proposal are read back from
/// their bytes.
proof fn lemma_create_round_trip(
    title: Seq<char>,
    description: Seq<char>,
    actions: Seq<GovernanceActionView>,
    voting_ends_at: i64,
    tail: Seq<u8>,
)
    requires
        vstd::utf8::encode_utf8(title).len() <= u64::MAX,
        vstd::utf8::encode_utf8(description).len() <= u64::MAX,
        actions.len() <= u64::MAX,
        forall|i: int| 0 <= i < actions.len() ==> writable(#[trigger] actions[i]),
    ensures
        ({
            let t4 = spec_i64_to_le_bytes(voting_ends_at) + tail;
            let t3 = action_list_bytes(actions) + t4;
            let t2 = text_field_bytes(description) + t3;
            let t1 = text_field_bytes(title) + t2;
            &&& read_text(t1) == Some((title, t2))
            &&& read_text(t2) == Some((description, t3))
            &&& read_action_list(t3) == Some((actions, t4))
            &&& read_time(t4) == Some((voting_ends_at, tail))
        }),
{
    let t4 = spec_i64_to_le_bytes(voting_ends_at) + tail;
    let t3 = action_list_bytes(actions) + t4;
    let t2 = text_field_bytes(description) + t3;
    lemma_read_text(title, t2);
    lemma_read_text(description, t3);
    lemma_action_list_round_trip(actions, t4);
    lemma_read_time(voting_ends_at, tail);
}

/// A transaction that creates a proposal is read back from its bytes.
proof fn lemma_creation_round_trip(kind: KindView, tail: Seq<u8>)
    requires
        kind is CreateProposal,
        kind_writable(kind),
    ensures
        read_kind(kind_bytes(kind) + tail) == Some(kind),
{
    let title = kind->CreateProposal_title;
    let description = kind->CreateProposal_description;
    let actions = kind->CreateProposal_actions;
    let voting_ends_at = kind->CreateProposal_voting_ends_at;
    let t4 = spec_i64_to_le_bytes(voting_ends_at) + tail;
    let t3 = action_list_bytes(actions) + t4;
    let t2 = text_field_bytes(description) + t3;
    let t1 = text_field_bytes(title) + t2;
    assert(kind_bytes(kind) + tail == vstd::bytes::spec_u32_to_le_bytes(0) + t1) by {
        lemma_joined_five(
            vstd::bytes::spec_u32_to_le_bytes(0),
            text_field_bytes(title),
            text_field_bytes(description),
            action_list_bytes(actions),
            spec_i64_to_le_bytes(voting_ends_at),
            tail,
        );
    }
    super::codec::lemma_read_u32(0, t1);
    lemma_create_round_trip(title, description, actions, voting_ends_at, tail);
}

/// A vote is read back from its bytes.
proof fn lemma_vote_round_trip(kind: KindView, tail: Seq<u8>)
    requires
        kind is Vote,
        kind_writable(kind),
    ensures
        read_kind(kind_bytes(kind) + tail) == Some(kind),
{
    let proposal_id = kind->Vote_proposal_id;
    let in_favor = kind->Vote_in_favor;
    let voting_power = kind->Vote_voting_power;
    let t3 = vstd::bytes::spec_u128_to_le_bytes(voting_power) + tail;
    let t2 = seq![flag_byte(in_favor)] + t3;
    let t1 = proposal_id + t2;
    assert(kind_bytes(kind) + tail == vstd::bytes::spec_u32_to_le_bytes(1) + t1) by {
        assert(kind_bytes(kind) + tail =~= vstd::bytes::spec_u32_to_le_bytes(1) + t1);
    }
    super::codec::lemma_read_u32(1, t1);
    lemma_split_joined(proposal_id, t2);
    lemma_read_flag(in_favor, t3);
    super::codec::lemma_read_u128(voting_power, tail);
}

/// A governance transaction is read back from its bytes, whatever follows
/// them.
pub proof fn lemma_kind_round_trip(kind: KindView, tail: Seq<u8>)
    requires
        kind_writable(kind),
    ensures
        read_kind(kind_bytes(kind) + tail) == Some(kind),
{
    match kind {
        KindView::CreateProposal { .. } => {
            lemma_creation_round_trip(kind, tail);
        },
        KindView::Vote { .. } => {
            lemma_vote_round_trip(kind, tail);
        },
        KindView::Execute { proposal_id } => {
            let t1 = proposal_id + tail;
            assert(kind_bytes(kind) + tail =~= vstd::bytes::spec_u32_to_le_bytes(2) + t1);
            super::codec::lemma_read_u32(2, t1);
            lemma_split_joined(proposal_id, tail);
        },
        KindView::UpdateVotingPower { total_power } => {
            let t1 = vstd::bytes::spec_u128_to_le_bytes(total_power) + tail;
            assert(kind_bytes(kind) + tail =~= vstd::bytes::spec_u32_to_le_bytes(3) + t1);
            super::codec::lemma_read_u32(3, t1);
            super::codec::lemma_read_u128(total_power, tail);
        },
    }
}

impl GovernanceTransactionKind {
    /// Write the transaction kind as bytes.
    pub fn encode(&self) -> (r: Vec<u8>)
        ensures
            r@ == kind_bytes(self@),
    {
        let mut out: Vec<u8> = Vec::new();
        match self {
            GovernanceTransactionKind::CreateProposal {
                title,
                description,
                actions,
                voting_ends_at,
            } => {
                push_u32_le(&mut out, 0);
                push_text_field(&mut out, title.as_str());
                push_text_field(&mut out, description.as_str());
                push_actions(&mut out, actions.as_slice());
                push_i64_le(&mut out, *voting_ends_at);
            },
            GovernanceTransactionKind::Vote { proposal_id, in_favor, voting_power } => {
                push_u32_le(&mut out, 1);
                push_bytes(&mut out, proposal_id.0.as_slice());
                push_flag(&mut out, *in_favor);
                push_u128_le(&mut out, *voting_power);
            },
            GovernanceTransactionKind::Execute { proposal_id } => {
                push_u32_le(&mut out, 2);
                push_bytes(&mut out, proposal_id.0.as_slice());
            },
            GovernanceTransactionKind::UpdateVotingPower { total_power } => {
                push_u32_le(&mut out, 3);
                push_u128_le(&mut out, *total_power);
            },
        }
        assert(out@ =~= kind_bytes(self@));
        out
    }

    /// Read a transaction kind from the front of `input`; what follows it is
    /// ignored.
    pub fn decode(input: &[u8]) -> (r: Option<Self>)
        ensures
            match read_kind(input@) {
                Some(kind) => r is Some && r->Some_0@ == kind,
                None => r is None,
            },
    {
        let mut reader = Reader::new(input);
        let tag = reader.u32()?;
        if tag == 0 {
            let title = reader.text()?;
            let description = reader.text()?;
            let actions = read_actions(&mut reader)?;
            let voting_ends_at = time(&mut reader)?;
            Some(
                GovernanceTransactionKind::CreateProposal {
                    title,
                    description,
                    actions,
                    voting_ends_at,
                },
            )
        } else if tag == 1 {
            let proposal_id = reader.digest()?;
            let in_favor = flag(&mut reader)?;
            let voting_power = reader.u128()?;
            Some(GovernanceTransactionKind::Vote { proposal_id, in_favor, voting_power })
        } else if tag == 2 {
            let proposal_id = reader.digest()?;
            Some(GovernanceTransactionKind::Execute { proposal_id })
        } else if tag == 3 {
            let total_power = reader.u128()?;
            Some(GovernanceTransactionKind::UpdateVotingPower { total_power })
        } else {
            None
        }
    }
}

/// What a proposal holds, as plain values.
pub struct ProposalView {
    /// Proposal ID, as its bytes
    pub id: Seq<u8>,
    /// Creator, as the bytes of the address
    pub proposer: Seq<u8>,
    /// Title
    pub title: Seq<char>,
    /// Description
    pub description: Seq<char>,
    /// Actions to execute
    pub actions: Seq<GovernanceActionView>,
    /// Creation timestamp
    pub created_at: i64,
    /// Voting ends at
    pub voting_ends_at: i64,
    /// Votes in favor
    pub yes_votes: u128,
    /// Votes against
    pub no_votes: u128,
    /// Voters, each as the bytes of the address, and their votes
    pub voters: Seq<(Seq<u8>, bool)>,
    /// Current status
    pub status: ProposalStatus,
}

/// The voters of a proposal as plain values.
pub open spec fn voter_views(voters: Seq<(Address, bool)>) -> Seq<(Seq<u8>, bool)> {
    voters.map_values(|v: (Address, bool)| (v.0.0@, v.1))
}

impl View for Proposal {
    type V = ProposalView;

    open spec fn view(&self) -> ProposalView {
        ProposalView {
            id: self.id.0@,
            proposer: self.proposer.0@,
            title: self.title@,
            description: self.description@,
            actions: action_views(self.actions@),
            created_at: self.created_at,
            voting_ends_at: self.voting_ends_at,
            yes_votes: self.yes_votes,
            no_votes: self.no_votes,
            voters: voter_views(self.voters@),
            status: self.status,
        }
    }
}

/// The bytes of some voters and their votes, one after the other.
pub open spec fn voters_bytes(voters: Seq<(Seq<u8>, bool)>) -> Seq<u8>
    decreases voters.len(),
{
    if voters.len() == 0 {
        Seq::empty()
    } else {
        voters_bytes(voters.drop_last()) + voters.last().0 + seq![flag_byte(voters.last().1)]
    }
}

/// `count` voters read off the front of a byte string.
pub open spec fn read_voters(bytes: Seq<u8>, count: nat) -> Option<(Seq<(Seq<u8>, bool)>, Seq<u8>)>
    decreases count,
{
    if count == 0 {
        Some((Seq::empty(), bytes))
    } else {
        match read_voters(bytes, (count - 1) as nat) {
            Some((list, rest)) => match read_address(rest) {
                Some((voter, r1)) => match read_flag(r1) {
                    Some((vote, r2)) => Some((list.push((voter, vote)), r2)),
                    None => None,
                },
                None => None,
            },
            None => None,
        }
    }
}

/// The bytes of the front of a proposal: the id, the proposer, the two
/// texts and the actions.
pub open spec fn proposal_front_bytes(proposal: ProposalView) -> Seq<u8> {
    proposal.id + proposal.proposer + text_field_bytes(proposal.title) + text_field_bytes(
        proposal.description,
    ) + action_list_bytes(proposal.actions)
}

/// The bytes of the middle of a proposal: the two times, the two tallies
/// and the number of voters.
pub open spec fn proposal_votes_bytes(proposal: ProposalView) -> Seq<u8> {
    spec_i64_to_le_bytes(proposal.created_at) + spec_i64_to_le_bytes(proposal.voting_ends_at)
        + vstd::bytes::spec_u128_to_le_bytes(proposal.yes_votes)
        + vstd::bytes::spec_u128_to_le_bytes(proposal.no_votes)
        + vstd::bytes::spec_u64_to_le_bytes(proposal.voters.len() as u64)
}

/// The bytes of the end of a proposal: the voters and the status.
pub open spec fn proposal_end_bytes(proposal: ProposalView) -> Seq<u8> {
    voters_bytes(proposal.voters) + vstd::bytes::spec_u32_to_le_bytes(
        spec_status_tag(proposal.status),
    )
}

/// The bytes of a proposal: its fields one after the other.
pub open spec fn proposal_bytes(proposal: ProposalView) -> Seq<u8> {
    proposal_front_bytes(proposal) + proposal_votes_bytes(proposal) + proposal_end_bytes(proposal)
}

/// The end of a proposal read off the front of a byte string: the voters
/// and the status, joined to the fields that were read before them.
pub open spec fn read_proposal_end(head: ProposalView, bytes: Seq<u8>, count: nat) -> Option<
    ProposalView,
> {
    match read_voters(bytes, count) {
        Some((voters, r1)) => match read_u32(r1) {
            Some((tag, _)) => match spec_status_of(tag) {
                Some(status) => Some(ProposalView { voters, status, ..head }),
                None => None,
            },
            None => None,
        },
        None => None,
    }
}

/// The votes of a proposal and what follows them, read off the front of a
/// byte string and joined to the fields that were read before them.
pub open spec fn read_proposal_votes(head: ProposalView, bytes: Seq<u8>) -> Option<ProposalView> {
    match read_time(bytes) {
        Some((created_at, r6)) => match read_time(r6) {
            Some((voting_ends_at, r7)) => match read_u128(r7) {
                Some((yes_votes, r8)) => match read_u128(r8) {
                    Some((no_votes, r9)) => match read_u64(r9) {
                        Some((count, r10)) => read_proposal_end(
                            ProposalView {
                                created_at,
                                voting_ends_at,
                                yes_votes,
                                no_votes,
                                ..head
                            },
                            r10,
                            count as nat,
                        ),
                        None => None,
                    },
                    None => None,
                },
                None => None,
            },
            None => None,
        },
        None => None,
    }
}

/// A proposal read off the front of a byte string.
pub open spec fn read_proposal(bytes: Seq<u8>) -> Option<ProposalView> {
    match read_digest(bytes) {
        Some((id, r1)) => match read_address(r1) {
            Some((proposer, r2)) => match read_text(r2) {
                Some((title, r3)) => match read_text(r3) {
                    Some((description, r4)) => match read_action_list(r4) {
                        Some((actions, r5)) => read_proposal_votes(
                            ProposalView {
                                id,
                                proposer,
                                title,
                                description,
                                actions,
                                created_at: 0,
                                voting_ends_at: 0,
                                yes_votes: 0,
                                no_votes: 0,
                                voters: Seq::empty(),
                                status: ProposalStatus::Active,
                            },
                            r5,
                        ),
                        None => None,
                    },
                    None => None,
                },
                None => None,
            },
            None => None,
        },
        None => None,
    }
}

/// Whether a proposal can be written: its ids and addresses have their
/// sizes, and its texts and lists have lengths that fit in 64 bits.
pub open spec fn proposal_writable(proposal: ProposalView) -> bool {
    &&& proposal.id.len() == 32
    &&& proposal.proposer.len() == 20
    &&& vstd::utf8::encode_utf8(proposal.title).len() <= u64::MAX
    &&& vstd::utf8::encode_utf8(proposal.description).len() <= u64::MAX
    &&& proposal.actions.len() <= u64::MAX
    &&& forall|i: int| 0 <= i < proposal.actions.len() ==> writable(#[trigger] proposal.actions[i])
    &&& proposal.voters.len() <= u64::MAX
    &&& forall|i: int|
        0 <= i < proposal.voters.len() ==> (#[trigger] proposal.voters[i]).0.len() == 20
}

/// Some voters are read back from their bytes, whatever follows them.
pub proof fn lemma_voters_round_trip(voters: Seq<(Seq<u8>, bool)>, tail: Seq<u8>)
    requires
        forall|i: int| 0 <= i < voters.len() ==> (#[trigger] voters[i]).0.len() == 20,
    ensures
        read_voters(voters_bytes(voters) + tail, voters.len()) == Some((voters, tail)),
    decreases voters.len(),
{
    if voters.len() == 0 {
        assert(voters_bytes(voters) + tail =~= tail);
        assert(voters =~= Seq::<(Seq<u8>, bool)>::empty());
    } else {
        let front = voters.drop_last();
        let last = voters.last();
        let t2 = seq![flag_byte(last.1)] + tail;
        let t1 = last.0 + t2;
        assert(voters_bytes(voters) + tail =~= voters_bytes(front) + t1);
        assert forall|i: int| 0 <= i < front.len() implies (#[trigger] front[i]).0.len() == 20 by {
            assert(front[i] == voters[i]);
        }
        lemma_voters_round_trip(front, t1);
        lemma_split_joined(last.0, t2);
        lemma_read_flag(last.1, tail);
        assert(front.push(last) =~= voters);
    }
}

/// Once fewer voters can be read than were asked for, no larger number can
/// be read either.
pub proof fn lemma_read_voters_fails(bytes: Seq<u8>, short: nat, count: nat)
    requires
        short <= count,
        read_voters(bytes, short).is_none(),
    ensures
        read_voters(bytes, count).is_none(),
    decreases count,
{
    if short < count {
        lemma_read_voters_fails(bytes, short, (count - 1) as nat);
    }
}

/// The end of a proposal is read back from its bytes.
proof fn lemma_proposal_end_round_trip(head: ProposalView, proposal: ProposalView, tail: Seq<u8>)
    requires
        forall|i: int|
            0 <= i < proposal.voters.len() ==> (#[trigger] proposal.voters[i]).0.len() == 20,
        proposal == (ProposalView { voters: proposal.voters, status: proposal.status, ..head }),
    ensures
        read_proposal_end(head, proposal_end_bytes(proposal) + tail, proposal.voters.len()) == Some(
            proposal,
        ),
{
    let t1 = vstd::bytes::spec_u32_to_le_bytes(spec_status_tag(proposal.status)) + tail;
    assert(proposal_end_bytes(proposal) + tail =~= voters_bytes(proposal.voters) + t1);
    lemma_voters_round_trip(proposal.voters, t1);
    super::codec::lemma_read_u32(spec_status_tag(proposal.status), tail);
}

/// The middle of a proposal is read back from its bytes.
proof fn lemma_proposal_votes_round_trip(proposal: ProposalView, rest: Seq<u8>)
    requires
        proposal.voters.len() <= u64::MAX,
    ensures
        ({
            let t4 = vstd::bytes::spec_u64_to_le_bytes(proposal.voters.len() as u64) + rest;
            let t3 = vstd::bytes::spec_u128_to_le_bytes(proposal.no_votes) + t4;
            let t2 = vstd::bytes::spec_u128_to_le_bytes(proposal.yes_votes) + t3;
            let t1 = spec_i64_to_le_bytes(proposal.voting_ends_at) + t2;
            &&& proposal_votes_bytes(proposal) + rest == spec_i64_to_le_bytes(proposal.created_at)
                + t1
            &&& read_time(spec_i64_to_le_bytes(proposal.created_at) + t1) == Some(
                (proposal.created_at, t1),
            )
            &&& read_time(t1) == Some((proposal.voting_ends_at, t2))
            &&& read_u128(t2) == Some((proposal.yes_votes, t3))
            &&& read_u128(t3) == Some((proposal.no_votes, t4))
            &&& read_u64(t4) == Some((proposal.voters.len() as u64, rest))
        }),
{
    let t4 = vstd::bytes::spec_u64_to_le_bytes(proposal.voters.len() as u64) + rest;
    let t3 = vstd::bytes::spec_u128_to_le_bytes(proposal.no_votes) + t4;
    let t2 = vstd::bytes::spec_u128_to_le_bytes(proposal.yes_votes) + t3;
    let t1 = spec_i64_to_le_bytes(proposal.voting_ends_at) + t2;
    lemma_joined_five(
        spec_i64_to_le_bytes(proposal.created_at),
        spec_i64_to_le_bytes(proposal.voting_ends_at),
        vstd::bytes::spec_u128_to_le_bytes(proposal.yes_votes),
        vstd::bytes::spec_u128_to_le_bytes(proposal.no_votes),
        vstd::bytes::spec_u64_to_le_bytes(proposal.voters.len() as u64),
        rest,
    );
    lemma_read_time(proposal.created_at, t1);
    lemma_read_time(proposal.voting_ends_at, t2);
    super::codec::lemma_read_u128(proposal.yes_votes, t3);
    super::codec::lemma_read_u128(proposal.no_votes, t4);
    super::codec::lemma_read_u64(proposal.voters.len() as u64, rest);
}

/// The front of a proposal is read back from its bytes: the id, the
/// proposer, the two texts and the actions, with what follows them.
proof fn lemma_proposal_front_round_trip(proposal: ProposalView, rest: Seq<u8>)
    requires
        proposal.id.len() == 32,
        proposal.proposer.len() == 20,
        vstd::utf8::encode_utf8(proposal.title).len() <= u64::MAX,
        vstd::utf8::encode_utf8(proposal.description).len() <= u64::MAX,
        proposal.actions.len() <= u64::MAX,
        forall|i: int| 0 <= i < proposal.actions.len() ==> writable(#[trigger] proposal.actions[i]),
    ensures
        ({
            let t5 = action_list_bytes(proposal.actions) + rest;
            let t4 = text_field_bytes(proposal.description) + t5;
            let t3 = text_field_bytes(proposal.title) + t4;
            let t2 = proposal.proposer + t3;
            &&& proposal_front_bytes(proposal) + rest == proposal.id + t2
            &&& read_digest(proposal.id + t2) == Some((proposal.id, t2))
            &&& read_address(t2) == Some((proposal.proposer, t3))
            &&& read_text(t3) == Some((proposal.title, t4))
            &&& read_text(t4) == Some((proposal.description, t5))
            &&& read_action_list(t5) == Some((proposal.actions, rest))
        }),
{
    let t5 = action_list_bytes(proposal.actions) + rest;
    let t4 = text_field_bytes(proposal.description) + t5;
    let t3 = text_field_bytes(proposal.title) + t4;
    let t2 = proposal.proposer + t3;
    assert(proposal_front_bytes(proposal) + rest == proposal.id + t2) by {
        lemma_joined_five(
            proposal.id,
            proposal.proposer,
            text_field_bytes(proposal.title),
            text_field_bytes(proposal.description),
            action_list_bytes(proposal.actions),
            rest,
        );
    }
    assert(read_digest(proposal.id + t2) == Some((proposal.id, t2))) by {
        lemma_split_joined(proposal.id, t2);
    }
    assert(read_address(t2) == Some((proposal.proposer, t3))) by {
        lemma_split_joined(proposal.proposer, t3);
    }
    lemma_read_text(proposal.title, t4);
    lemma_read_text(proposal.description, t5);
    lemma_action_list_round_trip(proposal.actions, rest);
}

/// The middle and the end of a proposal are read back from their bytes.
proof fn lemma_proposal_back_round_trip(head: ProposalView, proposal: ProposalView, tail: Seq<u8>)
    requires
        proposal_writable(proposal),
        proposal == (ProposalView {
            created_at: proposal.created_at,
            voting_ends_at: proposal.voting_ends_at,
            yes_votes: proposal.yes_votes,
            no_votes: proposal.no_votes,
            voters: proposal.voters,
            status: proposal.status,
            ..head
        }),
    ensures
        read_proposal_votes(
            head,
            proposal_votes_bytes(proposal) + (proposal_end_bytes(proposal) + tail),
        ) == Some(proposal),
{
    let rest = proposal_end_bytes(proposal) + tail;
    lemma_proposal_votes_round_trip(proposal, rest);
    let inner = ProposalView {
        created_at: proposal.created_at,
        voting_ends_at: proposal.voting_ends_at,
        yes_votes: proposal.yes_votes,
        no_votes: proposal.no_votes,
        ..head
    };
    lemma_proposal_end_round_trip(inner, proposal, tail);
}

/// A proposal is read back from its bytes, whatever follows them: what is
/// saved is what is loaded.
pub proof fn lemma_proposal_round_trip(proposal: ProposalView, tail: Seq<u8>)
    requires
        proposal_writable(proposal),
    ensures
        read_proposal(proposal_bytes(proposal) + tail) == Some(proposal),
{
    let back = proposal_votes_bytes(proposal) + (proposal_end_bytes(proposal) + tail);
    let head = ProposalView {
        id: proposal.id,
        proposer: proposal.proposer,
        title: proposal.title,
        description: proposal.description,
        actions: proposal.actions,
        created_at: 0,
        voting_ends_at: 0,
        yes_votes: 0,
        no_votes: 0,
        voters: Seq::empty(),
        status: ProposalStatus::Active,
    };
    assert(proposal_bytes(proposal) + tail == proposal_front_bytes(proposal) + back) by {
        assert(proposal_bytes(proposal) + tail =~= proposal_front_bytes(proposal) + back);
    }
    lemma_proposal_front_round_trip(proposal, back);
    lemma_proposal_back_round_trip(head, proposal, tail);
}

impl Proposal {
    /// Write the proposal as bytes.
    pub fn encode(&self) -> (r: Vec<u8>)
        ensures
            r@ == proposal_bytes(self@),
    {
        let mut out: Vec<u8> = Vec::new();
        push_bytes(&mut out, self.id.0.as_slice());
        push_bytes(&mut out, self.proposer.0.as_slice());
        push_text_field(&mut out, self.title.as_str());
        push_text_field(&mut out, self.description.as_str());
        push_actions(&mut out, self.actions.as_slice());
        push_i64_le(&mut out, self.created_at);
        push_i64_le(&mut out, self.voting_ends_at);
        push_u128_le(&mut out, self.yes_votes);
        push_u128_le(&mut out, self.no_votes);
        push_u64_le(&mut out, self.voters.len() as u64);
        let ghost start = out@;
        let mut i: usize = 0;
        assert(voter_views(self.voters@).subrange(0, 0) =~= Seq::<(Seq<u8>, bool)>::empty());
        while i < self.voters.len()
            invariant
                0 <= i <= self.voters@.len(),
                out@ == start + voters_bytes(voter_views(self.voters@).subrange(0, i as int)),
            decreases self.voters@.len() - i,
        {
            let ghost prefix = voter_views(self.voters@).subrange(0, i as int + 1);
            assert(prefix.drop_last() =~= voter_views(self.voters@).subrange(0, i as int));
            assert(prefix.last() == (self.voters@[i as int].0.0@, self.voters@[i as int].1));
            push_bytes(&mut out, self.voters[i].0.0.as_slice());
            push_flag(&mut out, self.voters[i].1);
            assert(out@ =~= start + voters_bytes(prefix));
            i += 1;
        }
        assert(voter_views(self.voters@).subrange(0, self.voters@.len() as int) =~= voter_views(
            self.voters@,
        ));
        push_u32_le(&mut out, status_tag(self.status));
        assert(out@ =~= proposal_bytes(self@));
        out
    }

    /// Read a proposal from the front of `input`.
    pub fn decode(input: &[u8]) -> (r: Option<Self>)
        ensures
            match read_proposal(input@) {
                Some(proposal) => r is Some && r->Some_0@ == proposal,
                None => r is None,
            },
    {
        let mut reader = Reader::new(input);
        let id = reader.digest()?;
        let proposer = reader.address()?;
        let title = reader.text()?;
        let description = reader.text()?;
        let actions = read_actions(&mut reader)?;
        let created_at = time(&mut reader)?;
        let voting_ends_at = time(&mut reader)?;
        let yes_votes = reader.u128()?;
        let no_votes = reader.u128()?;
        let count = reader.u64()?;
        let ghost start = reader.rest();
        let ghost head = ProposalView {
            id: id.0@,
            proposer: proposer.0@,
            title: title@,
            description: description@,
            actions: action_views(actions@),
            created_at,
            voting_ends_at,
            yes_votes,
            no_votes,
            voters: Seq::empty(),
            status: ProposalStatus::Active,
        };
        assert(read_proposal(input@) == read_proposal_end(head, start, count as nat));
        let mut voters: Vec<(Address, bool)> = Vec::new();
        let mut i: u64 = 0;
        assert(voter_views(voters@) =~= Seq::<(Seq<u8>, bool)>::empty());
        while i < count
            invariant
                0 <= i <= count,
                voters@.len() == i,
                read_proposal(input@) == read_proposal_end(head, start, count as nat),
                read_voters(start, i as nat) == Some((voter_views(voters@), reader.rest())),
            decreases count - i,
        {
            let ghost seen = voter_views(voters@);
            let voter = match reader.address() {
                Some(v) => v,
                None => {
                    proof {
                        assert(read_voters(start, (i + 1) as nat).is_none());
                        lemma_read_voters_fails(start, (i + 1) as nat, count as nat);
                    }
                    return None;
                },
            };
            let vote = match flag(&mut reader) {
                Some(v) => v,
                None => {
                    proof {
                        assert(read_voters(start, (i + 1) as nat).is_none());
                        lemma_read_voters_fails(start, (i + 1) as nat, count as nat);
                    }
                    return None;
                },
            };
            voters.push((voter, vote));
            assert(voter_views(voters@) =~= seen.push((voter.0@, vote)));
            i += 1;
        }
        let status = status_of(reader.u32()?)?;
        Some(
            Proposal {
                id,
                proposer,
                title,
                description,
                actions,
                created_at,
                voting_ends_at,
                yes_votes,
                no_votes,
                voters,
                status,
            },
        )
    }

    /// Whether an address has voted on this proposal.
    pub fn has_vote_of(&self, voter: &Address) -> (r: bool)
        ensures
            r == has_voted(self.voters@, *voter),
    {
        let mut i: usize = 0;
        while i < self.voters.len()
            invariant
                0 <= i <= self.voters@.len(),
                forall|j: int| 0 <= j < i ==> (#[trigger] self.voters@[j]).0 != *voter,
            decreases self.voters@.len() - i,
        {
            if self.voters[i].0 == *voter {
                return true;
            }
            i += 1;
        }
        false
    }
}

/// Governance contract, fully storage-backed.
#[derive(Clone, Copy, Debug)]
pub struct GovernanceContract {
    /// Contract ID
    id: Id,
}

/// The views of some ids.
pub open spec fn id_views(ids: Seq<Id>) -> Seq<Seq<u8>> {
    ids.map_values(|id: Id| id.0@)
}

/// The bytes of some ids are the bytes of their views.
proof fn lemma_digest_bytes(ids: Seq<Id>)
    ensures
        crate::encoding::digest_bytes(ids) == ids_bytes(id_views(ids)),
    decreases ids.len(),
{
    if ids.len() > 0 {
        lemma_digest_bytes(ids.drop_last());
        assert(id_views(ids).drop_last() =~= id_views(ids.drop_last()));
    }
}

/// A voter has voted exactly where the voter's bytes are among the views.
proof fn lemma_voted(voters: Seq<(Address, bool)>, voter: Address)
    ensures
        has_voted(voters, voter) == voted(voter_views(voters), voter.0@),
{
    if has_voted(voters, voter) {
        let i = choose|i: int| 0 <= i < voters.len() && (#[trigger] voters[i]).0 == voter;
        assert(voter_views(voters)[i].0 == voter.0@);
    }
    if voted(voter_views(voters), voter.0@) {
        let i = choose|i: int|
            0 <= i < voter_views(voters).len() && (#[trigger] voter_views(voters)[i]).0
                == voter.0@;
        assert(voters[i].0.0 =~= voter.0);
    }
}

impl GovernanceContract {
    /// Create new governance contract
    pub fn new() -> (r: Self)
        ensures
            r.contract_id() == spec_governance_contract_id(),
    {
        GovernanceContract { id: governance_contract_id() }
    }

    /// The address under which the contract keeps its storage: the first
    /// twenty bytes of the contract id.
    pub open spec fn home(&self) -> Address {
        address_of(self.contract_id().0@.subrange(0, 20))
    }

    /// The contract address used for storage keys: the first twenty bytes of
    /// the contract id
    pub fn contract_address(&self) -> (r: Address)
        ensures
            r.0@ == self.contract_id().0@.subrange(0, 20),
            r == self.home(),
    {
        let r = Address::from_prefix(self.id.0.as_slice());
        proof {
            lemma_address_of(r);
        }
        r
    }

    /// The storage key of a proposal: the prefix, then the proposal id
    pub fn proposal_key(proposal_id: &Id) -> (r: Vec<u8>)
        ensures
            r@ == proposal_key_of(proposal_id.0@),
    {
        let mut key: Vec<u8> = Vec::new();
        push_text(&mut key, PROPOSAL_PREFIX);
        push_bytes(&mut key, proposal_id.0.as_slice());
        key
    }

    /// A proposal, read from storage.
    pub fn load_proposal(&self, state: &ContractState, proposal_id: &Id) -> (r: Option<Proposal>)
        ensures
            match stored_proposal(
                state.journal().read(self.home(), proposal_key_of(proposal_id.0@)),
            ) {
                Some(proposal) => r is Some && r->Some_0@ == proposal,
                None => r is None,
            },
    {
        let key = Self::proposal_key(proposal_id);
        let data = state.storage_read(&self.contract_address(), key.as_slice())?;
        Proposal::decode(data.as_slice())
    }

    /// Write a proposal to storage, under its own id.
    pub fn save_proposal(&self, state: &mut ContractState, proposal: &Proposal)
        ensures
            final(state).base_accounts() == old(state).base_accounts(),
            final(state).base_storage() == old(state).base_storage(),
            final(state).journal() == saved(old(state).journal(), self.home(), proposal@),
    {
        let key = Self::proposal_key(&proposal.id);
        state.storage_write(self.contract_address(), key, proposal.encode());
    }

    /// The total voting power, read from storage; zero where there is none.
    pub fn load_total_voting_power(&self, state: &ContractState) -> (r: u128)
        ensures
            r == stored_power(state.journal().read(self.home(), text_bytes(KEY_TOTAL_VOTING_POWER@))),
    {
        let key = key_bytes(KEY_TOTAL_VOTING_POWER);
        match state.storage_read(&self.contract_address(), key.as_slice()) {
            Some(d) => {
                let mut reader = Reader::new(d.as_slice());
                match reader.u128() {
                    Some(p) => p,
                    None => 0,
                }
            },
            None => 0,
        }
    }

    /// Write the total voting power to storage.
    pub fn save_total_voting_power(&self, state: &mut ContractState, power: u128)
        ensures
            final(state).base_accounts() == old(state).base_accounts(),
            final(state).base_storage() == old(state).base_storage(),
            final(state).journal() == after_power_update(old(state).journal(), self.home(), power),
    {
        let mut data: Vec<u8> = Vec::new();
        push_u128_le(&mut data, power);
        state.storage_write(self.contract_address(), key_bytes(KEY_TOTAL_VOTING_POWER), data);
    }

    /// The ids of all proposals, read from storage; none where there is no
    /// index or it does not decode.
    pub fn load_proposal_index(&self, state: &ContractState) -> (r: Vec<Id>)
        ensures
            id_views(r@) == stored_index(
                state.journal().read(self.home(), text_bytes(KEY_PROPOSAL_INDEX@)),
            ),
    {
        let key = key_bytes(KEY_PROPOSAL_INDEX);
        let data = match state.storage_read(&self.contract_address(), key.as_slice()) {
            Some(d) => d,
            None => {
                let none: Vec<Id> = Vec::new();
                assert(id_views(none@) =~= Seq::<Seq<u8>>::empty());
                return none;
            },
        };
        let mut reader = Reader::new(data.as_slice());
        let count = match reader.u64() {
            Some(n) => n,
            None => {
                let none: Vec<Id> = Vec::new();
                assert(id_views(none@) =~= Seq::<Seq<u8>>::empty());
                return none;
            },
        };
        let ghost start = reader.rest();
        let mut out: Vec<Id> = Vec::new();
        let mut i: u64 = 0;
        assert(id_views(out@) =~= Seq::<Seq<u8>>::empty());
        while i < count
            invariant
                0 <= i <= count,
                out@.len() == i,
                state.journal().read(self.home(), text_bytes(KEY_PROPOSAL_INDEX@)) == Some(data@),
                read_u64(data@) == Some((count, start)),
                read_ids(start, i as nat) == Some((id_views(out@), reader.rest())),
            decreases count - i,
        {
            let ghost before = id_views(out@);
            match reader.digest() {
                Some(id) => {
                    out.push(id);
                    assert(id_views(out@) =~= before.push(id.0@));
                },
                None => {
                    proof {
                        assert(read_ids(start, (i + 1) as nat).is_none());
                        lemma_read_ids_fails(start, (i + 1) as nat, count as nat);
                    }
                    let none: Vec<Id> = Vec::new();
                    assert(id_views(none@) =~= Seq::<Seq<u8>>::empty());
                    return none;
                },
            }
            i += 1;
        }
        out
    }

    /// Write the ids of all proposals to storage.
    pub fn save_proposal_index(&self, state: &mut ContractState, index: &[Id])
        ensures
            final(state).base_accounts() == old(state).base_accounts(),
            final(state).base_storage() == old(state).base_storage(),
            final(state).journal() == old(state).journal().storage_write(
                self.home(),
                text_bytes(KEY_PROPOSAL_INDEX@),
                index_bytes(id_views(index@)),
            ),
    {
        let mut data: Vec<u8> = Vec::new();
        push_u64_le(&mut data, index.len() as u64);
        push_digests(&mut data, index);
        proof {
            lemma_digest_bytes(index@);
        }
        state.storage_write(self.contract_address(), key_bytes(KEY_PROPOSAL_INDEX), data);
    }

    /// Parse action from transaction input
    pub fn parse_action(input: &[u8]) -> (r: ContractResult<GovernanceTransactionKind>)
        ensures
            match read_kind(input@) {
                Some(kind) => r is Ok && r->Ok_0@ == kind,
                None => r is Err && r->Err_0 is InvalidTransaction,
            },
    {
        match GovernanceTransactionKind::decode(input) {
            Some(a) => Ok(a),
            None => Err(ContractError::InvalidTransaction(String::from_str("Failed to parse action"))),
        }
    }

    /// Create a new proposal.
    ///
    /// The voting period must end at least seven days after `now`. The
    /// proposal's id is the digest of proposer, title, description, actions
    /// and `now`.
    pub fn execute_create_proposal(
        &self,
        state: &mut ContractState,
        proposer: Address,
        title: String,
        description: String,
        actions: Vec<GovernanceAction>,
        voting_ends_at: i64,
        now: i64,
    ) -> (r: ContractResult<Id>)
        ensures
            final(state).base_accounts() == old(state).base_accounts(),
            final(state).base_storage() == old(state).base_storage(),
            r.is_ok() == (voting_ends_at - now >= MIN_VOTING_PERIOD),
            r is Ok ==> ({
                let proposal = new_proposal(
                    proposer.0@,
                    title@,
                    description@,
                    action_views(actions@),
                    voting_ends_at,
                    now,
                );
                &&& r->Ok_0.0@ == proposal.id
                &&& final(state).journal() == after_creation(
                    old(state).journal(),
                    self.home(),
                    self.contract_id(),
                    proposal,
                )
            }),
            r is Err ==> r->Err_0 is ExecutionFailed && final(state).journal() == old(state).journal(),
    {
        if voting_ends_at <= now {
            return Err(failed("Voting end time must be in the future"));
        }
        if (voting_ends_at as i128) - (now as i128) < MIN_VOTING_PERIOD as i128 {
            return Err(failed("Voting period must be at least 7 days"));
        }
        let mut seed: Vec<u8> = Vec::new();
        push_bytes(&mut seed, proposer.0.as_slice());
        push_text_field(&mut seed, title.as_str());
        push_text_field(&mut seed, description.as_str());
        push_actions(&mut seed, actions.as_slice());
        push_i64_le(&mut seed, now);
        assert(seed@ =~= proposal_seed(
            proposer.0@,
            title@,
            description@,
            action_views(actions@),
            now,
        ));
        let proposal_id = hash_data(seed.as_slice());
        let mut event_data: Vec<u8> = Vec::new();
        push_bytes(&mut event_data, proposal_id.0.as_slice());
        push_text_field(&mut event_data, title.as_str());
        assert(event_data@ =~= proposal_id.0@ + text_field_bytes(title@));
        let proposal = Proposal {
            id: proposal_id,
            proposer,
            title,
            description,
            actions,
            created_at: now,
            voting_ends_at,
            yes_votes: 0,
            no_votes: 0,
            voters: Vec::new(),
            status: ProposalStatus::Active,
        };
        assert(voter_views(proposal.voters@) =~= Seq::<(Seq<u8>, bool)>::empty());
        self.save_proposal(state, &proposal);
        let mut index = self.load_proposal_index(state);
        let ghost before = id_views(index@);
        index.push(proposal_id);
        assert(id_views(index@) =~= before.push(proposal_id.0@));
        self.save_proposal_index(state, index.as_slice());
        state.emit_event(
            ContractEvent {
                contract_id: self.id,
                topic: String::from_str(TOPIC_PROPOSAL_CREATED),
                data: event_data,
            },
        );
        Ok(proposal_id)
    }

    /// Cast a vote on a proposal.
    ///
    /// Refused where the proposal does not exist, is not active, its voting
    /// period has ended, or the voter has voted before.
    pub fn execute_vote(
        &self,
        state: &mut ContractState,
        voter: Address,
        proposal_id: Id,
        in_favor: bool,
        voting_power: u128,
        now: i64,
    ) -> (r: ContractResult<()>)
        ensures
            final(state).base_accounts() == old(state).base_accounts(),
            final(state).base_storage() == old(state).base_storage(),
            match after_vote(
                old(state).journal(),
                self.home(),
                self.contract_id(),
                voter.0@,
                proposal_id.0@,
                in_favor,
                voting_power,
                now,
            ) {
                Some(next) => r is Ok && final(state).journal() == next,
                None => r is Err && r->Err_0 is ExecutionFailed && final(state).journal() == old(
                    state,
                ).journal(),
            },
    {
        let mut proposal = match self.load_proposal(state, &proposal_id) {
            Some(p) => p,
            None => {
                return Err(failed("Proposal not found"));
            },
        };
        let ghost stored = proposal@;
        match proposal.status {
            ProposalStatus::Active => {},
            _ => {
                return Err(failed("Proposal is not active"));
            },
        }
        if now >= proposal.voting_ends_at {
            return Err(failed("Voting period has ended"));
        }
        proof {
            lemma_voted(proposal.voters@, voter);
        }
        if proposal.has_vote_of(&voter) {
            return Err(failed("Already voted on this proposal"));
        }
        proposal.voters.push((voter, in_favor));
        if in_favor {
            proposal.yes_votes = proposal.yes_votes.saturating_add(voting_power);
        } else {
            proposal.no_votes = proposal.no_votes.saturating_add(voting_power);
        }
        assert(proposal@.voters =~= stored.voters.push((voter.0@, in_favor)));
        assert(proposal@ == with_vote(stored, voter.0@, in_favor, voting_power));
        self.save_proposal(state, &proposal);
        let mut event_data: Vec<u8> = Vec::new();
        push_bytes(&mut event_data, proposal_id.0.as_slice());
        push_bytes(&mut event_data, voter.0.as_slice());
        event_data.push(if in_favor {
            1u8
        } else {
            0u8
        });
        push_u128_le(&mut event_data, voting_power);
        assert(event_data@ =~= proposal_id.0@ + voter.0@ + seq![vote_byte(in_favor)]
            + vstd::bytes::spec_u128_to_le_bytes(voting_power));
        state.emit_event(
            ContractEvent {
                contract_id: self.id,
                topic: String::from_str(TOPIC_VOTE_CAST),
                data: event_data,
            },
        );
        Ok(())
    }

    /// Execute an approved proposal.
    ///
    /// Refused before the voting period has ended. A proposal that misses
    /// the quorum of 30% of the total voting power, or the approval of 66% of
    /// the votes cast, is marked rejected. Otherwise its actions are executed
    /// in order; the first failure marks it as failed.
    #[verifier::loop_isolation(false)]
    pub fn execute_proposal(&self, state: &mut ContractState, proposal_id: Id, now: i64) -> (r:
        ContractResult<()>)
        ensures
            final(state).base_accounts() == old(state).base_accounts(),
            final(state).base_storage() == old(state).base_storage(),
            final(state).journal() == after_execution(
                old(state).journal(),
                self.home(),
                self.contract_id(),
                proposal_id.0@,
                now,
            ).0,
            r.is_ok() == after_execution(
                old(state).journal(),
                self.home(),
                self.contract_id(),
                proposal_id.0@,
                now,
            ).1,
            r is Err ==> r->Err_0 is ExecutionFailed || r->Err_0 is InsufficientBalance,
    {
        let mut proposal = match self.load_proposal(state, &proposal_id) {
            Some(p) => p,
            None => {
                return Err(failed("Proposal not found"));
            },
        };
        let ghost stored = proposal@;
        if now < proposal.voting_ends_at {
            return Err(failed("Voting period not yet ended"));
        }
        let total_votes = proposal.yes_votes.saturating_add(proposal.no_votes);
        let total_voting_power = self.load_total_voting_power(state);
        let quorum = HclawAmount(total_voting_power).percentage(QUORUM_PERCENT).0;
        if total_votes < quorum {
            proposal.status = ProposalStatus::Rejected;
            self.save_proposal(state, &proposal);
            return Err(failed("Quorum not reached"));
        }
        let approval_percent = if total_votes > 0 {
            percentage_of(proposal.yes_votes, total_votes)
        } else {
            0
        };
        if approval_percent < APPROVAL_THRESHOLD_PERCENT as u128 {
            proposal.status = ProposalStatus::Rejected;
            self.save_proposal(state, &proposal);
            return Err(failed("Approval threshold not met"));
        }
        proposal.status = ProposalStatus::Passed;
        let ghost actions = stored.actions;
        let mut i: usize = 0;
        while i < proposal.actions.len()
            invariant
                0 <= i <= proposal.actions@.len(),
                action_views(proposal.actions@) == actions,
                proposal@ == (ProposalView { status: ProposalStatus::Passed, ..stored }),
                state.base_accounts() == old(state).base_accounts(),
                state.base_storage() == old(state).base_storage(),
                after_actions(old(state).journal(), actions, 0) == after_actions(
                    state.journal(),
                    actions,
                    i as nat,
                ),
            decreases proposal.actions@.len() - i,
        {
            assert(proposal.actions@[i as int]@ == actions[i as int]);
            let ghost before = state.journal();
            match self.execute_governance_action(state, &proposal.actions[i]) {
                Ok(()) => {},
                Err(e) => {
                    assert(after_actions(before, actions, i as nat) == (before, false));
                    proposal.status = ProposalStatus::ExecutionFailed;
                    self.save_proposal(state, &proposal);
                    return Err(e);
                },
            }
            i += 1;
        }
        proposal.status = ProposalStatus::Executed;
        self.save_proposal(state, &proposal);
        state.emit_event(
            ContractEvent {
                contract_id: self.id,
                topic: String::from_str(TOPIC_PROPOSAL_EXECUTED),
                data: copy_bytes(proposal_id.0.as_slice()),
            },
        );
        Ok(())
    }

    fn write_under(
        &self,
        state: &mut ContractState,
        prefix: &str,
        subject: &str,
        value: Vec<u8>,
    )
        ensures
            final(state).base_accounts() == old(state).base_accounts(),
            final(state).base_storage() == old(state).base_storage(),
            final(state).journal() == recorded(old(state).journal(), prefix@, subject@, value@),
    {
        let mut key: Vec<u8> = Vec::new();
        push_text(&mut key, prefix);
        push_text(&mut key, subject);
        state.storage_write(Address::zero(), key, value);
    }

    /// Execute a governance action.
    ///
    /// Parameter updates, upgrades, pauses and resumes are recorded under the
    /// zero address; a treasury spend transfers from the zero address and
    /// fails where the treasury is short.
    pub fn execute_governance_action(&self, state: &mut ContractState, action: &GovernanceAction) -> (r:
        ContractResult<()>)
        ensures
            final(state).base_accounts() == old(state).base_accounts(),
            final(state).base_storage() == old(state).base_storage(),
            match after_action(old(state).journal(), action@) {
                Some(next) => r is Ok && final(state).journal() == next,
                None => r is Err && r->Err_0 is InsufficientBalance && final(state).journal() == old(
                    state,
                ).journal(),
            },
    {
        match action {
            GovernanceAction::ParameterUpdate { key, value } => {
                self.write_under(state, PARAM_PREFIX, key.as_str(), copy_bytes(value.as_slice()));
                Ok(())
            },
            GovernanceAction::ContractUpgrade { contract_id, new_code, new_code_hash } => {
                let subject = hex_encode(contract_id.0.as_slice());
                self.write_under(
                    state,
                    UPGRADE_PREFIX,
                    subject.as_str(),
                    copy_bytes(new_code.as_slice()),
                );
                self.write_under(
                    state,
                    UPGRADE_HASH_PREFIX,
                    subject.as_str(),
                    copy_bytes(new_code_hash.0.as_slice()),
                );
                Ok(())
            },
            GovernanceAction::TreasurySpend { recipient, amount, purpose } => {
                let treasury = Address::zero();
                proof {
                    lemma_address_of(*recipient);
                }
                match state.transfer(treasury, *recipient, *amount) {
                    Ok(()) => {},
                    Err(e) => {
                        return Err(e);
                    },
                }
                let subject = hex_encode(recipient.0.as_slice());
                self.write_under(
                    state,
                    TREASURY_SPEND_PREFIX,
                    subject.as_str(),
                    copy_bytes(purpose.as_str().as_bytes()),
                );
                Ok(())
            },
            GovernanceAction::EmergencyPause { contract_id, reason } => {
                let subject = hex_encode(contract_id.0.as_slice());
                self.write_under(
                    state,
                    PAUSED_PREFIX,
                    subject.as_str(),
                    copy_bytes(reason.as_str().as_bytes()),
                );
                Ok(())
            },
            GovernanceAction::Resume { contract_id } => {
                let subject = hex_encode(contract_id.0.as_slice());
                self.write_under(state, PAUSED_PREFIX, subject.as_str(), Vec::new());
                Ok(())
            },
        }
    }
}

impl Default for GovernanceContract {
    fn default() -> (r: Self)
        ensures
            r.contract_id() == spec_governance_contract_id(),
    {
        Self::new()
    }
}

/// The address under which the governance contract keeps its storage: the
/// first twenty bytes of its id.
pub open spec fn governance_home() -> Address {
    address_of(spec_governance_contract_id().0@.subrange(0, 20))
}

/// Whether a result and a journal are what the governance contract gives
/// for a transaction on a journal: a transaction whose input is no
/// governance transaction is refused as invalid and changes nothing; any
/// other leaves what it leaves, and succeeds where it is accepted. A success
/// tells the root of the ledger as it stands, the flat gas charge, the
/// events so far and no output.
pub open spec fn is_governance_execution(
    home: Address,
    contract_id: Id,
    before: super::journal::Journal,
    tx: ContractTransaction,
    r: ContractResult<ExecutionResult>,
    after: super::journal::Journal,
) -> bool {
    &&& match read_kind(tx.input@) {
        Some(kind) => {
            let done = after_transaction(
                before,
                home,
                contract_id,
                tx.sender_address.0@,
                tx.timestamp,
                kind,
            );
            after == done.0 && r.is_ok() == done.1
        },
        None => r is Err && r->Err_0 is InvalidTransaction && after == before,
    }
    &&& r is Ok ==> r->Ok_0.new_state_root == state_root_of(after.accounts) && r->Ok_0.gas_used
        == GOVERNANCE_GAS && r->Ok_0.output@.len() == 0 && event_views(r->Ok_0.events@)
        == after.events
}

impl Contract for GovernanceContract {
    closed spec fn contract_id(&self) -> Id {
        self.id
    }

    open spec fn executes(
        &self,
        before: super::journal::Journal,
        tx: ContractTransaction,
        r: ContractResult<ExecutionResult>,
        after: super::journal::Journal,
    ) -> bool {
        is_governance_execution(self.home(), self.contract_id(), before, tx, r, after)
    }

    open spec fn verifies(
        &self,
        journal: super::journal::Journal,
        tx: ContractTransaction,
        result: ExecutionResult,
        r: ContractResult<bool>,
    ) -> bool {
        super::genesis_bounty::is_root_verdict(journal, result, r)
    }

    fn id(&self) -> (r: Id) {
        self.id
    }

    fn name(&self) -> (r: &str)
        ensures
            r@ == "GovernanceContract"@,
    {
        "GovernanceContract"
    }

    fn version(&self) -> (r: u32)
        ensures
            r == 1,
    {
        1
    }

    fn execute(&self, state: &mut ContractState, tx: &ContractTransaction) -> (r: ContractResult<
        ExecutionResult,
    >)
        ensures
            match read_kind(tx.input@) {
                Some(kind) => {
                    let after = after_transaction(
                        old(state).journal(),
                        self.home(),
                        self.contract_id(),
                        tx.sender_address.0@,
                        tx.timestamp,
                        kind,
                    );
                    final(state).journal() == after.0 && r.is_ok() == after.1
                },
                None => r is Err && r->Err_0 is InvalidTransaction && final(state).journal() == old(
                    state,
                ).journal(),
            },
            r is Ok ==> r->Ok_0.new_state_root == state_root_of(final(state).journal().accounts)
                && r->Ok_0.gas_used == GOVERNANCE_GAS && r->Ok_0.output@.len() == 0 && event_views(
                r->Ok_0.events@,
            ) == final(state).journal().events,
    {
        let action = match Self::parse_action(tx.input.as_slice()) {
            Ok(a) => a,
            Err(e) => {
                return Err(e);
            },
        };
        let done = match action {
            GovernanceTransactionKind::CreateProposal {
                title,
                description,
                actions,
                voting_ends_at,
            } => match self.execute_create_proposal(
                state,
                tx.sender_address,
                title,
                description,
                actions,
                voting_ends_at,
                tx.timestamp,
            ) {
                Ok(_) => Ok(()),
                Err(e) => Err(e),
            },
            GovernanceTransactionKind::Vote {
                proposal_id,
                in_favor,
                voting_power,
            } => self.execute_vote(
                state,
                tx.sender_address,
                proposal_id,
                in_favor,
                voting_power,
                tx.timestamp,
            ),
            GovernanceTransactionKind::Execute { proposal_id } => self.execute_proposal(
                state,
                proposal_id,
                tx.timestamp,
            ),
            GovernanceTransactionKind::UpdateVotingPower { total_power } => {
                self.save_total_voting_power(state, total_power);
                Ok(())
            },
        };
        match done {
            Err(e) => Err(e),
            Ok(()) => Ok(
                ExecutionResult {
                    new_state_root: state.compute_state_root(),
                    gas_used: GOVERNANCE_GAS,
                    events: copy_events(state.events()),
                    output: Vec::new(),
                },
            ),
        }
    }

    fn verify(
        &self,
        state: &ContractState,
        _tx: &ContractTransaction,
        result: &ExecutionResult,
    ) -> (r: ContractResult<bool>)
        ensures
            r == Ok::<bool, ContractError>(
                state_root_of(state.journal().accounts) == result.new_state_root,
            ),
    {
        let computed_root = state.compute_state_root();
        Ok(computed_root == result.new_state_root)
    }

    fn is_upgradeable(&self) -> (r: bool)
        ensures
            r,
    {
        true
    }

    fn on_deploy(&self, state: &mut ContractState, _init_data: &[u8]) -> (r: ContractResult<()>)
        ensures
            r is Ok,
            final(state).journal() == after_power_update(
                old(state).journal(),
                self.home(),
                0,
            ).storage_write(
                self.home(),
                text_bytes(KEY_PROPOSAL_INDEX@),
                index_bytes(Seq::empty()),
            ),
    {
        self.save_total_voting_power(state, 0);
        let empty: Vec<Id> = Vec::new();
        assert(id_views(empty@) =~= Seq::<Seq<u8>>::empty());
        self.save_proposal_index(state, empty.as_slice());
        Ok(())
    }
}

} // verus!
