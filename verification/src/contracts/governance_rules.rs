//! What the governance contract does, stated as functions on the journal:
//! what it keeps in storage, and what each of its transactions leaves behind.

use vstd::prelude::*;

use super::codec::{read_digest, read_u128, read_u64, text_field_bytes};
use super::governance::{
    proposal_bytes, read_proposal, KindView, ProposalStatus, ProposalView,
    APPROVAL_THRESHOLD_PERCENT, KEY_PROPOSAL_INDEX, KEY_TOTAL_VOTING_POWER, MIN_VOTING_PERIOD,
    PROPOSAL_PREFIX, QUORUM_PERCENT,
};
use super::governance_codec::action_list_bytes;
use super::journal::{sat_add, Journal};
use super::EventView;
use crate::crypto::hash::blake3_digest;
use crate::encoding::{hex_text, spec_i64_to_le_bytes, text_bytes};
use crate::types::address::{address_of, zero_address, Address};
use crate::types::amount::HclawAmount;
use crate::types::governance::GovernanceActionView;
use crate::types::Id;

verus! {

/// Prefix of the keys under which parameter updates are recorded
pub const PARAM_PREFIX: &'static str = "param:";

/// Prefix of the keys under which new contract code is recorded
pub const UPGRADE_PREFIX: &'static str = "upgrade:";

/// Prefix of the keys under which the digest of new contract code is recorded
pub const UPGRADE_HASH_PREFIX: &'static str = "upgrade_hash:";

/// Prefix of the keys under which treasury spends are recorded
pub const TREASURY_SPEND_PREFIX: &'static str = "treasury_spend:";

/// Prefix of the keys under which pauses are recorded
pub const PAUSED_PREFIX: &'static str = "paused:";

/// Topic of the event that a new proposal emits
pub const TOPIC_PROPOSAL_CREATED: &'static str = "ProposalCreated";

/// Topic of the event that a vote emits
pub const TOPIC_VOTE_CAST: &'static str = "VoteCast";

/// Topic of the event that an executed proposal emits
pub const TOPIC_PROPOSAL_EXECUTED: &'static str = "ProposalExecuted";

/// The storage key of a proposal: the prefix, then the proposal id.
pub open spec fn proposal_key_of(id: Seq<u8>) -> Seq<u8> {
    text_bytes(PROPOSAL_PREFIX@) + id
}

/// The proposal that a stored byte string stands for, if it stands for one.
pub open spec fn stored_proposal(stored: Option<Seq<u8>>) -> Option<ProposalView> {
    match stored {
        Some(bytes) => read_proposal(bytes),
        None => None,
    }
}

/// The voting power that a stored byte string stands for: the 128-bit
/// integer at its front, and zero where there is none.
pub open spec fn stored_power(stored: Option<Seq<u8>>) -> u128 {
    match stored {
        Some(bytes) => match read_u128(bytes) {
            Some((power, _)) => power,
            None => 0,
        },
        None => 0,
    }
}

/// Some ids, read one after the other off the front of a byte string.
pub open spec fn read_ids(bytes: Seq<u8>, count: nat) -> Option<(Seq<Seq<u8>>, Seq<u8>)>
    decreases count,
{
    if count == 0 {
        Some((Seq::empty(), bytes))
    } else {
        match read_ids(bytes, (count - 1) as nat) {
            Some((front, rest)) => match read_digest(rest) {
                Some((id, after)) => Some((front.push(id), after)),
                None => None,
            },
            None => None,
        }
    }
}

/// The bytes of some ids, one after the other.
pub open spec fn ids_bytes(ids: Seq<Seq<u8>>) -> Seq<u8>
    decreases ids.len(),
{
    if ids.len() == 0 {
        Seq::empty()
    } else {
        ids_bytes(ids.drop_last()) + ids.last()
    }
}

/// The bytes of a proposal index: the number of ids, then the ids.
pub open spec fn index_bytes(ids: Seq<Seq<u8>>) -> Seq<u8> {
    vstd::bytes::spec_u64_to_le_bytes(ids.len() as u64) + ids_bytes(ids)
}

/// The proposal index that a stored byte string stands for: no ids where
/// there is none or the bytes do not decode.
pub open spec fn stored_index(stored: Option<Seq<u8>>) -> Seq<Seq<u8>> {
    match stored {
        Some(bytes) => match read_u64(bytes) {
            Some((count, rest)) => match read_ids(rest, count as nat) {
                Some((ids, _)) => ids,
                None => Seq::empty(),
            },
            None => Seq::empty(),
        },
        None => Seq::empty(),
    }
}

/// The journal after a proposal has been saved under its own id.
pub open spec fn saved(journal: Journal, home: Address, proposal: ProposalView) -> Journal {
    journal.storage_write(home, proposal_key_of(proposal.id), proposal_bytes(proposal))
}

/// The journal after a record has been written under the zero address: the
/// key is a prefix followed by a subject.
pub open spec fn recorded(
    journal: Journal,
    prefix: Seq<char>,
    subject: Seq<char>,
    value: Seq<u8>,
) -> Journal {
    journal.storage_write(zero_address(), text_bytes(prefix) + text_bytes(subject), value)
}

/// The journal after a governance action, where the action succeeds.
///
/// Parameter updates, upgrades, pauses and resumes are recorded under the
/// zero address and always succeed. A treasury spend moves the amount from
/// the zero address to the recipient and records its purpose; it fails where
/// the zero address cannot cover the amount.
pub open spec fn after_action(journal: Journal, action: GovernanceActionView) -> Option<Journal> {
    match action {
        GovernanceActionView::ParameterUpdate { key, value } => Some(
            recorded(journal, PARAM_PREFIX@, key, value),
        ),
        GovernanceActionView::ContractUpgrade { contract_id, new_code_hash, new_code } => Some(
            recorded(
                recorded(journal, UPGRADE_PREFIX@, hex_text(contract_id), new_code),
                UPGRADE_HASH_PREFIX@,
                hex_text(contract_id),
                new_code_hash,
            ),
        ),
        GovernanceActionView::TreasurySpend { recipient, amount, purpose } => if journal.can_debit(
            zero_address(),
            amount,
        ) {
            Some(
                recorded(
                    journal.transfer(zero_address(), address_of(recipient), amount),
                    TREASURY_SPEND_PREFIX@,
                    hex_text(recipient),
                    text_bytes(purpose),
                ),
            )
        } else {
            None
        },
        GovernanceActionView::EmergencyPause { contract_id, reason } => Some(
            recorded(journal, PAUSED_PREFIX@, hex_text(contract_id), text_bytes(reason)),
        ),
        GovernanceActionView::Resume { contract_id } => Some(
            recorded(journal, PAUSED_PREFIX@, hex_text(contract_id), Seq::empty()),
        ),
    }
}

/// The journal after the actions from index `from` on have been executed in
/// order, and whether all of them succeeded. The first action that fails
/// stops the run; what the actions before it did stays.
pub open spec fn after_actions(journal: Journal, actions: Seq<GovernanceActionView>, from: nat) -> (
    Journal,
    bool,
)
    decreases actions.len() - from,
{
    if from >= actions.len() {
        (journal, true)
    } else {
        match after_action(journal, actions[from as int]) {
            Some(next) => after_actions(next, actions, from + 1),
            None => (journal, false),
        }
    }
}

/// The bytes whose digest is the id of a new proposal: proposer, title,
/// description, actions and the time of creation.
pub open spec fn proposal_seed(
    proposer: Seq<u8>,
    title: Seq<char>,
    description: Seq<char>,
    actions: Seq<GovernanceActionView>,
    now: i64,
) -> Seq<u8> {
    proposer + text_field_bytes(title) + text_field_bytes(description) + action_list_bytes(actions)
        + spec_i64_to_le_bytes(now)
}

/// The proposal that a creation at time `now` makes: active, without votes,
/// its id the digest of its seed.
pub open spec fn new_proposal(
    proposer: Seq<u8>,
    title: Seq<char>,
    description: Seq<char>,
    actions: Seq<GovernanceActionView>,
    voting_ends_at: i64,
    now: i64,
) -> ProposalView {
    ProposalView {
        id: blake3_digest(proposal_seed(proposer, title, description, actions, now))@,
        proposer,
        title,
        description,
        actions,
        created_at: now,
        voting_ends_at,
        yes_votes: 0,
        no_votes: 0,
        voters: Seq::empty(),
        status: ProposalStatus::Active,
    }
}

/// The journal after a proposal has been created: the proposal is saved, its
/// id is appended to the index, and an event tells of it.
pub open spec fn after_creation(
    journal: Journal,
    home: Address,
    contract_id: Id,
    proposal: ProposalView,
) -> Journal {
    let kept = saved(journal, home, proposal);
    let index = stored_index(kept.read(home, text_bytes(KEY_PROPOSAL_INDEX@))).push(proposal.id);
    kept.storage_write(home, text_bytes(KEY_PROPOSAL_INDEX@), index_bytes(index)).emit(
        EventView {
            contract_id,
            topic: TOPIC_PROPOSAL_CREATED@,
            data: proposal.id + text_field_bytes(proposal.title),
        },
    )
}

/// Whether a voter is among those who have voted.
pub open spec fn voted(voters: Seq<(Seq<u8>, bool)>, voter: Seq<u8>) -> bool {
    exists|i: int| 0 <= i < voters.len() && (#[trigger] voters[i]).0 == voter
}

/// Whether a vote is accepted: the proposal is active, its voting period has
/// not ended, and the voter has not voted before.
pub open spec fn can_vote(proposal: ProposalView, voter: Seq<u8>, now: i64) -> bool {
    &&& proposal.status is Active
    &&& now < proposal.voting_ends_at
    &&& !voted(proposal.voters, voter)
}

/// A proposal with one more vote: the voter is recorded and the voting power
/// is added, without overflow, to the side it was cast for.
pub open spec fn with_vote(
    proposal: ProposalView,
    voter: Seq<u8>,
    in_favor: bool,
    voting_power: u128,
) -> ProposalView {
    ProposalView {
        voters: proposal.voters.push((voter, in_favor)),
        yes_votes: if in_favor {
            sat_add(proposal.yes_votes, voting_power)
        } else {
            proposal.yes_votes
        },
        no_votes: if in_favor {
            proposal.no_votes
        } else {
            sat_add(proposal.no_votes, voting_power)
        },
        ..proposal
    }
}

/// The byte that stands for a vote in an event.
pub open spec fn vote_byte(in_favor: bool) -> u8 {
    if in_favor {
        1
    } else {
        0
    }
}

/// The journal after a vote, where the vote is accepted.
pub open spec fn after_vote(
    journal: Journal,
    home: Address,
    contract_id: Id,
    voter: Seq<u8>,
    proposal_id: Seq<u8>,
    in_favor: bool,
    voting_power: u128,
    now: i64,
) -> Option<Journal> {
    match stored_proposal(journal.read(home, proposal_key_of(proposal_id))) {
        Some(proposal) => if can_vote(proposal, voter, now) {
            Some(
                saved(journal, home, with_vote(proposal, voter, in_favor, voting_power)).emit(
                    EventView {
                        contract_id,
                        topic: TOPIC_VOTE_CAST@,
                        data: proposal_id + voter + seq![vote_byte(in_favor)]
                            + vstd::bytes::spec_u128_to_le_bytes(voting_power),
                    },
                ),
            )
        } else {
            None
        },
        None => None,
    }
}

/// Whether the votes cast reach the quorum: 30% of the total voting power.
pub open spec fn quorum_reached(proposal: ProposalView, total_power: u128) -> bool {
    sat_add(proposal.yes_votes, proposal.no_votes) >= HclawAmount::spec_percentage(
        total_power,
        QUORUM_PERCENT,
    )
}

/// Whether the votes in favour reach the approval threshold: 66% of the
/// votes cast, rounded down. Without votes there is no approval.
pub open spec fn approval_reached(proposal: ProposalView) -> bool {
    let cast = sat_add(proposal.yes_votes, proposal.no_votes);
    cast > 0 && proposal.yes_votes as int * 100 / cast as int >= APPROVAL_THRESHOLD_PERCENT
}

/// The journal after the execution of a proposal at time `now`, and whether
/// it succeeded.
///
/// Nothing changes where the proposal is unknown or its voting period has
/// not ended. A proposal that misses the quorum or the approval threshold is
/// saved as rejected. Otherwise its actions run in order: where all succeed
/// it is saved as executed and an event tells of it; where one fails it is
/// saved as failed, after what the earlier actions did.
pub open spec fn after_execution(
    journal: Journal,
    home: Address,
    contract_id: Id,
    proposal_id: Seq<u8>,
    now: i64,
) -> (Journal, bool) {
    match stored_proposal(journal.read(home, proposal_key_of(proposal_id))) {
        Some(proposal) => if now < proposal.voting_ends_at {
            (journal, false)
        } else if !quorum_reached(
            proposal,
            stored_power(journal.read(home, text_bytes(KEY_TOTAL_VOTING_POWER@))),
        ) || !approval_reached(proposal) {
            (
                saved(journal, home, ProposalView { status: ProposalStatus::Rejected, ..proposal }),
                false,
            )
        } else {
            let (ran, done) = after_actions(journal, proposal.actions, 0);
            if done {
                (
                    saved(
                        ran,
                        home,
                        ProposalView { status: ProposalStatus::Executed, ..proposal },
                    ).emit(
                        EventView {
                            contract_id,
                            topic: TOPIC_PROPOSAL_EXECUTED@,
                            data: proposal_id,
                        },
                    ),
                    true,
                )
            } else {
                (
                    saved(
                        ran,
                        home,
                        ProposalView { status: ProposalStatus::ExecutionFailed, ..proposal },
                    ),
                    false,
                )
            }
        },
        None => (journal, false),
    }
}

/// The journal after the total voting power has been set.
pub open spec fn after_power_update(journal: Journal, home: Address, total_power: u128) -> Journal {
    journal.storage_write(
        home,
        text_bytes(KEY_TOTAL_VOTING_POWER@),
        vstd::bytes::spec_u128_to_le_bytes(total_power),
    )
}

/// The journal after a governance transaction from `sender` at time `now`,
/// and whether it succeeded.
pub open spec fn after_transaction(
    journal: Journal,
    home: Address,
    contract_id: Id,
    sender: Seq<u8>,
    now: i64,
    kind: KindView,
) -> (Journal, bool) {
    match kind {
        KindView::CreateProposal { title, description, actions, voting_ends_at } => if voting_ends_at
            - now >= MIN_VOTING_PERIOD {
            (
                after_creation(
                    journal,
                    home,
                    contract_id,
                    new_proposal(sender, title, description, actions, voting_ends_at, now),
                ),
                true,
            )
        } else {
            (journal, false)
        },
        KindView::Vote { proposal_id, in_favor, voting_power } => match after_vote(
            journal,
            home,
            contract_id,
            sender,
            proposal_id,
            in_favor,
            voting_power,
            now,
        ) {
            Some(next) => (next, true),
            None => (journal, false),
        },
        KindView::Execute { proposal_id } => after_execution(
            journal,
            home,
            contract_id,
            proposal_id,
            now,
        ),
        KindView::UpdateVotingPower { total_power } => (
            after_power_update(journal, home, total_power),
            true,
        ),
    }
}

/// Some ids are read back from their bytes, whatever follows them.
pub proof fn lemma_ids_round_trip(ids: Seq<Seq<u8>>, tail: Seq<u8>)
    requires
        forall|i: int| 0 <= i < ids.len() ==> (#[trigger] ids[i]).len() == 32,
    ensures
        read_ids(ids_bytes(ids) + tail, ids.len()) == Some((ids, tail)),
    decreases ids.len(),
{
    if ids.len() == 0 {
        assert(ids_bytes(ids) + tail =~= tail);
        assert(ids =~= Seq::<Seq<u8>>::empty());
    } else {
        let front = ids.drop_last();
        let last = ids.last();
        assert(ids_bytes(ids) + tail =~= ids_bytes(front) + (last + tail));
        lemma_ids_round_trip(front, last + tail);
        super::codec::lemma_split_joined(last, tail);
        assert(front.push(last) =~= ids);
    }
}

/// Once fewer ids can be read than were asked for, no larger number can be
/// read either.
pub proof fn lemma_read_ids_fails(bytes: Seq<u8>, short: nat, count: nat)
    requires
        short <= count,
        read_ids(bytes, short).is_none(),
    ensures
        read_ids(bytes, count).is_none(),
    decreases count,
{
    if short < count {
        lemma_read_ids_fails(bytes, short, (count - 1) as nat);
    }
}

/// What is saved is what is loaded: a stored proposal, voting power or
/// index stands for the value that was written.
pub proof fn lemma_stored_values(proposal: ProposalView, power: u128, ids: Seq<Seq<u8>>)
    requires
        super::governance::proposal_writable(proposal),
        ids.len() <= u64::MAX,
        forall|i: int| 0 <= i < ids.len() ==> (#[trigger] ids[i]).len() == 32,
    ensures
        stored_proposal(Some(proposal_bytes(proposal))) == Some(proposal),
        stored_power(Some(vstd::bytes::spec_u128_to_le_bytes(power))) == power,
        stored_index(Some(index_bytes(ids))) == ids,
{
    let none = Seq::<u8>::empty();
    super::governance::lemma_proposal_round_trip(proposal, none);
    assert(proposal_bytes(proposal) + none =~= proposal_bytes(proposal));
    super::codec::lemma_read_u128(power, none);
    assert(vstd::bytes::spec_u128_to_le_bytes(power) + none =~= vstd::bytes::spec_u128_to_le_bytes(
        power,
    ));
    super::codec::lemma_read_u64(ids.len() as u64, ids_bytes(ids));
    lemma_ids_round_trip(ids, none);
    assert(ids_bytes(ids) + none =~= ids_bytes(ids));
}

} // verus!
