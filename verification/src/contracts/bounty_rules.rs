//! What the genesis bounty contract does, stated as functions on the
//! journal: what each of its transactions leaves behind.

use vstd::prelude::*;

use super::genesis_bounty::{
    read_config, stored_count, stored_participant, stored_tracker, tracker_bytes, ActionView,
    ConfigView, ParticipantView, KEY_BOUNTY_TRACKER, KEY_CONFIG, KEY_PARTICIPANT_COUNT, MIN_STAKE,
    PARTICIPANT_PREFIX,
};
use super::journal::{sat_add, sat_sub, Journal};
use super::EventView;
use crate::encoding::{hex_text, text_bytes};
use crate::genesis::bounty::{
    even_distribution, hourly_budget, BountyTracker, HOURS_PER_DAY, MIN_PUBLIC_NODES,
};
use crate::genesis::launch::BOOTSTRAP_SECONDS;
use crate::types::address::{address_of, Address};
use crate::types::amount::{HclawAmount, RAW_PER_HCLAW};
use crate::types::Id;

verus! {

/// Topic of the event that a new participant emits
pub const TOPIC_PARTICIPANT_JOINED: &'static str = "ParticipantJoined";

/// Topic of the event that a burned hour emits
pub const TOPIC_HOURLY_BURNED: &'static str = "HourlyBountyBurned";

/// Topic of the event that a distributed hour emits
pub const TOPIC_HOURLY_DISTRIBUTED: &'static str = "HourlyBountyDistributed";

/// Topic of the event that the deployment emits
pub const TOPIC_INITIALIZED: &'static str = "Initialized";

/// The storage key of the participant with the given address bytes: the
/// prefix, then the bytes in hexadecimal.
pub open spec fn participant_key_of(address: Seq<u8>) -> Seq<u8> {
    text_bytes(PARTICIPANT_PREFIX@) + text_bytes(hex_text(address))
}

/// The bytes of a participant record.
pub open spec fn participant_bytes(record: ParticipantView) -> Seq<u8> {
    record.address + vstd::bytes::spec_u128_to_le_bytes(record.stake)
        + vstd::bytes::spec_u128_to_le_bytes(record.airdrop) + vstd::bytes::spec_u128_to_le_bytes(
        record.bounties_earned,
    ) + vstd::bytes::spec_u64_to_le_bytes(record.joined_at)
}

/// The configuration that a stored byte string stands for, if it stands for
/// one.
pub open spec fn stored_config(stored: Option<Seq<u8>>) -> Option<ConfigView> {
    match stored {
        Some(bytes) => read_config(bytes),
        None => None,
    }
}

/// The record that the contract keeps of an address, if it keeps one.
pub open spec fn participant_at(journal: Journal, home: Address, address: Seq<u8>) -> Option<
    ParticipantView,
> {
    stored_participant(journal.read(home, participant_key_of(address)))
}

/// The bounty tracker that the contract keeps.
pub open spec fn tracker_at(journal: Journal, home: Address) -> BountyTracker {
    stored_tracker(journal.read(home, text_bytes(KEY_BOUNTY_TRACKER@)))
}

/// The journal after a participant record has been saved under its own
/// address.
pub open spec fn with_participant(journal: Journal, home: Address, record: ParticipantView) -> Journal {
    journal.storage_write(home, participant_key_of(record.address), participant_bytes(record))
}

/// The journal after the bounty tracker has been saved.
pub open spec fn with_tracker(journal: Journal, home: Address, tracker: BountyTracker) -> Journal {
    journal.storage_write(home, text_bytes(KEY_BOUNTY_TRACKER@), tracker_bytes(tracker))
}

/// Whether a join is accepted.
///
/// The contract must hold a configuration, the sender must be new, and
/// there must be room for one more participant. A founder joins without a
/// stake; anyone else stakes at least the minimum and must be able to pay
/// it.
pub open spec fn can_join(journal: Journal, home: Address, sender: Address, stake: u128) -> bool {
    match stored_config(journal.read(home, text_bytes(KEY_CONFIG@))) {
        Some(config) => {
            &&& participant_at(journal, home, sender.0@) is None
            &&& stored_count(journal.read(home, text_bytes(KEY_PARTICIPANT_COUNT@)))
                < config.max_participants
            &&& (config.pre_approved.contains(sender.0@) || (stake >= MIN_STAKE * RAW_PER_HCLAW
                && journal.can_debit(sender, stake)))
        },
        None => false,
    }
}

/// The journal after an accepted join at time `now`.
///
/// Anyone but a founder is debited the stake. The sender is credited the
/// airdrop of their tier, their record is saved, the participant count goes
/// up by one, and an event tells of it.
pub open spec fn after_join(
    journal: Journal,
    home: Address,
    contract_id: Id,
    sender: Address,
    stake: u128,
    now: u64,
) -> Journal
    recommends
        can_join(journal, home, sender, stake),
{
    let config = stored_config(journal.read(home, text_bytes(KEY_CONFIG@)))->Some_0;
    let founder = config.pre_approved.contains(sender.0@);
    let count = stored_count(journal.read(home, text_bytes(KEY_PARTICIPANT_COUNT@)));
    let airdrop = if founder {
        config.founder_airdrop_amount
    } else {
        config.airdrop_amount
    };
    let charged = if founder {
        journal
    } else {
        journal.debit(sender, stake)
    };
    let record = ParticipantView {
        address: sender.0@,
        stake,
        airdrop,
        bounties_earned: 0,
        joined_at: now,
    };
    with_participant(charged.credit(sender, airdrop), home, record).storage_write(
        home,
        text_bytes(KEY_PARTICIPANT_COUNT@),
        vstd::bytes::spec_u64_to_le_bytes((count + 1) as u64),
    ).emit(
        EventView {
            contract_id,
            topic: TOPIC_PARTICIPANT_JOINED@,
            data: sender.0@ + vstd::bytes::spec_u128_to_le_bytes(stake),
        },
    )
}

/// The day of an epoch, as the byte that the contract computes with.
pub open spec fn day_of(epoch: u64) -> u8 {
    ((epoch / HOURS_PER_DAY) % 256) as u8
}

/// The budget of the hour of an epoch, in raw units.
pub open spec fn budget_of(epoch: u64) -> u128 {
    hourly_budget(day_of(epoch) as int) as u128
}

/// Whether an address belongs to a participant with a stake.
pub open spec fn is_staked(journal: Journal, home: Address, address: Address) -> bool {
    match participant_at(journal, home, address.0@) {
        Some(record) => record.stake != 0,
        None => false,
    }
}

/// Whether a distribution is accepted: bounties are active, the epoch is the
/// next one, and, where there is something to hand out, every eligible
/// verifier is a participant with a stake.
pub open spec fn can_distribute(
    journal: Journal,
    home: Address,
    epoch: u64,
    verifiers: Seq<Address>,
) -> bool {
    let tracker = tracker_at(journal, home);
    &&& tracker.public_node_count >= MIN_PUBLIC_NODES
    &&& epoch == tracker.next_epoch()
    &&& (verifiers.len() == 0 || budget_of(epoch) == 0 || forall|i: int|
        0 <= i < verifiers.len() ==> is_staked(journal, home, #[trigger] verifiers[i]))
}

/// The journal after one payment: the address is credited, and where the
/// contract keeps a record of it, the record's earnings grow by the amount.
pub open spec fn after_payment(journal: Journal, home: Address, address: Address, amount: u128) -> Journal {
    let paid = journal.credit(address, amount);
    match participant_at(paid, home, address.0@) {
        Some(record) => with_participant(
            paid,
            home,
            ParticipantView {
                bounties_earned: sat_add(record.bounties_earned, amount),
                ..record
            },
        ),
        None => paid,
    }
}

/// The journal after the payments from index `from` on, in order.
pub open spec fn after_payments(
    journal: Journal,
    home: Address,
    shares: Seq<(Address, HclawAmount)>,
    from: nat,
) -> Journal
    decreases shares.len() - from,
{
    if from >= shares.len() {
        journal
    } else {
        after_payments(
            after_payment(journal, home, shares[from as int].0, shares[from as int].1.0),
            home,
            shares,
            from + 1,
        )
    }
}

/// The sum of the first `upto` shares, capped at the largest amount.
pub open spec fn paid_out(shares: Seq<(Address, HclawAmount)>, upto: nat) -> u128
    decreases upto,
{
    if upto == 0 {
        0
    } else {
        sat_add(paid_out(shares, (upto - 1) as nat), shares[upto - 1].1.0)
    }
}

/// The tracker after an hour has been settled: the epoch is recorded, what
/// was paid is added to the total paid, and what was burned, if anything, to
/// the total burned.
pub open spec fn settled_tracker(tracker: BountyTracker, epoch: u64, paid: u128, burned: u128) -> BountyTracker {
    BountyTracker {
        last_distributed_epoch: epoch,
        total_paid: HclawAmount(sat_add(tracker.total_paid.0, paid)),
        total_burned: HclawAmount(sat_add(tracker.total_burned.0, burned)),
        ..tracker
    }
}

/// The journal after an accepted distribution.
///
/// Without eligible verifiers, or with an empty budget, the hour's budget is
/// burned. Otherwise the budget is spread evenly over the verifiers, each
/// payment in turn, and what is left over is burned. Either way the tracker
/// is saved and an event tells of it.
pub open spec fn after_distribution(
    journal: Journal,
    home: Address,
    contract_id: Id,
    epoch: u64,
    verifiers: Seq<Address>,
) -> Journal {
    let tracker = tracker_at(journal, home);
    let budget = budget_of(epoch);
    let front = vstd::bytes::spec_u64_to_le_bytes(epoch) + seq![day_of(epoch)];
    if verifiers.len() == 0 || budget == 0 {
        with_tracker(journal, home, settled_tracker(tracker, epoch, 0, budget)).emit(
            EventView {
                contract_id,
                topic: TOPIC_HOURLY_BURNED@,
                data: front + vstd::bytes::spec_u128_to_le_bytes(budget),
            },
        )
    } else {
        let shares = even_distribution(verifiers, budget);
        let paid = paid_out(shares, shares.len());
        with_tracker(
            after_payments(journal, home, shares, 0),
            home,
            settled_tracker(tracker, epoch, paid, sat_sub(budget, paid)),
        ).emit(
            EventView {
                contract_id,
                topic: TOPIC_HOURLY_DISTRIBUTED@,
                data: front + vstd::bytes::spec_u128_to_le_bytes(paid)
                    + vstd::bytes::spec_u32_to_le_bytes((verifiers.len() % 0x1_0000_0000) as u32),
            },
        )
    }
}

/// The journal after the number of public nodes has been set.
pub open spec fn after_node_count(journal: Journal, home: Address, count: u32) -> Journal {
    with_tracker(
        journal,
        home,
        BountyTracker { public_node_count: count, ..tracker_at(journal, home) },
    )
}

/// The addresses with the given bytes.
pub open spec fn addresses_of(list: Seq<Seq<u8>>) -> Seq<Address> {
    list.map_values(|bytes: Seq<u8>| address_of(bytes))
}

/// The journal after a transaction from `sender` at time `now`, and whether
/// it succeeded. A transaction that is refused leaves the journal as it was.
pub open spec fn after_transaction(
    journal: Journal,
    home: Address,
    contract_id: Id,
    sender: Address,
    now: u64,
    action: ActionView,
) -> (Journal, bool) {
    match action {
        ActionView::Join { stake } => if can_join(journal, home, sender, stake) {
            (after_join(journal, home, contract_id, sender, stake, now), true)
        } else {
            (journal, false)
        },
        ActionView::Distribute { epoch, eligible } => if can_distribute(
            journal,
            home,
            epoch,
            addresses_of(eligible),
        ) {
            (after_distribution(journal, home, contract_id, epoch, addresses_of(eligible)), true)
        } else {
            (journal, false)
        },
        ActionView::Nodes { count } => (after_node_count(journal, home, count), true),
    }
}

/// The time, in milliseconds, at which a chain was launched whose bootstrap
/// period ends at `bootstrap_end`, in seconds: thirty days before that end,
/// and no earlier than zero.
pub open spec fn launch_time(bootstrap_end: u64) -> u64 {
    let seconds = if bootstrap_end >= BOOTSTRAP_SECONDS {
        bootstrap_end - BOOTSTRAP_SECONDS
    } else {
        0
    };
    if seconds * 1000 > u64::MAX {
        u64::MAX
    } else {
        (seconds * 1000) as u64
    }
}

/// The journal after a deployment: the configuration is kept as it was
/// given, the participant count is zero, the tracker is fresh and starts at
/// the launch of the chain, and an event tells the end of the bootstrap
/// period.
pub open spec fn after_deployment(
    journal: Journal,
    home: Address,
    contract_id: Id,
    init_data: Seq<u8>,
) -> Journal
    recommends
        read_config(init_data) is Some,
{
    let bootstrap_end = read_config(init_data)->Some_0.bootstrap_end;
    with_tracker(
        journal.storage_write(home, text_bytes(KEY_CONFIG@), init_data).storage_write(
            home,
            text_bytes(KEY_PARTICIPANT_COUNT@),
            vstd::bytes::spec_u64_to_le_bytes(0),
        ),
        home,
        BountyTracker {
            last_distributed_epoch: u64::MAX,
            total_paid: HclawAmount(0),
            total_burned: HclawAmount(0),
            start_time: launch_time(bootstrap_end),
            public_node_count: 0,
        },
    ).emit(
        EventView {
            contract_id,
            topic: TOPIC_INITIALIZED@,
            data: vstd::bytes::spec_u64_to_le_bytes(bootstrap_end),
        },
    )
}

} // verus!
