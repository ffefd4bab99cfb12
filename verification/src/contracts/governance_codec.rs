//! The byte format of governance actions.
//!
//! An action is a 32-bit tag followed by its fields; a list of actions is
//! preceded by its length.

use vstd::prelude::*;

use super::codec::{
    blob_bytes, lemma_read_blob, lemma_read_text, lemma_split_joined, push_amount, push_blob,
    push_text_field, read_address, read_amount, read_blob, read_digest, read_text, read_u32,
    read_u64, text_field_bytes, Reader,
};
use crate::encoding::{push_bytes, push_u32_le, push_u64_le};
use crate::types::governance::{action_views, GovernanceAction, GovernanceActionView};

verus! {

/// The bytes of an action.
pub open spec fn action_bytes(action: GovernanceActionView) -> Seq<u8> {
    match action {
        GovernanceActionView::ParameterUpdate { key, value } => vstd::bytes::spec_u32_to_le_bytes(0)
            + text_field_bytes(key) + blob_bytes(value),
        GovernanceActionView::ContractUpgrade {
            contract_id,
            new_code_hash,
            new_code,
        } => vstd::bytes::spec_u32_to_le_bytes(1) + contract_id + new_code_hash + blob_bytes(
            new_code,
        ),
        GovernanceActionView::TreasurySpend {
            recipient,
            amount,
            purpose,
        } => vstd::bytes::spec_u32_to_le_bytes(2) + recipient + vstd::bytes::spec_u128_to_le_bytes(
            amount,
        ) + text_field_bytes(purpose),
        GovernanceActionView::EmergencyPause {
            contract_id,
            reason,
        } => vstd::bytes::spec_u32_to_le_bytes(3) + contract_id + text_field_bytes(reason),
        GovernanceActionView::Resume { contract_id } => vstd::bytes::spec_u32_to_le_bytes(4)
            + contract_id,
    }
}

/// The bytes of some actions, one after the other.
pub open spec fn actions_bytes(actions: Seq<GovernanceActionView>) -> Seq<u8>
    decreases actions.len(),
{
    if actions.len() == 0 {
        Seq::empty()
    } else {
        actions_bytes(actions.drop_last()) + action_bytes(actions.last())
    }
}

/// The bytes of a list of actions with its length in front.
pub open spec fn action_list_bytes(actions: Seq<GovernanceActionView>) -> Seq<u8> {
    vstd::bytes::spec_u64_to_le_bytes(actions.len() as u64) + actions_bytes(actions)
}

/// An action read off the front of a byte string.
pub open spec fn read_gov_action(bytes: Seq<u8>) -> Option<(GovernanceActionView, Seq<u8>)> {
    match read_u32(bytes) {
        Some((tag, r0)) => if tag == 0 {
            match read_text(r0) {
                Some((key, r1)) => match read_blob(r1) {
                    Some((value, r2)) => Some(
                        (GovernanceActionView::ParameterUpdate { key, value }, r2),
                    ),
                    None => None,
                },
                None => None,
            }
        } else if tag == 1 {
            match read_digest(r0) {
                Some((contract_id, r1)) => match read_digest(r1) {
                    Some((new_code_hash, r2)) => match read_blob(r2) {
                        Some((new_code, r3)) => Some(
                            (
                                GovernanceActionView::ContractUpgrade {
                                    contract_id,
                                    new_code_hash,
                                    new_code,
                                },
                                r3,
                            ),
                        ),
                        None => None,
                    },
                    None => None,
                },
                None => None,
            }
        } else if tag == 2 {
            match read_address(r0) {
                Some((recipient, r1)) => match read_amount(r1) {
                    Some((amount, r2)) => match read_text(r2) {
                        Some((purpose, r3)) => Some(
                            (
                                GovernanceActionView::TreasurySpend {
                                    recipient,
                                    amount: amount.0,
                                    purpose,
                                },
                                r3,
                            ),
                        ),
                        None => None,
                    },
                    None => None,
                },
                None => None,
            }
        } else if tag == 3 {
            match read_digest(r0) {
                Some((contract_id, r1)) => match read_text(r1) {
                    Some((reason, r2)) => Some(
                        (GovernanceActionView::EmergencyPause { contract_id, reason }, r2),
                    ),
                    None => None,
                },
                None => None,
            }
        } else if tag == 4 {
            match read_digest(r0) {
                Some((contract_id, r1)) => Some((GovernanceActionView::Resume { contract_id }, r1)),
                None => None,
            }
        } else {
            None
        },
        None => None,
    }
}

/// `count` actions read off the front of a byte string.
pub open spec fn read_gov_actions(bytes: Seq<u8>, count: nat) -> Option<
    (Seq<GovernanceActionView>, Seq<u8>),
>
    decreases count,
{
    if count == 0 {
        Some((Seq::empty(), bytes))
    } else {
        match read_gov_actions(bytes, (count - 1) as nat) {
            Some((list, rest)) => match read_gov_action(rest) {
                Some((action, after)) => Some((list.push(action), after)),
                None => None,
            },
            None => None,
        }
    }
}

/// A list of actions with its length in front, read off the front of a byte
/// string.
pub open spec fn read_action_list(bytes: Seq<u8>) -> Option<(Seq<GovernanceActionView>, Seq<u8>)> {
    match read_u64(bytes) {
        Some((count, rest)) => read_gov_actions(rest, count as nat),
        None => None,
    }
}

/// Whether an action can be written: its ids and addresses have their sizes,
/// and its texts and byte strings have lengths that fit in 64 bits.
pub open spec fn writable(action: GovernanceActionView) -> bool {
    match action {
        GovernanceActionView::ParameterUpdate { key, value } => vstd::utf8::encode_utf8(key).len()
            <= u64::MAX && value.len() <= u64::MAX,
        GovernanceActionView::ContractUpgrade {
            contract_id,
            new_code_hash,
            new_code,
        } => contract_id.len() == 32 && new_code_hash.len() == 32 && new_code.len() <= u64::MAX,
        GovernanceActionView::TreasurySpend {
            recipient,
            amount,
            purpose,
        } => recipient.len() == 20 && vstd::utf8::encode_utf8(purpose).len() <= u64::MAX,
        GovernanceActionView::EmergencyPause { contract_id, reason } => contract_id.len() == 32
            && vstd::utf8::encode_utf8(reason).len() <= u64::MAX,
        GovernanceActionView::Resume { contract_id } => contract_id.len() == 32,
    }
}

/// An action is read back from its bytes, whatever follows them.
pub proof fn lemma_action_round_trip(action: GovernanceActionView, tail: Seq<u8>)
    requires
        writable(action),
    ensures
        read_gov_action(action_bytes(action) + tail) == Some((action, tail)),
{
    match action {
        GovernanceActionView::ParameterUpdate { key, value } => {
            let t2 = blob_bytes(value) + tail;
            let t1 = text_field_bytes(key) + t2;
            assert(action_bytes(action) + tail =~= vstd::bytes::spec_u32_to_le_bytes(0) + t1);
            super::codec::lemma_read_u32(0, t1);
            lemma_read_text(key, t2);
            lemma_read_blob(value, tail);
        },
        GovernanceActionView::ContractUpgrade { contract_id, new_code_hash, new_code } => {
            let t3 = blob_bytes(new_code) + tail;
            let t2 = new_code_hash + t3;
            let t1 = contract_id + t2;
            assert(action_bytes(action) + tail =~= vstd::bytes::spec_u32_to_le_bytes(1) + t1);
            super::codec::lemma_read_u32(1, t1);
            lemma_split_joined(contract_id, t2);
            lemma_split_joined(new_code_hash, t3);
            lemma_read_blob(new_code, tail);
        },
        GovernanceActionView::TreasurySpend { recipient, amount, purpose } => {
            let t3 = text_field_bytes(purpose) + tail;
            let t2 = vstd::bytes::spec_u128_to_le_bytes(amount) + t3;
            let t1 = recipient + t2;
            assert(action_bytes(action) + tail =~= vstd::bytes::spec_u32_to_le_bytes(2) + t1);
            super::codec::lemma_read_u32(2, t1);
            lemma_split_joined(recipient, t2);
            super::codec::lemma_read_u128(amount, t3);
            lemma_read_text(purpose, tail);
        },
        GovernanceActionView::EmergencyPause { contract_id, reason } => {
            let t2 = text_field_bytes(reason) + tail;
            let t1 = contract_id + t2;
            assert(action_bytes(action) + tail =~= vstd::bytes::spec_u32_to_le_bytes(3) + t1);
            super::codec::lemma_read_u32(3, t1);
            lemma_split_joined(contract_id, t2);
            lemma_read_text(reason, tail);
        },
        GovernanceActionView::Resume { contract_id } => {
            let t1 = contract_id + tail;
            assert(action_bytes(action) + tail =~= vstd::bytes::spec_u32_to_le_bytes(4) + t1);
            super::codec::lemma_read_u32(4, t1);
            lemma_split_joined(contract_id, tail);
        },
    }
}

/// Some actions are read back from their bytes, whatever follows them.
pub proof fn lemma_actions_round_trip(actions: Seq<GovernanceActionView>, tail: Seq<u8>)
    requires
        forall|i: int| 0 <= i < actions.len() ==> writable(#[trigger] actions[i]),
    ensures
        read_gov_actions(actions_bytes(actions) + tail, actions.len()) == Some((actions, tail)),
    decreases actions.len(),
{
    if actions.len() == 0 {
        assert(actions_bytes(actions) + tail =~= tail);
        assert(actions =~= Seq::<GovernanceActionView>::empty());
    } else {
        let front = actions.drop_last();
        let last = actions.last();
        let rest = action_bytes(last) + tail;
        assert(actions_bytes(actions) + tail =~= actions_bytes(front) + rest);
        assert forall|i: int| 0 <= i < front.len() implies writable(#[trigger] front[i]) by {
            assert(front[i] == actions[i]);
        }
        lemma_actions_round_trip(front, rest);
        lemma_action_round_trip(last, tail);
        assert(front.push(last) =~= actions);
    }
}

/// A list of actions with its length in front is read back from its bytes,
/// whatever follows them.
pub proof fn lemma_action_list_round_trip(actions: Seq<GovernanceActionView>, tail: Seq<u8>)
    requires
        actions.len() <= u64::MAX,
        forall|i: int| 0 <= i < actions.len() ==> writable(#[trigger] actions[i]),
    ensures
        read_action_list(action_list_bytes(actions) + tail) == Some((actions, tail)),
{
    let body = actions_bytes(actions) + tail;
    assert(action_list_bytes(actions) + tail =~= vstd::bytes::spec_u64_to_le_bytes(
        actions.len() as u64,
    ) + body);
    super::codec::lemma_read_u64(actions.len() as u64, body);
    lemma_actions_round_trip(actions, tail);
}

/// Once fewer actions can be read than were asked for, no larger number can
/// be read either.
pub proof fn lemma_read_gov_actions_fails(bytes: Seq<u8>, short: nat, count: nat)
    requires
        short <= count,
        read_gov_actions(bytes, short).is_none(),
    ensures
        read_gov_actions(bytes, count).is_none(),
    decreases count,
{
    if short < count {
        lemma_read_gov_actions_fails(bytes, short, (count - 1) as nat);
    }
}

/// Appends an action to `out`: a 32-bit tag, then the fields.
pub fn push_action(out: &mut Vec<u8>, action: &GovernanceAction)
    ensures
        final(out)@ == old(out)@ + action_bytes(action@),
{
    match action {
        GovernanceAction::ParameterUpdate { key, value } => {
            push_u32_le(out, 0);
            push_text_field(out, key.as_str());
            push_blob(out, value.as_slice());
        },
        GovernanceAction::ContractUpgrade { contract_id, new_code_hash, new_code } => {
            push_u32_le(out, 1);
            push_bytes(out, contract_id.0.as_slice());
            push_bytes(out, new_code_hash.0.as_slice());
            push_blob(out, new_code.as_slice());
        },
        GovernanceAction::TreasurySpend { recipient, amount, purpose } => {
            push_u32_le(out, 2);
            push_bytes(out, recipient.0.as_slice());
            push_amount(out, *amount);
            push_text_field(out, purpose.as_str());
        },
        GovernanceAction::EmergencyPause { contract_id, reason } => {
            push_u32_le(out, 3);
            push_bytes(out, contract_id.0.as_slice());
            push_text_field(out, reason.as_str());
        },
        GovernanceAction::Resume { contract_id } => {
            push_u32_le(out, 4);
            push_bytes(out, contract_id.0.as_slice());
        },
    }
    assert(out@ =~= old(out)@ + action_bytes(action@));
}

/// Appends a list of actions, with its length in front, to `out`.
pub fn push_actions(out: &mut Vec<u8>, actions: &[GovernanceAction])
    ensures
        final(out)@ == old(out)@ + action_list_bytes(action_views(actions@)),
{
    push_u64_le(out, actions.len() as u64);
    let ghost start = out@;
    let mut i: usize = 0;
    assert(action_views(actions@).subrange(0, 0) =~= Seq::<GovernanceActionView>::empty());
    while i < actions.len()
        invariant
            0 <= i <= actions@.len(),
            out@ == start + actions_bytes(action_views(actions@).subrange(0, i as int)),
        decreases actions@.len() - i,
    {
        let ghost prefix = action_views(actions@).subrange(0, i as int + 1);
        assert(prefix.drop_last() =~= action_views(actions@).subrange(0, i as int));
        assert(prefix.last() == actions@[i as int]@);
        push_action(out, &actions[i]);
        assert(out@ =~= start + actions_bytes(prefix));
        i += 1;
    }
    assert(action_views(actions@).subrange(0, actions@.len() as int) =~= action_views(actions@));
    assert(out@ =~= old(out)@ + action_list_bytes(action_views(actions@)));
}

/// Reads an action. Where it is cut short or malformed, the reader may have
/// moved.
pub fn read_action(reader: &mut Reader) -> (r: Option<GovernanceAction>)
    ensures
        match read_gov_action(old(reader).rest()) {
            Some((action, rest)) => r is Some && r->Some_0@ == action && final(reader).rest()
                == rest,
            None => r is None,
        },
{
    let tag = reader.u32()?;
    if tag == 0 {
        let key = reader.text()?;
        let value = reader.blob()?;
        Some(GovernanceAction::ParameterUpdate { key, value })
    } else if tag == 1 {
        let contract_id = reader.digest()?;
        let new_code_hash = reader.digest()?;
        let new_code = reader.blob()?;
        Some(GovernanceAction::ContractUpgrade { contract_id, new_code_hash, new_code })
    } else if tag == 2 {
        let recipient = reader.address()?;
        let amount = reader.amount()?;
        let purpose = reader.text()?;
        Some(GovernanceAction::TreasurySpend { recipient, amount, purpose })
    } else if tag == 3 {
        let contract_id = reader.digest()?;
        let reason = reader.text()?;
        Some(GovernanceAction::EmergencyPause { contract_id, reason })
    } else if tag == 4 {
        let contract_id = reader.digest()?;
        Some(GovernanceAction::Resume { contract_id })
    } else {
        None
    }
}

/// Reads a list of actions with its length in front. Where the list is cut
/// short or malformed, the reader may have moved.
pub fn read_actions(reader: &mut Reader) -> (r: Option<Vec<GovernanceAction>>)
    ensures
        match read_action_list(old(reader).rest()) {
            Some((actions, rest)) => r is Some && action_views(r->Some_0@) == actions && final(reader).rest() == rest,
            None => r is None,
        },
{
    let len = reader.u64()?;
    let ghost start = reader.rest();
    let mut out: Vec<GovernanceAction> = Vec::new();
    let mut i: u64 = 0;
    assert(action_views(out@) =~= Seq::<GovernanceActionView>::empty());
    while i < len
        invariant
            0 <= i <= len,
            out@.len() == i,
            read_u64(old(reader).rest()) == Some((len, start)),
            read_gov_actions(start, i as nat) == Some((action_views(out@), reader.rest())),
        decreases len - i,
    {
        match read_action(reader) {
            Some(action) => {
                let ghost before = action_views(out@);
                let ghost view = action@;
                out.push(action);
                assert(action_views(out@) =~= before.push(view));
            },
            None => {
                proof {
                    assert(read_gov_actions(start, (i + 1) as nat).is_none());
                    lemma_read_gov_actions_fails(start, (i + 1) as nat, len as nat);
                }
                return None;
            },
        }
        i += 1;
    }
    Some(out)
}

} // verus!
