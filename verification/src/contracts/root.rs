//! The state root: a Merkle digest over all account records.
//!
//! Every account is hashed into a leaf, the leaves are sorted, and the sorted
//! leaves are folded into a Merkle root. Because of the sort, the root is a
//! function of the ledger's contents alone, not of the order in which the
//! ledger happens to be walked.

use vstd::prelude::*;

use crate::crypto::hash::{blake3_digest, hash_data, merkle_root, merkle_root_of};
use crate::crypto::order::{
    hash_order, lemma_map_keeps_multiset, lemma_same_set_same_multiset,
    lemma_sorted_hashes_unique, sort_hashes,
};
use crate::encoding::{push_bytes, push_u128_le, push_u64_le};
use crate::state::account::{AccountState, Ledger};
use crate::types::address::Address;

verus! {

/// The bytes that are hashed for one account: address, then balance, nonce
/// and stake, each little-endian.
pub open spec fn account_leaf_bytes(address: Address, account: AccountState) -> Seq<u8> {
    address.0@ + vstd::bytes::spec_u128_to_le_bytes(account.balance.0)
        + vstd::bytes::spec_u64_to_le_bytes(account.nonce) + vstd::bytes::spec_u128_to_le_bytes(
        account.staked.0,
    )
}

/// The leaf digest of one account.
pub open spec fn account_leaf(address: Address, account: AccountState) -> crate::crypto::hash::Hash {
    crate::crypto::hash::Hash(blake3_digest(account_leaf_bytes(address, account)))
}

/// Whether `order` lists every address of the ledger exactly once.
pub open spec fn is_walk(accounts: Map<Address, AccountState>, order: Seq<Address>) -> bool {
    &&& order.no_duplicates()
    &&& order.to_set() == accounts.dom()
}

/// The leaf digests of a ledger, in the order of a walk.
pub open spec fn leaves_along(accounts: Map<Address, AccountState>, order: Seq<Address>) -> Seq<
    crate::crypto::hash::Hash,
> {
    order.map_values(|a: Address| account_leaf(a, accounts[a]))
}

/// The root that results from walking the ledger in a given order.
pub open spec fn root_along(
    accounts: Map<Address, AccountState>,
    order: Seq<Address>,
) -> crate::crypto::hash::Hash {
    merkle_root_of(leaves_along(accounts, order).sort_by(hash_order()))
}

/// The state root of a ledger.
pub open spec fn state_root_of(accounts: Map<Address, AccountState>) -> crate::crypto::hash::Hash {
    root_along(accounts, choose|order: Seq<Address>| is_walk(accounts, order))
}

/// The state root does not depend on the order in which the ledger is
/// walked: any two walks of the same ledger give the same root.
pub proof fn lemma_state_root_any_order(
    accounts: Map<Address, AccountState>,
    first: Seq<Address>,
    second: Seq<Address>,
)
    requires
        is_walk(accounts, first),
        is_walk(accounts, second),
    ensures
        root_along(accounts, first) == root_along(accounts, second),
{
    let leaf = |a: Address| account_leaf(a, accounts[a]);
    lemma_same_set_same_multiset(first, second);
    lemma_map_keeps_multiset(first, second, leaf);
    let x = leaves_along(accounts, first);
    let y = leaves_along(accounts, second);
    crate::crypto::order::lemma_hash_order_total();
    x.lemma_sort_by_ensures(hash_order());
    y.lemma_sort_by_ensures(hash_order());
    lemma_sorted_hashes_unique(x.sort_by(hash_order()), y.sort_by(hash_order()));
}

/// The state root is the root along any walk of the ledger.
pub proof fn lemma_state_root_along(accounts: Map<Address, AccountState>, order: Seq<Address>)
    requires
        is_walk(accounts, order),
    ensures
        state_root_of(accounts) == root_along(accounts, order),
{
    let chosen = choose|o: Seq<Address>| is_walk(accounts, o);
    lemma_state_root_any_order(accounts, chosen, order);
}

/// Two ledgers with the same contents have the same state root, however
/// their entries were inserted.
pub proof fn lemma_state_root_deterministic(first: Ledger, second: Ledger)
    requires
        first@ == second@,
    ensures
        state_root_of(first@) == state_root_of(second@),
{
}

/// The leaf digest of one account.
pub fn hash_account(address: &Address, account: &AccountState) -> (leaf: crate::crypto::hash::Hash)
    ensures
        leaf == account_leaf(*address, *account),
{
    let mut data: Vec<u8> = Vec::new();
    push_bytes(&mut data, address.0.as_slice());
    push_u128_le(&mut data, account.balance.0);
    push_u64_le(&mut data, account.nonce);
    push_u128_le(&mut data, account.staked.0);
    assert(data@ =~= account_leaf_bytes(*address, *account));
    hash_data(data.as_slice())
}

/// The state root of a ledger.
pub fn ledger_state_root(accounts: &Ledger) -> (root: crate::crypto::hash::Hash)
    ensures
        root == state_root_of(accounts@),
{
    let n = accounts.len();
    let mut leaves: Vec<crate::crypto::hash::Hash> = Vec::new();
    let mut i: usize = 0;
    while i < n
        invariant
            n == accounts.order().len(),
            0 <= i <= n,
            leaves@ == leaves_along(accounts@, accounts.order()).subrange(0, i as int),
        decreases n - i,
    {
        let address = accounts.key_at(i);
        let leaf = hash_account(&address, accounts.value_at(i));
        leaves.push(leaf);
        assert(leaves@ =~= leaves_along(accounts@, accounts.order()).subrange(0, i as int + 1));
        i += 1;
    }
    assert(leaves@ =~= leaves_along(accounts@, accounts.order()));
    let sorted = sort_hashes(leaves);
    proof {
        lemma_state_root_along(accounts@, accounts.order());
    }
    merkle_root(sorted.as_slice())
}

} // verus!
