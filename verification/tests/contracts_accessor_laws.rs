use hardclaw::contracts::root::{hash_account, ledger_state_root};
use hardclaw::contracts::state::ContractState;
use hardclaw::contracts::{ContractError, ContractEvent};
use hardclaw::crypto::hash::{hash_pair, merkle_root};
use hardclaw::state::account::{AccountState, Ledger, StateError};
use hardclaw::state::storage::ContractStorage;
use hardclaw::types::address::Address;
use hardclaw::types::amount::HclawAmount;

fn addr(n: u8) -> Address {
    Address::from_bytes([n; 20])
}

fn raw(n: u128) -> HclawAmount {
    HclawAmount::from_raw(n)
}

#[test]
fn state_root_ignores_insertion_order() {
    let mut forward = Ledger::new();
    let mut backward = Ledger::new();
    for n in 1..=9u8 {
        forward.insert(addr(n), AccountState::new(raw(n as u128 * 10)));
    }
    for n in (1..=9u8).rev() {
        backward.insert(addr(n), AccountState::new(raw(n as u128 * 10)));
    }
    assert_ne!(forward.keys(), backward.keys());
    assert_eq!(ledger_state_root(&forward), ledger_state_root(&backward));

    let a = ContractState::new(forward, ContractStorage::new());
    let b = ContractState::new(backward, ContractStorage::new());
    assert_eq!(a.compute_state_root(), b.compute_state_root());
}

#[test]
fn state_root_is_the_merkle_root_of_the_sorted_leaves() {
    assert_eq!(ledger_state_root(&Ledger::new()), hardclaw::crypto::hash::Hash::zero());

    let account = AccountState { balance: raw(5), staked: raw(2), nonce: 7 };
    let mut data = vec![1u8; 20];
    data.extend_from_slice(&5u128.to_le_bytes());
    data.extend_from_slice(&7u64.to_le_bytes());
    data.extend_from_slice(&2u128.to_le_bytes());
    let leaf = hardclaw::crypto::hash::hash_data(&data);
    assert_eq!(hash_account(&addr(1), &account), leaf);

    let mut one = Ledger::new();
    one.insert(addr(1), account);
    assert_eq!(ledger_state_root(&one), leaf);

    let mut two = Ledger::new();
    two.insert(addr(1), account);
    two.insert(addr(2), account);
    let other = hash_account(&addr(2), &account);
    let (low, high) = if leaf.le(&other) { (leaf, other) } else { (other, leaf) };
    assert_eq!(ledger_state_root(&two), hash_pair(&low, &high));
    assert_eq!(ledger_state_root(&two), merkle_root(&[low, high]));

    // every field of an account is covered
    let mut changed = Ledger::new();
    changed.insert(addr(1), AccountState { nonce: 8, ..account });
    assert_ne!(ledger_state_root(&changed), ledger_state_root(&one));
    let mut changed = Ledger::new();
    changed.insert(addr(1), AccountState { staked: raw(3), ..account });
    assert_ne!(ledger_state_root(&changed), ledger_state_root(&one));
}

#[test]
fn rollback_undoes_a_mixed_sequence() {
    let mut accounts = Ledger::new();
    accounts.insert(addr(1), AccountState { balance: raw(100), staked: raw(30), nonce: 4 });
    accounts.insert(addr(2), AccountState::new(raw(u128::MAX - 5)));
    let mut storage = ContractStorage::new();
    storage.insert(addr(9), b"a".to_vec(), b"one".to_vec());
    storage.insert(addr(9), b"b".to_vec(), b"two".to_vec());

    let mut state = ContractState::new(accounts, storage);
    state.credit(addr(1), raw(50));
    state.debit(addr(1), raw(120)).unwrap();
    state.transfer(addr(1), addr(3), raw(0)).unwrap();
    // a credit that stops at the largest amount
    state.credit(addr(2), raw(100));
    assert_eq!(state.balance(&addr(2)).raw(), u128::MAX);
    state.debit(addr(2), raw(7)).unwrap();
    state.storage_write(addr(9), b"a".to_vec(), b"changed".to_vec());
    state.storage_write(addr(9), b"c".to_vec(), b"new".to_vec());
    state.storage_delete(addr(9), b"b".to_vec());
    state.storage_delete(addr(9), b"missing".to_vec());
    state.storage_write(addr(9), b"b".to_vec(), b"again".to_vec());
    state.emit_event(ContractEvent {
        contract_id: hardclaw::crypto::hash::Hash::zero(),
        topic: "t".to_string(),
        data: vec![1],
    });
    assert_eq!(state.events().len(), 1);
    assert_eq!(state.storage_read(&addr(9), b"b"), Some(b"again".to_vec()));

    state.rollback();

    assert!(state.events().is_empty());
    assert_eq!(state.account(&addr(1)), AccountState { balance: raw(100), staked: raw(30), nonce: 4 });
    assert_eq!(state.balance(&addr(2)).raw(), u128::MAX - 5);
    assert_eq!(state.balance(&addr(3)).raw(), 0);
    assert_eq!(state.storage_read(&addr(9), b"a"), Some(b"one".to_vec()));
    assert_eq!(state.storage_read(&addr(9), b"b"), Some(b"two".to_vec()));
    assert_eq!(state.storage_read(&addr(9), b"c"), None);
    let (accounts, storage) = state.into_parts();
    assert_eq!(storage.len(), 2);
    assert_eq!(accounts.get(&addr(1)).unwrap().balance.raw(), 100);
    // the account that the transfer created is gone again
    assert_eq!(accounts.keys(), vec![addr(1), addr(2)]);
}

#[test]
fn commit_makes_mutations_permanent() {
    let mut state = ContractState::new(Ledger::new(), ContractStorage::new());
    state.credit(addr(1), raw(10));
    state.storage_write(addr(1), b"k".to_vec(), b"v".to_vec());
    state.commit();
    state.credit(addr(1), raw(5));
    state.credit(addr(2), raw(5));
    state.rollback();
    assert_eq!(state.balance(&addr(1)).raw(), 10);
    assert_eq!(state.storage_read(&addr(1), b"k"), Some(b"v".to_vec()));
    let (accounts, _) = state.into_parts();
    assert_eq!(accounts.keys(), vec![addr(1)]);
}

#[test]
fn debit_checks_before_it_changes_anything() {
    let mut accounts = Ledger::new();
    accounts.insert(addr(1), AccountState { balance: raw(100), staked: raw(60), nonce: 0 });
    let mut state = ContractState::new(accounts, ContractStorage::new());
    assert_eq!(state.available_balance(&addr(1)).raw(), 40);

    match state.debit(addr(1), raw(41)) {
        Err(ContractError::InsufficientBalance { need, have }) => {
            assert_eq!(need.raw(), 41);
            assert_eq!(have.raw(), 40);
        }
        _ => panic!("expected insufficient balance"),
    }
    assert_eq!(state.balance(&addr(1)).raw(), 100);

    // a failed transfer credits no one
    assert!(state.transfer(addr(1), addr(2), raw(41)).is_err());
    assert_eq!(state.balance(&addr(2)).raw(), 0);
    // a failed debit of an unseen address leaves no entry behind
    assert!(state.debit(addr(5), raw(1)).is_err());
    let (accounts, _) = state.into_parts();
    assert_eq!(accounts.len(), 1);
    assert!(!accounts.contains_key(&addr(5)));
}

#[test]
fn account_operations() {
    let mut account = AccountState::new(raw(10));
    assert_eq!(account, AccountState { balance: raw(10), staked: raw(0), nonce: 0 });
    account.credit(raw(u128::MAX));
    assert_eq!(account.balance.raw(), u128::MAX);
    account.staked = raw(u128::MAX - 3);
    assert_eq!(
        account.debit(raw(4)),
        Err(StateError::InsufficientBalance { need: raw(4), have: raw(3) })
    );
    assert_eq!(account.debit(raw(3)), Ok(()));
    assert_eq!(account.available_balance().raw(), 0);
    assert_eq!(AccountState::default(), AccountState::new(raw(0)));
    // more staked than owned leaves nothing available
    let odd = AccountState { balance: raw(1), staked: raw(2), nonce: 0 };
    assert_eq!(odd.available_balance().raw(), 0);
}

#[test]
fn ledger_and_storage_are_maps() {
    let mut ledger = Ledger::new();
    assert!(ledger.is_empty());
    ledger.insert(addr(1), AccountState::new(raw(1)));
    ledger.insert(addr(2), AccountState::new(raw(2)));
    ledger.insert(addr(1), AccountState::new(raw(3)));
    assert_eq!(ledger.len(), 2);
    assert_eq!(ledger.keys(), vec![addr(1), addr(2)]);
    assert_eq!(ledger.get(&addr(1)).unwrap().balance.raw(), 3);
    assert_eq!(ledger.key_at(1), addr(2));
    assert_eq!(ledger.value_at(1).balance.raw(), 2);
    assert_eq!(ledger.remove(&addr(1)).unwrap().balance.raw(), 3);
    assert_eq!(ledger.remove(&addr(1)), None);
    assert_eq!(ledger.keys(), vec![addr(2)]);
    let copy = ledger.snapshot();
    ledger.insert(addr(2), AccountState::new(raw(9)));
    assert_eq!(copy.get(&addr(2)).unwrap().balance.raw(), 2);

    let mut store = ContractStorage::new();
    store.insert(addr(1), b"k".to_vec(), b"v".to_vec());
    store.insert(addr(2), b"k".to_vec(), b"w".to_vec());
    store.insert(addr(1), b"k".to_vec(), b"x".to_vec());
    assert_eq!(store.len(), 2);
    assert!(store.contains_key(&addr(1), b"k"));
    assert!(!store.contains_key(&addr(1), b"kk"));
    assert_eq!(store.get(&addr(1), b"k"), Some(b"x".to_vec()));
    let copy = store.snapshot();
    assert_eq!(store.remove(&addr(1), b"k"), Some(b"x".to_vec()));
    assert_eq!(store.remove(&addr(1), b"k"), None);
    assert_eq!(store.get(&addr(2), b"k"), Some(b"w".to_vec()));
    assert_eq!(copy.get(&addr(1), b"k"), Some(b"x".to_vec()));
}
