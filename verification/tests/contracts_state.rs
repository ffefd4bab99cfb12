use hardclaw::contracts::state::ContractState;
use hardclaw::crypto::signature::Keypair;
use hardclaw::state::account::Ledger;
use hardclaw::state::storage::ContractStorage;
use hardclaw::types::address::Address;
use hardclaw::types::amount::HclawAmount;

fn test_address() -> Address {
    let kp = Keypair::generate();
    Address::from_public_key(kp.public_key())
}

#[test]
fn test_credit_debit() {
    let accounts = Ledger::new();
    let storage = ContractStorage::new();
    let mut state = ContractState::new(accounts, storage);

    let addr = test_address();

    // Credit account
    state.credit(addr, HclawAmount::from_hclaw(100));
    assert_eq!(state.balance(&addr).whole_hclaw(), 100);

    // Debit account
    state.debit(addr, HclawAmount::from_hclaw(30)).unwrap();
    assert_eq!(state.balance(&addr).whole_hclaw(), 70);
}

#[test]
fn test_rollback() {
    let accounts = Ledger::new();
    let storage = ContractStorage::new();
    let mut state = ContractState::new(accounts, storage);

    let addr = test_address();

    // Make changes
    state.credit(addr, HclawAmount::from_hclaw(100));
    assert_eq!(state.balance(&addr).whole_hclaw(), 100);

    // Rollback
    state.rollback();
    assert_eq!(state.balance(&addr).whole_hclaw(), 0);
}

#[test]
fn test_transfer() {
    let accounts = Ledger::new();
    let storage = ContractStorage::new();
    let mut state = ContractState::new(accounts, storage);

    let alice = test_address();
    let bob = test_address();

    // Give Alice tokens
    state.credit(alice, HclawAmount::from_hclaw(100));

    // Transfer to Bob
    state
        .transfer(alice, bob, HclawAmount::from_hclaw(30))
        .unwrap();

    assert_eq!(state.balance(&alice).whole_hclaw(), 70);
    assert_eq!(state.balance(&bob).whole_hclaw(), 30);
}

#[test]
fn test_storage() {
    let accounts = Ledger::new();
    let storage = ContractStorage::new();
    let mut state = ContractState::new(accounts, storage);

    let contract = test_address();
    let key = b"counter".to_vec();
    let value = b"42".to_vec();

    // Write
    state.storage_write(contract, key.clone(), value.clone());
    assert_eq!(state.storage_read(&contract, &key), Some(value));

    // Rollback should revert
    state.rollback();
    assert_eq!(state.storage_read(&contract, &key), None);
}
