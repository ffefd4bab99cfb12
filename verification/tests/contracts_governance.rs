use hardclaw::contracts::governance::{
    percentage_of, GovernanceContract, GovernanceTransactionKind, Proposal, ProposalStatus,
    MIN_VOTING_PERIOD,
};
use hardclaw::contracts::state::ContractState;
use hardclaw::contracts::transaction::ContractTransaction;
use hardclaw::contracts::{Contract, ContractError};
use hardclaw::crypto::signature::Keypair;
use hardclaw::state::account::{AccountState, Ledger};
use hardclaw::state::storage::ContractStorage;
use hardclaw::types::address::Address;
use hardclaw::types::amount::HclawAmount;
use hardclaw::types::governance::GovernanceAction;
use hardclaw::types::now_millis;

fn state_with(accounts: &[Address]) -> ContractState {
    let mut ledger = Ledger::new();
    for a in accounts {
        ledger.insert(*a, AccountState::new(HclawAmount::from_hclaw(1000)));
    }
    ContractState::new(ledger, ContractStorage::new())
}

#[test]
fn test_create_proposal() {
    let contract = GovernanceContract::new();
    let kp = Keypair::generate();
    let proposer = Address::from_public_key(kp.public_key());
    let mut state = state_with(&[proposer]);

    let now = now_millis();
    let voting_ends = now + MIN_VOTING_PERIOD + 1000;

    let proposal_id = contract.execute_create_proposal(
        &mut state,
        proposer,
        "Test Proposal".to_string(),
        "This is a test".to_string(),
        vec![],
        voting_ends,
        now,
    );

    assert!(proposal_id.is_ok());

    let pid = proposal_id.unwrap();
    let loaded = contract.load_proposal(&state, &pid);
    assert!(loaded.is_some());
    assert_eq!(loaded.unwrap().title, "Test Proposal");

    let index = contract.load_proposal_index(&state);
    assert_eq!(index.len(), 1);
    assert_eq!(index[0], pid);
}

#[test]
fn test_vote_on_proposal() {
    let contract = GovernanceContract::new();
    let kp = Keypair::generate();
    let voter = Address::from_public_key(kp.public_key());
    let mut state = state_with(&[voter]);

    contract.save_total_voting_power(&mut state, 10000);

    let now = now_millis();
    let voting_ends = now + MIN_VOTING_PERIOD + 1000;
    let proposal_id = contract
        .execute_create_proposal(
            &mut state,
            voter,
            "Test".to_string(),
            "Test".to_string(),
            vec![],
            voting_ends,
            now,
        )
        .unwrap();

    let result = contract.execute_vote(&mut state, voter, proposal_id, true, 100, now);
    assert!(result.is_ok());

    let proposal = contract.load_proposal(&state, &proposal_id).unwrap();
    assert_eq!(proposal.yes_votes, 100);
    assert!(proposal.has_vote_of(&voter));
}

#[test]
fn test_cannot_vote_twice() {
    let contract = GovernanceContract::new();
    let kp = Keypair::generate();
    let voter = Address::from_public_key(kp.public_key());
    let mut state = state_with(&[voter]);

    contract.save_total_voting_power(&mut state, 10000);

    let now = now_millis();
    let voting_ends = now + MIN_VOTING_PERIOD + 1000;
    let proposal_id = contract
        .execute_create_proposal(
            &mut state,
            voter,
            "Test".to_string(),
            "Test".to_string(),
            vec![],
            voting_ends,
            now,
        )
        .unwrap();

    assert!(contract
        .execute_vote(&mut state, voter, proposal_id, true, 100, now)
        .is_ok());

    assert!(contract
        .execute_vote(&mut state, voter, proposal_id, true, 100, now)
        .is_err());
}

#[test]
fn test_state_persists_across_calls() {
    let contract = GovernanceContract::new();

    let kp1 = Keypair::generate();
    let kp2 = Keypair::generate();
    let voter1 = Address::from_public_key(kp1.public_key());
    let voter2 = Address::from_public_key(kp2.public_key());

    let mut accounts = Ledger::new();
    accounts.insert(voter1, AccountState::new(HclawAmount::from_hclaw(1000)));
    accounts.insert(voter2, AccountState::new(HclawAmount::from_hclaw(1000)));
    let storage = ContractStorage::new();
    let now = now_millis();

    let (proposal_id, accounts, storage) = {
        let mut state = ContractState::new(accounts, storage);
        contract.save_total_voting_power(&mut state, 10000);

        let voting_ends = now + MIN_VOTING_PERIOD + 1000;
        let pid = contract
            .execute_create_proposal(
                &mut state,
                voter1,
                "Persist Test".to_string(),
                "Test".to_string(),
                vec![],
                voting_ends,
                now,
            )
            .unwrap();
        state.commit();
        let (a, s) = state.into_parts();
        (pid, a, s)
    };

    let (accounts, storage) = {
        let mut state = ContractState::new(accounts, storage);
        contract
            .execute_vote(&mut state, voter1, proposal_id, true, 500, now)
            .unwrap();
        state.commit();
        state.into_parts()
    };

    let (accounts, storage) = {
        let mut state = ContractState::new(accounts, storage);
        contract
            .execute_vote(&mut state, voter2, proposal_id, false, 300, now)
            .unwrap();
        state.commit();
        state.into_parts()
    };

    let state = ContractState::new(accounts, storage);
    let proposal = contract.load_proposal(&state, &proposal_id).unwrap();
    assert_eq!(proposal.yes_votes, 500);
    assert_eq!(proposal.no_votes, 300);
    assert_eq!(proposal.voters.len(), 2);
}

#[test]
fn test_on_deploy_initializes_storage() {
    let contract = GovernanceContract::new();
    let mut state = state_with(&[]);

    contract.on_deploy(&mut state, &[]).unwrap();

    assert_eq!(contract.load_total_voting_power(&state), 0);
    assert!(contract.load_proposal_index(&state).is_empty());
}

#[test]
fn voting_period_must_be_a_week() {
    let contract = GovernanceContract::new();
    let proposer = Address::from_bytes([1; 20]);
    let mut state = state_with(&[proposer]);
    let short = contract.execute_create_proposal(
        &mut state,
        proposer,
        "t".to_string(),
        "d".to_string(),
        vec![],
        1000 + MIN_VOTING_PERIOD - 1,
        1000,
    );
    assert!(matches!(short, Err(ContractError::ExecutionFailed(_))));
    let past = contract.execute_create_proposal(
        &mut state,
        proposer,
        "t".to_string(),
        "d".to_string(),
        vec![],
        999,
        1000,
    );
    assert!(past.is_err());
    let exact = contract.execute_create_proposal(
        &mut state,
        proposer,
        "t".to_string(),
        "d".to_string(),
        vec![],
        1000 + MIN_VOTING_PERIOD,
        1000,
    );
    assert!(exact.is_ok());
}

fn proposal_with(
    contract: &GovernanceContract,
    state: &mut ContractState,
    actions: Vec<GovernanceAction>,
) -> hardclaw::crypto::hash::Hash {
    contract
        .execute_create_proposal(
            state,
            Address::from_bytes([1; 20]),
            "title".to_string(),
            "text".to_string(),
            actions,
            MIN_VOTING_PERIOD,
            0,
        )
        .unwrap()
}

#[test]
fn proposals_pass_with_quorum_and_approval() {
    let contract = GovernanceContract::new();
    let mut state = state_with(&[]);
    state.credit(Address::zero(), HclawAmount::from_raw(500));
    contract.save_total_voting_power(&mut state, 1000);
    let recipient = Address::from_bytes([7; 20]);
    let id = proposal_with(
        &contract,
        &mut state,
        vec![
            GovernanceAction::ParameterUpdate { key: "min_stake".to_string(), value: vec![1, 2] },
            GovernanceAction::TreasurySpend {
                recipient,
                amount: HclawAmount::from_raw(200),
                purpose: "grant".to_string(),
            },
        ],
    );
    contract.execute_vote(&mut state, Address::from_bytes([2; 20]), id, true, 200, 1).unwrap();
    contract.execute_vote(&mut state, Address::from_bytes([3; 20]), id, false, 100, 1).unwrap();

    // too early
    assert!(contract.execute_proposal(&mut state, id, MIN_VOTING_PERIOD - 1).is_err());
    // too late to vote
    assert!(contract
        .execute_vote(&mut state, Address::from_bytes([4; 20]), id, true, 1, MIN_VOTING_PERIOD)
        .is_err());

    // 300 votes of 1000 meet the quorum of 30%, and 66% approve
    contract.execute_proposal(&mut state, id, MIN_VOTING_PERIOD).unwrap();
    assert_eq!(contract.load_proposal(&state, &id).unwrap().status, ProposalStatus::Executed);
    assert_eq!(state.balance(&recipient).raw(), 200);
    assert_eq!(state.balance(&Address::zero()).raw(), 300);
    assert_eq!(state.storage_read(&Address::zero(), b"param:min_stake"), Some(vec![1, 2]));
}

#[test]
fn proposals_fail_without_quorum_or_approval_or_funds() {
    let contract = GovernanceContract::new();
    let mut state = state_with(&[]);
    contract.save_total_voting_power(&mut state, 1000);

    let id = proposal_with(&contract, &mut state, vec![]);
    contract.execute_vote(&mut state, Address::from_bytes([2; 20]), id, true, 299, 1).unwrap();
    assert!(contract.execute_proposal(&mut state, id, MIN_VOTING_PERIOD).is_err());
    assert_eq!(contract.load_proposal(&state, &id).unwrap().status, ProposalStatus::Rejected);

    let id = contract
        .execute_create_proposal(
            &mut state,
            Address::from_bytes([1; 20]),
            "other".to_string(),
            "text".to_string(),
            vec![],
            MIN_VOTING_PERIOD,
            0,
        )
        .unwrap();
    contract.execute_vote(&mut state, Address::from_bytes([2; 20]), id, true, 65, 1).unwrap();
    contract.execute_vote(&mut state, Address::from_bytes([3; 20]), id, false, 35, 1).unwrap();
    contract.save_total_voting_power(&mut state, 100);
    assert!(contract.execute_proposal(&mut state, id, MIN_VOTING_PERIOD).is_err());
    assert_eq!(contract.load_proposal(&state, &id).unwrap().status, ProposalStatus::Rejected);

    // an empty treasury fails the spend
    let id = proposal_with(
        &contract,
        &mut state,
        vec![GovernanceAction::TreasurySpend {
            recipient: Address::from_bytes([7; 20]),
            amount: HclawAmount::from_raw(1),
            purpose: "grant".to_string(),
        }],
    );
    contract.execute_vote(&mut state, Address::from_bytes([2; 20]), id, true, 100, 1).unwrap();
    assert!(matches!(
        contract.execute_proposal(&mut state, id, MIN_VOTING_PERIOD),
        Err(ContractError::InsufficientBalance { .. })
    ));
    assert_eq!(
        contract.load_proposal(&state, &id).unwrap().status,
        ProposalStatus::ExecutionFailed
    );
    assert!(contract
        .execute_proposal(&mut state, hardclaw::crypto::hash::Hash::zero(), MIN_VOTING_PERIOD)
        .is_err());
}

#[test]
fn percentages_round_down() {
    assert_eq!(percentage_of(0, 1), 0);
    assert_eq!(percentage_of(1, 1), 100);
    assert_eq!(percentage_of(2, 3), 66);
    assert_eq!(percentage_of(65, 100), 65);
    assert_eq!(percentage_of(u128::MAX - 1, u128::MAX), 99);
    assert_eq!(percentage_of(u128::MAX / 3 * 2, u128::MAX), 66);
    assert_eq!(percentage_of(u128::MAX, u128::MAX), 100);
}

#[test]
fn governance_bytes_round_trip() {
    let kind = GovernanceTransactionKind::CreateProposal {
        title: "title".to_string(),
        description: "text".to_string(),
        actions: vec![
            GovernanceAction::EmergencyPause {
                contract_id: hardclaw::crypto::hash::Hash::from_bytes([1; 32]),
                reason: "bug".to_string(),
            },
            GovernanceAction::Resume { contract_id: hardclaw::crypto::hash::Hash::from_bytes([1; 32]) },
            GovernanceAction::ContractUpgrade {
                contract_id: hardclaw::crypto::hash::Hash::from_bytes([2; 32]),
                new_code_hash: hardclaw::crypto::hash::Hash::from_bytes([3; 32]),
                new_code: vec![0, 1, 2],
            },
        ],
        voting_ends_at: -5,
    };
    let bytes = kind.encode();
    match GovernanceTransactionKind::decode(&bytes) {
        Some(GovernanceTransactionKind::CreateProposal { title, description, actions, voting_ends_at }) => {
            assert_eq!(title, "title");
            assert_eq!(description, "text");
            assert_eq!(actions.len(), 3);
            assert_eq!(
                actions[0],
                GovernanceAction::EmergencyPause {
                    contract_id: hardclaw::crypto::hash::Hash::from_bytes([1; 32]),
                    reason: "bug".to_string(),
                }
            );
            assert_eq!(voting_ends_at, -5);
        }
        _ => panic!("expected a proposal"),
    }
    assert!(GovernanceTransactionKind::decode(&bytes[..bytes.len() - 1]).is_none());

    let vote = GovernanceTransactionKind::Vote {
        proposal_id: hardclaw::crypto::hash::Hash::from_bytes([9; 32]),
        in_favor: true,
        voting_power: 77,
    };
    assert!(matches!(
        GovernanceTransactionKind::decode(&vote.encode()),
        Some(GovernanceTransactionKind::Vote { in_favor: true, voting_power: 77, .. })
    ));
    assert!(GovernanceTransactionKind::decode(&[7, 0, 0, 0]).is_none());

    let proposal = Proposal {
        id: hardclaw::crypto::hash::Hash::from_bytes([9; 32]),
        proposer: Address::from_bytes([1; 20]),
        title: "t".to_string(),
        description: "d".to_string(),
        actions: vec![],
        created_at: 1,
        voting_ends_at: 2,
        yes_votes: 3,
        no_votes: 4,
        voters: vec![(Address::from_bytes([2; 20]), true), (Address::from_bytes([3; 20]), false)],
        status: ProposalStatus::Passed,
    };
    let back = Proposal::decode(&proposal.encode()).unwrap();
    assert_eq!(back.voters, proposal.voters);
    assert_eq!(back.status, ProposalStatus::Passed);
    assert_eq!(back.no_votes, 4);
    assert_eq!(back.encode(), proposal.encode());
}

#[test]
fn governance_through_the_contract_interface() {
    let contract = GovernanceContract::default();
    let kp = Keypair::generate();
    let mut state = state_with(&[]);
    let tx = ContractTransaction::new_at(
        contract.id(),
        kp.public_key().clone(),
        GovernanceTransactionKind::UpdateVotingPower { total_power: 42 }.encode(),
        1_000,
        HclawAmount::from_raw(1),
        1,
        0,
    );
    let result = contract.execute(&mut state, &tx).unwrap();
    assert_eq!(result.gas_used, 150_000);
    assert_eq!(contract.load_total_voting_power(&state), 42);
    assert_eq!(contract.verify(&state, &tx, &result).unwrap(), true);
    let mut bad = tx.clone();
    bad.input = Vec::new();
    assert!(matches!(contract.execute(&mut state, &bad), Err(ContractError::InvalidTransaction(_))));
    assert_eq!(contract.contract_address().as_bytes()[..], contract.id().as_bytes()[..20]);
}
