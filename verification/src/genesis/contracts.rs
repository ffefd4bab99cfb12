//! Genesis contract initialization.
//!
//! Deploys and registers the genesis contracts for the genesis block.

use vstd::prelude::*;

use crate::contracts::genesis_bounty::{spec_genesis_bounty_contract_id, GenesisBountyContract};
use crate::contracts::governance::{spec_governance_contract_id, GovernanceContract};
use crate::contracts::processor::{TransactionProcessor, DEFAULT_MAX_GAS};
use crate::contracts::loader::{is_bounty_contract, is_governance_contract};
use crate::contracts::ContractRegistry;

verus! {

/// The ids of the two genesis contracts differ.
pub proof fn lemma_genesis_ids_differ()
    ensures
        spec_genesis_bounty_contract_id() != spec_governance_contract_id(),
{
    let a = spec_genesis_bounty_contract_id();
    let b = spec_governance_contract_id();
    assert(a.0[0] == 0xb0u8);
    assert(b.0[0] == 0x67u8);
}

/// Initialize genesis contracts and return a configured transaction
/// processor.
///
/// Registers the genesis bounty contract, which handles joining and bounty
/// distribution, and the governance contract. The voting power is
/// storage-backed and starts at zero; it is set by a transaction after
/// deployment.
pub fn initialize_genesis_contracts(bounty_start_time: i64, _initial_voting_power: u128) -> (r:
    TransactionProcessor)
    ensures
        r.max_gas() == DEFAULT_MAX_GAS,
        r.registered() == seq![spec_genesis_bounty_contract_id(), spec_governance_contract_id()],
        r.contracts().len() == 2,
        is_bounty_contract(r.contracts()[0]),
        is_governance_contract(r.contracts()[1]),
        r.loads_plainly(),
{
    let mut registry = ContractRegistry::new();
    registry.register(Box::new(GenesisBountyContract::new(bounty_start_time)));
    registry.register(Box::new(GovernanceContract::new()));
    proof {
        lemma_genesis_ids_differ();
        let first = seq![spec_genesis_bounty_contract_id()];
        assert(Seq::<crate::types::Id>::empty().push(spec_genesis_bounty_contract_id()) =~= first);
        assert(!first.contains(spec_governance_contract_id())) by {
            if first.contains(spec_governance_contract_id()) {
                let i = choose|i: int| 0 <= i < first.len() && first[i] == spec_governance_contract_id();
                assert(first[0] == spec_genesis_bounty_contract_id());
            }
        }
        assert(first.push(spec_governance_contract_id()) =~= seq![
            spec_genesis_bounty_contract_id(),
            spec_governance_contract_id(),
        ]);
    }
    TransactionProcessor::with_registry(DEFAULT_MAX_GAS, registry)
}

} // verus!
