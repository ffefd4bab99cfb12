//! Governance action types for on-chain proposals

use vstd::prelude::*;

use super::address::Address;
use super::amount::HclawAmount;
use super::Id;

verus! {

/// Types of governance actions that can be proposed
#[derive(Debug, PartialEq, Eq)]
pub enum GovernanceAction {
    /// Update a chain parameter
    ParameterUpdate {
        /// Parameter key (e.g., "min_stake", "block_time_ms")
        key: String,
        /// New value (encoded as bytes)
        value: Vec<u8>,
    },
    /// Upgrade a contract to new code
    ContractUpgrade {
        /// Contract ID to upgrade
        contract_id: Id,
        /// Hash of new contract code
        new_code_hash: Id,
        /// New code bytecode
        new_code: Vec<u8>,
    },
    /// Spend from treasury/unallocated pools
    TreasurySpend {
        /// Recipient address
        recipient: Address,
        /// Amount to spend
        amount: HclawAmount,
        /// Purpose/justification
        purpose: String,
    },
    /// Emergency pause a contract
    EmergencyPause {
        /// Contract ID to pause
        contract_id: Id,
        /// Reason for pause
        reason: String,
    },
    /// Resume a paused contract
    Resume {
        /// Contract ID to resume
        contract_id: Id,
    },
}

/// What a governance action holds, as plain values.
pub enum GovernanceActionView {
    /// Update a chain parameter
    ParameterUpdate {
        /// Parameter key
        key: Seq<char>,
        /// New value
        value: Seq<u8>,
    },
    /// Upgrade a contract to new code
    ContractUpgrade {
        /// Contract ID to upgrade, as its bytes
        contract_id: Seq<u8>,
        /// Hash of new contract code, as its bytes
        new_code_hash: Seq<u8>,
        /// New code bytecode
        new_code: Seq<u8>,
    },
    /// Spend from treasury/unallocated pools
    TreasurySpend {
        /// Recipient address, as its bytes
        recipient: Seq<u8>,
        /// Amount to spend
        amount: u128,
        /// Purpose/justification
        purpose: Seq<char>,
    },
    /// Emergency pause a contract
    EmergencyPause {
        /// Contract ID to pause, as its bytes
        contract_id: Seq<u8>,
        /// Reason for pause
        reason: Seq<char>,
    },
    /// Resume a paused contract
    Resume {
        /// Contract ID to resume, as its bytes
        contract_id: Seq<u8>,
    },
}

impl View for GovernanceAction {
    type V = GovernanceActionView;

    open spec fn view(&self) -> GovernanceActionView {
        match self {
            GovernanceAction::ParameterUpdate { key, value } => GovernanceActionView::ParameterUpdate {
                key: key@,
                value: value@,
            },
            GovernanceAction::ContractUpgrade {
                contract_id,
                new_code_hash,
                new_code,
            } => GovernanceActionView::ContractUpgrade {
                contract_id: contract_id.0@,
                new_code_hash: new_code_hash.0@,
                new_code: new_code@,
            },
            GovernanceAction::TreasurySpend {
                recipient,
                amount,
                purpose,
            } => GovernanceActionView::TreasurySpend {
                recipient: recipient.0@,
                amount: amount.0,
                purpose: purpose@,
            },
            GovernanceAction::EmergencyPause {
                contract_id,
                reason,
            } => GovernanceActionView::EmergencyPause {
                contract_id: contract_id.0@,
                reason: reason@,
            },
            GovernanceAction::Resume { contract_id } => GovernanceActionView::Resume {
                contract_id: contract_id.0@,
            },
        }
    }
}

/// The views of a list of actions.
pub open spec fn action_views(actions: Seq<GovernanceAction>) -> Seq<GovernanceActionView> {
    actions.map_values(|a: GovernanceAction| a@)
}

} // verus!
