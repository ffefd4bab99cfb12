//! Transaction processor: executes contracts and applies state transitions.
//!
//! This is the enforcement mechanism that makes contracts binding. It
//! validates a transaction, runs the contract through a fresh state accessor,
//! compares the root that the contract reports against the root that it
//! computes itself, and commits or rolls back the whole attempt.

use vstd::prelude::*;
use vstd::string::*;

use super::loader::{is_plain_load, ContractLoader, UniversalLoader};
use super::journal::{keeps_nonces, Journal};
use super::root::state_root_of;
use super::state::ContractState;
use super::transaction::{ContractTransaction, TransactionKind};
use super::{
    copy_events, is_failure, with_registered_id, Contract, ContractError, ContractRegistry,
    ContractResult, ExecutionResult, ExecutionResultView,
};
use crate::crypto::hash::{blake3_digest, hash_data};
use crate::crypto::signature::PUBKEY_SIZE;
use crate::encoding::{decimal_chars, decimal_text, decimal_text_wide, push_bytes};
use crate::state::account::{account_of, available_of, AccountState, Ledger};
use crate::state::storage::{CellKey, ContractStorage};
use crate::types::address::Address;
use crate::types::amount::HclawAmount;
use crate::types::Id;

verus! {

/// Default ceiling on the gas of one transaction: 10 million units.
pub const DEFAULT_MAX_GAS: u64 = 10_000_000;

/// The outcome of validating a transaction.
pub enum Admission {
    /// The transaction may be executed
    Accept,
    /// The signature does not verify over the signing bytes
    BadSignature {
        /// Whether the key is at fault, and not the signature
        key_at_fault: bool,
    },
    /// The gas limit exceeds the configured ceiling
    GasTooHigh {
        /// The gas limit of the transaction
        limit: u64,
        /// The configured ceiling
        ceiling: u64,
    },
    /// The sender's available balance does not cover the maximum fee
    Unaffordable {
        /// The maximum fee, capped at the largest representable amount
        need: u128,
        /// The sender's available balance
        have: u128,
    },
    /// The nonce is not the one that the sender's account expects next
    BadNonce {
        /// The nonce that the sender's account expects next
        expected: int,
        /// The nonce of the transaction
        given: u64,
    },
}

/// The nonce that a ledger expects next from a sender: one more than the
/// nonce of the sender's account, and zero for a sender without an account.
pub open spec fn expected_nonce(accounts: Map<Address, AccountState>, sender: Address) -> int {
    if accounts.dom().contains(sender) {
        accounts[sender].nonce + 1
    } else {
        0
    }
}

/// The maximum fee of a transaction as an amount: gas price times gas limit,
/// capped at the largest representable amount.
pub open spec fn capped_fee(tx: ContractTransaction) -> u128 {
    if tx.spec_max_fee() > u128::MAX {
        u128::MAX
    } else {
        tx.spec_max_fee() as u128
    }
}

/// The outcome of validating a transaction against a ledger and a gas
/// ceiling. The
/// checks are made in this order: signature, gas ceiling, fee, nonce.
pub open spec fn admission_of(
    tx: ContractTransaction,
    accounts: Map<Address, AccountState>,
    max_gas: u64,
) -> Admission {
    if !tx.signature_ok() {
        Admission::BadSignature { key_at_fault: tx.sender@.len() != PUBKEY_SIZE }
    } else if tx.gas_limit > max_gas {
        Admission::GasTooHigh { limit: tx.gas_limit, ceiling: max_gas }
    } else if available_of(accounts, tx.sender_address) < tx.spec_max_fee() {
        Admission::Unaffordable {
            need: capped_fee(tx),
            have: available_of(accounts, tx.sender_address),
        }
    } else if tx.nonce != expected_nonce(accounts, tx.sender_address) {
        Admission::BadNonce {
            expected: expected_nonce(accounts, tx.sender_address),
            given: tx.nonce,
        }
    } else {
        Admission::Accept
    }
}

/// What a transaction with a signature that does not verify is told, before
/// the fault
pub const INVALID_SIGNATURE: &'static str = "Invalid signature: ";

/// The fault of a signature that is not accepted
pub const FAULT_SIGNATURE: &'static str = "invalid signature";

/// The fault of a key of the wrong length
pub const FAULT_KEY: &'static str = "invalid public key: wrong length";

/// What a transaction with a gas limit above the ceiling is told, before the
/// limit
pub const GAS_LIMIT: &'static str = "Gas limit ";

/// What stands between the gas limit and the ceiling
pub const EXCEEDS_MAXIMUM: &'static str = " exceeds maximum ";

/// What a transaction with another nonce than the next one is told, before
/// the expected nonce
pub const INVALID_NONCE: &'static str = "Invalid nonce: expected ";

/// What stands between the expected nonce and the nonce given
pub const NONCE_GOT: &'static str = ", got ";

/// The message with which a transaction is refused as invalid; nothing for
/// the other outcomes of validation.
pub open spec fn refusal_text(admission: Admission) -> Seq<char> {
    match admission {
        Admission::BadSignature { key_at_fault } => INVALID_SIGNATURE@ + if key_at_fault {
            FAULT_KEY@
        } else {
            FAULT_SIGNATURE@
        },
        Admission::GasTooHigh { limit, ceiling } => GAS_LIMIT@ + decimal_chars(limit as nat)
            + EXCEEDS_MAXIMUM@ + decimal_chars(ceiling as nat),
        Admission::BadNonce { expected, given } => INVALID_NONCE@ + decimal_chars(expected as nat)
            + NONCE_GOT@ + decimal_chars(given as nat),
        _ => Seq::empty(),
    }
}

/// What an upgrade is told
pub const UPGRADES_NOT_IMPLEMENTED: &'static str = "Upgrades not implemented yet";

/// Whether a result is the refusal of a transaction as invalid, with the
/// given message.
pub open spec fn is_invalid<T>(r: ContractResult<T>, message: Seq<char>) -> bool {
    r matches Err(ContractError::InvalidTransaction(m)) && m@ == message
}

/// Whether a result matches the outcome of validation: success for
/// `Accept`, and for each rejection its error.
pub open spec fn matches_admission<T>(r: ContractResult<T>, admission: Admission) -> bool {
    match admission {
        Admission::Accept => r is Ok,
        Admission::BadSignature { .. } => is_invalid(r, refusal_text(admission)),
        Admission::GasTooHigh { .. } => is_invalid(r, refusal_text(admission)),
        Admission::Unaffordable { need, have } => r == Err::<T, ContractError>(
            ContractError::InsufficientBalance { need: HclawAmount(need), have: HclawAmount(have) },
        ),
        Admission::BadNonce { .. } => is_invalid(r, refusal_text(admission)),
    }
}

/// Nonce monotonicity: a transaction is accepted only if its nonce is the
/// one that the sender's account expects next. So once the sender's nonce
/// has reached the transaction's nonce, the same transaction is refused.
pub proof fn lemma_nonce_monotonic(
    tx: ContractTransaction,
    accounts: Map<Address, AccountState>,
    later: Map<Address, AccountState>,
    max_gas: u64,
)
    requires
        later.dom().contains(tx.sender_address),
        later[tx.sender_address].nonce >= tx.nonce,
    ensures
        admission_of(tx, accounts, max_gas) is Accept ==> tx.nonce == expected_nonce(
            accounts,
            tx.sender_address,
        ),
        !(admission_of(tx, later, max_gas) is Accept),
        forall|r: ContractResult<()>| #[trigger]
            matches_admission(r, admission_of(tx, later, max_gas)) ==> r is Err,
{
}

/// A ledger after a sender's transaction has been applied: the sender's
/// account holds the nonce of the transaction. A sender without an account
/// gets one.
pub open spec fn with_nonce(
    accounts: Map<Address, AccountState>,
    sender: Address,
    nonce: u64,
) -> Map<Address, AccountState> {
    accounts.insert(sender, AccountState { nonce, ..account_of(accounts, sender) })
}

/// A transaction that has been applied is refused when it is submitted
/// again: on the ledger that holds its nonce it is not accepted, and where
/// signature, gas ceiling and fee are in order, it is refused for its nonce,
/// as an invalid transaction.
pub proof fn lemma_replay_refused(
    tx: ContractTransaction,
    reached: Map<Address, AccountState>,
    max_gas: u64,
)
    ensures
        ({
            let applied = with_nonce(reached, tx.sender_address, tx.nonce);
            &&& !(admission_of(tx, applied, max_gas) is Accept)
            &&& tx.signature_ok() && tx.gas_limit <= max_gas && available_of(
                applied,
                tx.sender_address,
            ) >= tx.spec_max_fee() ==> admission_of(tx, applied, max_gas) is BadNonce
            &&& forall|r: ContractResult<ExecutionResult>| #[trigger]
                matches_admission(r, admission_of(tx, applied, max_gas)) ==> r is Err
        }),
{
}

/// Fee affordability: a transaction whose maximum fee exceeds the sender's
/// available balance is never accepted, whatever the contract would do; and
/// where signature and gas ceiling are in order, the rejection is
/// `InsufficientBalance` with the fee and the balance.
pub proof fn lemma_fee_affordability(
    tx: ContractTransaction,
    accounts: Map<Address, AccountState>,
    max_gas: u64,
)
    requires
        available_of(accounts, tx.sender_address) < tx.spec_max_fee(),
    ensures
        !(admission_of(tx, accounts, max_gas) is Accept),
        tx.signature_ok() && tx.gas_limit <= max_gas ==> admission_of(tx, accounts, max_gas)
            == (Admission::Unaffordable {
            need: capped_fee(tx),
            have: available_of(accounts, tx.sender_address),
        }),
{
}

/// The id under which a deployment is loaded: the digest of the code
/// followed by the deployer's address.
pub open spec fn deployment_id(code: Seq<u8>, deployer: Address) -> Id {
    crate::crypto::hash::Hash(blake3_digest(code + deployer.0@))
}

/// The id under which a deployment is loaded.
pub fn derive_contract_id(code: &[u8], deployer: &Address) -> (r: Id)
    ensures
        r == deployment_id(code@, *deployer),
{
    let mut data: Vec<u8> = Vec::new();
    push_bytes(&mut data, code);
    push_bytes(&mut data, deployer.0.as_slice());
    hash_data(data.as_slice())
}

/// What settling an attempt returns, given what the contract returned and
/// the root that the processor computed: the contract's error unchanged, a
/// `StateRootMismatch` where the reported root differs, and else the
/// contract's result.
pub open spec fn settled(
    outcome: ContractResult<ExecutionResult>,
    computed: Id,
) -> ContractResult<ExecutionResult> {
    match outcome {
        Ok(result) => if result.new_state_root == computed {
            Ok(result)
        } else {
            Err(ContractError::StateRootMismatch { expected: result.new_state_root, got: computed })
        },
        Err(e) => Err(e),
    }
}

/// Root-mismatch rejection: a result whose reported root is not the computed
/// root is turned into `StateRootMismatch`, whatever else it holds.
pub proof fn lemma_root_mismatch_rejected(result: ExecutionResult, computed: Id)
    requires
        result.new_state_root != computed,
    ensures
        settled(Ok(result), computed) == Err::<ExecutionResult, ContractError>(
            ContractError::StateRootMismatch { expected: result.new_state_root, got: computed },
        ),
{
}

/// Settle an attempt: compare the root that the contract reported against
/// the root of the ledger as it stands, then commit on a match and roll back
/// otherwise.
///
/// After a rollback the ledger and the store are exactly what they were when
/// the accessor was opened or last committed: a contract cannot lie about
/// the effect of its own execution.
pub fn settle(state: &mut ContractState, outcome: ContractResult<ExecutionResult>) -> (r:
    ContractResult<ExecutionResult>)
    ensures
        r == settled(outcome, state_root_of(old(state).journal().accounts)),
        r is Ok ==> final(state).journal() == old(state).journal().commit(),
        r is Ok ==> r->Ok_0.new_state_root == state_root_of(final(state).journal().accounts),
        r is Ok ==> keeps_nonces(old(state).journal().accounts, old(state).base_accounts()),
        r is Err ==> final(state).journal() == old(state).journal().rollback(),
        r is Err ==> final(state).journal().accounts == old(state).base_accounts(),
        r is Err ==> final(state).journal().storage == old(state).base_storage(),
{
    match outcome {
        Ok(result) => {
            let computed = state.compute_state_root();
            if computed != result.new_state_root {
                state.rollback();
                return Err(
                    ContractError::StateRootMismatch {
                        expected: result.new_state_root,
                        got: computed,
                    },
                );
            }
            state.commit();
            Ok(result)
        },
        Err(e) => {
            state.rollback();
            Err(e)
        },
    }
}

/// Settle a deployment, given what the contract's deployment hook returned.
///
/// An error is returned unchanged, after a rollback: the ledger and the
/// store are exactly what they were when the accessor was opened. Success
/// commits, and gives the root of the ledger as it stands, no gas, the
/// events of the accessor and no output.
pub fn settle_deploy(state: &mut ContractState, deployed: ContractResult<()>) -> (r: ContractResult<
    ExecutionResult,
>)
    ensures
        match deployed {
            Err(e) => r == Err::<ExecutionResult, ContractError>(e) && final(state).journal() == old(state).journal().rollback() && final(state).journal().accounts == old(state).base_accounts() && final(state).journal().storage == old(state).base_storage(),
            Ok(_) => r is Ok && r->Ok_0@ == (ExecutionResultView {
                new_state_root: state_root_of(old(state).journal().accounts),
                gas_used: 0,
                events: old(state).journal().events,
                output: Seq::empty(),
            }) && final(state).journal() == old(state).journal().commit(),
        },
{
    match deployed {
        Err(e) => {
            state.rollback();
            Err(e)
        },
        Ok(()) => {
            let root = state.compute_state_root();
            let events = copy_events(state.events());
            state.commit();
            Ok(ExecutionResult { new_state_root: root, gas_used: 0, events, output: Vec::new() })
        },
    }
}

/// What a peer concludes of a claimed result, given what the contract's own
/// `verify` returned and the root that the peer computed: the contract's
/// error unchanged, `false` where the contract rejects the claim, and else
/// whether the claimed root is the computed one.
pub open spec fn judged(accepted: ContractResult<bool>, computed: Id, claimed: Id) -> ContractResult<
    bool,
> {
    match accepted {
        Ok(true) => Ok(computed == claimed),
        Ok(false) => Ok(false),
        Err(e) => Err(e),
    }
}

/// Judge a claimed result: `true` only if both the contract's own `verify`
/// and the independently computed root agree with the claim.
pub fn judge(accepted: ContractResult<bool>, computed: Id, claimed: &ExecutionResult) -> (r:
    ContractResult<bool>)
    ensures
        r == judged(accepted, computed, claimed.new_state_root),
{
    match accepted {
        Ok(true) => Ok(computed == claimed.new_state_root),
        Ok(false) => Ok(false),
        Err(e) => Err(e),
    }
}

/// The accessor on which the contract of an admitted transaction runs:
/// freshly opened over the store and over the ledger in which the sender's
/// account holds the nonce of the transaction.
pub open spec fn opened(
    accounts: Map<Address, AccountState>,
    storage: Map<CellKey, Seq<u8>>,
    tx: ContractTransaction,
) -> Journal {
    Journal::fresh(with_nonce(accounts, tx.sender_address, tx.nonce), storage)
}

/// Whether a result, a ledger and a store are what the execution of an
/// admitted transaction gives, where the contract returned `outcome` and
/// left the accessor as `left`.
///
/// The contract ran on the accessor of `opened`. The result is what
/// settling the outcome against the root of the ledger that the contract
/// left gives. On success ledger and store are exactly what the contract
/// left, and no account lost its nonce; on failure they are what they were
/// before the attempt, the sender's nonce too.
pub open spec fn is_settled_run<C: Contract + ?Sized>(
    contract: &C,
    tx: ContractTransaction,
    accounts: Map<Address, AccountState>,
    storage: Map<CellKey, Seq<u8>>,
    outcome: ContractResult<ExecutionResult>,
    left: Journal,
    r: ContractResult<ExecutionResult>,
    accounts_after: Map<Address, AccountState>,
    storage_after: Map<CellKey, Seq<u8>>,
) -> bool {
    &&& contract.executes(opened(accounts, storage, tx), tx, outcome, left)
    &&& r == settled(outcome, state_root_of(left.accounts))
    &&& r is Ok ==> accounts_after == left.accounts && storage_after == left.storage
        && keeps_nonces(left.accounts, with_nonce(accounts, tx.sender_address, tx.nonce))
    &&& r is Err ==> accounts_after == accounts && storage_after == storage
}

/// Whether a result, a ledger and a store are what executing a transaction
/// with a contract on a ledger and a store gives.
///
/// A transaction that validation refuses gets its refusal and changes
/// nothing. Any other is run and settled, for some outcome of the contract.
pub open spec fn is_execution<C: Contract + ?Sized>(
    contract: &C,
    tx: ContractTransaction,
    max_gas: u64,
    accounts: Map<Address, AccountState>,
    storage: Map<CellKey, Seq<u8>>,
    r: ContractResult<ExecutionResult>,
    accounts_after: Map<Address, AccountState>,
    storage_after: Map<CellKey, Seq<u8>>,
) -> bool {
    if admission_of(tx, accounts, max_gas) is Accept {
        exists|outcome: ContractResult<ExecutionResult>, left: Journal| #[trigger]
            is_settled_run(
                contract,
                tx,
                accounts,
                storage,
                outcome,
                left,
                r,
                accounts_after,
                storage_after,
            )
    } else {
        matches_admission(r, admission_of(tx, accounts, max_gas)) && accounts_after == accounts
            && storage_after == storage
    }
}

/// What follows of an execution that succeeded: the transaction was
/// admitted, the root of the result is the root of the ledger after the
/// call, the sender's account holds the nonce of the transaction, and the
/// same transaction is not accepted again.
pub proof fn lemma_execution_applied<C: Contract + ?Sized>(
    contract: &C,
    tx: ContractTransaction,
    max_gas: u64,
    accounts: Map<Address, AccountState>,
    storage: Map<CellKey, Seq<u8>>,
    r: ContractResult<ExecutionResult>,
    accounts_after: Map<Address, AccountState>,
    storage_after: Map<CellKey, Seq<u8>>,
)
    requires
        is_execution(contract, tx, max_gas, accounts, storage, r, accounts_after, storage_after),
        r is Ok,
    ensures
        admission_of(tx, accounts, max_gas) is Accept,
        r->Ok_0.new_state_root == state_root_of(accounts_after),
        accounts_after.dom().contains(tx.sender_address),
        accounts_after[tx.sender_address].nonce == tx.nonce,
        !(admission_of(tx, accounts_after, max_gas) is Accept),
{
    let applied = with_nonce(accounts, tx.sender_address, tx.nonce);
    assert(applied.dom().contains(tx.sender_address));
}

/// Whether a verdict is what the verification of an admitted transaction
/// gives, where the contract returned `outcome`, left the accessor as `left`
/// and answered `accepted` to the claim.
///
/// The contract ran on the accessor of `opened`, over copies. An error of
/// the contract is returned unchanged. Else the contract was asked about
/// the claim on the accessor as it left it, and the verdict is `true` only
/// where the contract accepts the claim and the claimed root is the root
/// of the ledger that the contract left.
pub open spec fn is_judged_run<C: Contract + ?Sized>(
    contract: &C,
    tx: ContractTransaction,
    claimed: ExecutionResult,
    accounts: Map<Address, AccountState>,
    storage: Map<CellKey, Seq<u8>>,
    outcome: ContractResult<ExecutionResult>,
    left: Journal,
    accepted: ContractResult<bool>,
    r: ContractResult<bool>,
) -> bool {
    &&& contract.executes(opened(accounts, storage, tx), tx, outcome, left)
    &&& match outcome {
        Err(e) => r == Err::<bool, ContractError>(e),
        Ok(_) => contract.verifies(left, tx, claimed, accepted) && r == judged(
            accepted,
            state_root_of(left.accounts),
            claimed.new_state_root,
        ),
    }
}

/// Whether a verdict is what verifying a claimed result of a transaction
/// with a contract on a ledger and a store gives.
pub open spec fn is_verification<C: Contract + ?Sized>(
    contract: &C,
    tx: ContractTransaction,
    claimed: ExecutionResult,
    max_gas: u64,
    accounts: Map<Address, AccountState>,
    storage: Map<CellKey, Seq<u8>>,
    r: ContractResult<bool>,
) -> bool {
    if admission_of(tx, accounts, max_gas) is Accept {
        exists|outcome: ContractResult<ExecutionResult>, left: Journal, accepted: ContractResult<bool>| #[trigger]
            is_judged_run(contract, tx, claimed, accounts, storage, outcome, left, accepted, r)
    } else {
        matches_admission(r, admission_of(tx, accounts, max_gas))
    }
}

/// Whether transaction `i` of a batch took the ledger and the store from
/// their state `i` to their state `i + 1`, with result `i`.
pub open spec fn is_step(
    transactions: Seq<(Box<dyn Contract>, ContractTransaction)>,
    max_gas: u64,
    ledgers: Seq<Map<Address, AccountState>>,
    stores: Seq<Map<CellKey, Seq<u8>>>,
    results: Seq<ExecutionResult>,
    i: int,
) -> bool {
    is_execution(
        &*transactions[i].0,
        transactions[i].1,
        max_gas,
        ledgers[i],
        stores[i],
        Ok::<ExecutionResult, ContractError>(results[i]),
        ledgers[i + 1],
        stores[i + 1],
    )
}

/// Whether the first `upto` transactions of a batch ran in order, each with
/// success on what the one before it left: `ledgers` and `stores` hold the
/// state before the first transaction and after each of them, `results` the
/// result of each.
pub open spec fn is_chain(
    transactions: Seq<(Box<dyn Contract>, ContractTransaction)>,
    max_gas: u64,
    ledgers: Seq<Map<Address, AccountState>>,
    stores: Seq<Map<CellKey, Seq<u8>>>,
    results: Seq<ExecutionResult>,
    upto: int,
) -> bool {
    &&& 0 <= upto <= transactions.len()
    &&& ledgers.len() == upto + 1
    &&& stores.len() == upto + 1
    &&& results.len() == upto
    &&& forall|i: int|
        0 <= i < upto ==> #[trigger] is_step(transactions, max_gas, ledgers, stores, results, i)
}

/// Whether a batch failed at transaction `at`: the transactions before it
/// ran in order with success, and `error` is what transaction `at` gave on
/// what they left.
pub open spec fn is_broken_chain(
    transactions: Seq<(Box<dyn Contract>, ContractTransaction)>,
    max_gas: u64,
    ledgers: Seq<Map<Address, AccountState>>,
    stores: Seq<Map<CellKey, Seq<u8>>>,
    results: Seq<ExecutionResult>,
    at: int,
    error: ContractError,
) -> bool {
    &&& at < transactions.len()
    &&& is_chain(transactions, max_gas, ledgers, stores, results, at)
    &&& is_execution(
        &*transactions[at].0,
        transactions[at].1,
        max_gas,
        ledgers[at],
        stores[at],
        Err::<ExecutionResult, ContractError>(error),
        ledgers[at],
        stores[at],
    )
}

/// Processes contract transactions and applies state transitions
pub struct TransactionProcessor {
    /// Maximum gas per transaction
    max_gas: u64,
    /// Contract registry for looking up contracts
    registry: ContractRegistry,
    /// Contract loader for deploying new contracts
    loader: Held<Box<dyn ContractLoader>>,
}

/// A value that is held as it was given.
struct Held<T> {
    value: T,
}

fn held<T>(value: T) -> (r: Held<T>)
    ensures
        r.value == value,
{
    Held { value }
}

fn take_ledger(accounts: &mut Ledger) -> (r: Ledger)
    ensures
        r@ == old(accounts)@,
        r.order() == old(accounts).order(),
{
    let mut taken = Ledger::new();
    std::mem::swap(accounts, &mut taken);
    taken
}

fn take_storage(storage: &mut ContractStorage) -> (r: ContractStorage)
    ensures
        r@ == old(storage)@,
{
    let mut taken = ContractStorage::new();
    std::mem::swap(storage, &mut taken);
    taken
}

impl TransactionProcessor {
    /// The gas ceiling.
    pub closed spec fn max_gas(&self) -> u64 {
        self.max_gas
    }

    /// The ids of the registered contracts.
    pub closed spec fn registered(&self) -> Seq<Id> {
        self.registry.ids()
    }

    /// The registered contracts, in the order of `registered`.
    pub closed spec fn contracts(&self) -> Seq<Box<dyn Contract>> {
        self.registry.entries()
    }

    /// What the processor's loader says of the result of loading a payload
    /// under an id.
    pub closed spec fn loads(
        &self,
        id: Id,
        code: Seq<u8>,
        r: ContractResult<Box<dyn Contract>>,
    ) -> bool {
        self.loader.value.loads(id, code, r)
    }

    /// Whether the processor loads as the universal loader without a
    /// backend does.
    pub open spec fn loads_plainly(&self) -> bool {
        forall|id: Id, code: Seq<u8>, r: ContractResult<Box<dyn Contract>>| #[trigger]
            self.loads(id, code, r) == is_plain_load(code, r)
    }

    /// Create new transaction processor with empty registry and the
    /// universal loader without a backend
    pub fn new(max_gas: u64) -> (r: Self)
        ensures
            r.max_gas() == max_gas,
            r.registered() == Seq::<Id>::empty(),
            r.loads_plainly(),
    {
        Self::with_registry(max_gas, ContractRegistry::new())
    }

    /// Create transaction processor with pre-configured registry and the
    /// universal loader without a backend
    pub fn with_registry(max_gas: u64, registry: ContractRegistry) -> (r: Self)
        ensures
            r.max_gas() == max_gas,
            r.registered() == registry.ids(),
            r.contracts() == registry.entries(),
            r.loads_plainly(),
    {
        let plain: Box<dyn ContractLoader> = Box::new(UniversalLoader::new());
        let loader = held(plain);
        TransactionProcessor { max_gas, registry, loader }
    }

    /// Create transaction processor with a registry and a loader of its own
    pub fn with_loader(
        max_gas: u64,
        registry: ContractRegistry,
        loader: Box<dyn ContractLoader>,
    ) -> (r: Self)
        ensures
            r.max_gas() == max_gas,
            r.registered() == registry.ids(),
            forall|id: Id, code: Seq<u8>, loaded: ContractResult<Box<dyn Contract>>| #[trigger]
                r.loads(id, code, loaded) == loader.loads(id, code, loaded),
    {
        let loader = held(loader);
        TransactionProcessor { max_gas, registry, loader }
    }

    /// Get reference to contract registry
    pub fn registry(&self) -> (r: &ContractRegistry)
        ensures
            r.ids() == self.registered(),
            r.entries() == self.contracts(),
    {
        &self.registry
    }

    /// Validate transaction before execution: signature, gas ceiling, fee
    /// affordability and nonce, in this order.
    pub fn validate_transaction(&self, tx: &ContractTransaction, accounts: &Ledger) -> (r:
        ContractResult<()>)
        ensures
            matches_admission(r, admission_of(*tx, accounts@, self.max_gas())),
    {
        match tx.verify_signature() {
            Ok(()) => {},
            Err(e) => {
                let fault = e.message();
                proof {
                    reveal_strlit("invalid signature");
                    reveal_strlit("invalid public key: ");
                    reveal_strlit("wrong length");
                    reveal_strlit("invalid public key: wrong length");
                    assert(fault@ =~= if tx.sender@.len() != PUBKEY_SIZE {
                        FAULT_KEY@
                    } else {
                        FAULT_SIGNATURE@
                    });
                }
                return Err(
                    ContractError::InvalidTransaction(
                        String::from_str(INVALID_SIGNATURE).concat(fault.as_str()),
                    ),
                );
            },
        }
        if tx.gas_limit > self.max_gas {
            return Err(
                ContractError::InvalidTransaction(
                    String::from_str(GAS_LIMIT).concat(decimal_text(tx.gas_limit).as_str()).concat(
                        EXCEEDS_MAXIMUM,
                    ).concat(decimal_text(self.max_gas).as_str()),
                ),
            );
        }
        let account = accounts.get(&tx.sender_address);
        let sender_balance = match account {
            Some(a) => a.available_balance(),
            None => HclawAmount::zero(),
        };
        let max_fee = tx.max_fee();
        let affordable = match tx.gas_price.0.checked_mul(tx.gas_limit as u128) {
            Some(fee) => sender_balance.0 >= fee,
            None => false,
        };
        if !affordable {
            return Err(ContractError::InsufficientBalance { need: max_fee, have: sender_balance });
        }
        let nonce_ok = match account {
            Some(a) => a.nonce < u64::MAX && tx.nonce == a.nonce + 1,
            None => tx.nonce == 0,
        };
        if !nonce_ok {
            let expected: u128 = match account {
                Some(a) => (a.nonce as u128) + 1,
                None => 0,
            };
            return Err(
                ContractError::InvalidTransaction(
                    String::from_str(INVALID_NONCE).concat(
                        decimal_text_wide(expected).as_str(),
                    ).concat(NONCE_GOT).concat(decimal_text(tx.nonce).as_str()),
                ),
            );
        }
        Ok(())
    }

    /// Execute a contract transaction.
    ///
    /// 1. Validates the transaction; a refused transaction changes nothing.
    /// 2. Opens a fresh accessor over the ledger and the store.
    /// 3. Runs the contract.
    /// 4. Settles: on success with a matching root the mutations stay; on any
    ///    failure they are rolled back.
    ///
    /// Before the contract runs, the sender's account takes the nonce of the
    /// transaction, so that the root covers it and the same transaction is
    /// refused from then on. On any failure the nonce is put back with
    /// everything else.
    pub fn execute_transaction<C: Contract + ?Sized>(
        &self,
        contract: &C,
        tx: &ContractTransaction,
        accounts: &mut Ledger,
        storage: &mut ContractStorage,
    ) -> (r: ContractResult<ExecutionResult>)
        ensures
            is_execution(
                contract,
                *tx,
                self.max_gas(),
                old(accounts)@,
                old(storage)@,
                r,
                final(accounts)@,
                final(storage)@,
            ),
            !(admission_of(*tx, old(accounts)@, self.max_gas()) is Accept) ==> matches_admission(
                r,
                admission_of(*tx, old(accounts)@, self.max_gas()),
            ) && final(accounts)@ == old(accounts)@ && final(storage)@ == old(storage)@,
            r is Ok ==> r->Ok_0.new_state_root == state_root_of(final(accounts)@),
            r is Ok ==> final(accounts)@.dom().contains(tx.sender_address) && final(accounts)@[tx.sender_address].nonce == tx.nonce && !(admission_of(
                *tx,
                final(accounts)@,
                self.max_gas(),
            ) is Accept),
            r is Err ==> final(accounts)@ == old(accounts)@ && final(storage)@ == old(storage)@,
    {
        match self.validate_transaction(tx, accounts) {
            Err(e) => {
                return Err(e);
            },
            Ok(()) => {},
        }
        let held: Option<AccountState> = match accounts.get(&tx.sender_address) {
            Some(a) => Some(*a),
            None => None,
        };
        let mut account = match held {
            Some(a) => a,
            None => AccountState::new(HclawAmount::zero()),
        };
        account.nonce = tx.nonce;
        accounts.insert(tx.sender_address, account);
        assert(accounts@ =~= with_nonce(old(accounts)@, tx.sender_address, tx.nonce));
        let mut state = ContractState::new(take_ledger(accounts), take_storage(storage));
        let outcome = contract.execute(&mut state, tx);
        let ghost returned = outcome;
        let ghost left = state.journal();
        let r = settle(&mut state, outcome);
        let (a, s) = state.into_parts();
        *accounts = a;
        *storage = s;
        if r.is_err() {
            match held {
                Some(a) => {
                    accounts.insert(tx.sender_address, a);
                },
                None => {
                    let _ = accounts.remove(&tx.sender_address);
                },
            }
            assert(accounts@ =~= old(accounts)@);
        }
        proof {
            assert(is_settled_run(
                contract,
                *tx,
                old(accounts)@,
                old(storage)@,
                returned,
                left,
                r,
                accounts@,
                storage@,
            ));
            if r is Ok {
                lemma_execution_applied(
                    contract,
                    *tx,
                    self.max_gas(),
                    old(accounts)@,
                    old(storage)@,
                    r,
                    accounts@,
                    storage@,
                );
            }
        }
        r
    }

    /// Verify a proposed execution result, as a peer that did not produce it.
    ///
    /// Validates the transaction as `execute_transaction` does, executes it
    /// against a disposable copy of the ledger and the store, asks the
    /// contract whether it accepts the claimed result, and recomputes the
    /// root. The ledger and the store themselves are only read.
    pub fn verify_execution<C: Contract + ?Sized>(
        &self,
        contract: &C,
        tx: &ContractTransaction,
        result: &ExecutionResult,
        accounts: &Ledger,
        storage: &ContractStorage,
    ) -> (r: ContractResult<bool>)
        ensures
            is_verification(contract, *tx, *result, self.max_gas(), accounts@, storage@, r),
            !(admission_of(*tx, accounts@, self.max_gas()) is Accept) ==> matches_admission(
                r,
                admission_of(*tx, accounts@, self.max_gas()),
            ),
    {
        match self.validate_transaction(tx, accounts) {
            Err(e) => {
                return Err(e);
            },
            Ok(()) => {},
        }
        let mut copy = accounts.snapshot();
        let mut account = match copy.get(&tx.sender_address) {
            Some(a) => *a,
            None => AccountState::new(HclawAmount::zero()),
        };
        account.nonce = tx.nonce;
        copy.insert(tx.sender_address, account);
        assert(copy@ =~= with_nonce(accounts@, tx.sender_address, tx.nonce));
        let mut state = ContractState::new(copy, storage.snapshot());
        let outcome = contract.execute(&mut state, tx);
        let ghost returned = outcome;
        let ghost left = state.journal();
        match outcome {
            Err(e) => {
                assert(is_judged_run(
                    contract,
                    *tx,
                    *result,
                    accounts@,
                    storage@,
                    returned,
                    left,
                    Ok::<bool, ContractError>(true),
                    Err::<bool, ContractError>(e),
                ));
                Err(e)
            },
            Ok(_) => {
                let accepted = contract.verify(&state, tx, result);
                let ghost answer = accepted;
                let computed = state.compute_state_root();
                let r = judge(accepted, computed, result);
                assert(is_judged_run(
                    contract,
                    *tx,
                    *result,
                    accounts@,
                    storage@,
                    returned,
                    left,
                    answer,
                    r,
                ));
                r
            },
        }
    }

    /// Batch process multiple transactions atomically.
    ///
    /// The transactions are executed in order, each on what the one before
    /// it left. On the first failure the ledger and the store are put back
    /// exactly as they were before the batch, nonces included, and the error
    /// is returned.
    pub fn execute_batch(
        &self,
        transactions: &[(Box<dyn Contract>, ContractTransaction)],
        accounts: &mut Ledger,
        storage: &mut ContractStorage,
    ) -> (r: ContractResult<Vec<ExecutionResult>>)
        ensures
            r is Err ==> final(accounts)@ == old(accounts)@ && final(accounts).order() == old(accounts).order() && final(storage)@ == old(storage)@,
            r is Ok ==> exists|
                ledgers: Seq<Map<Address, AccountState>>,
                stores: Seq<Map<CellKey, Seq<u8>>>,
            |
                {
                    &&& #[trigger] is_chain(
                        transactions@,
                        self.max_gas(),
                        ledgers,
                        stores,
                        r->Ok_0@,
                        transactions@.len() as int,
                    )
                    &&& ledgers[0] == old(accounts)@
                    &&& stores[0] == old(storage)@
                    &&& ledgers.last() == final(accounts)@
                    &&& stores.last() == final(storage)@
                },
            r is Err ==> exists|
                ledgers: Seq<Map<Address, AccountState>>,
                stores: Seq<Map<CellKey, Seq<u8>>>,
                results: Seq<ExecutionResult>,
                at: int,
            |
                {
                    &&& #[trigger] is_broken_chain(
                        transactions@,
                        self.max_gas(),
                        ledgers,
                        stores,
                        results,
                        at,
                        r->Err_0,
                    )
                    &&& ledgers[0] == old(accounts)@
                    &&& stores[0] == old(storage)@
                },
            r is Ok ==> r->Ok_0@.len() == transactions@.len(),
            r is Ok && transactions@.len() > 0 ==> r->Ok_0@.last().new_state_root == state_root_of(final(accounts)@),
            transactions@.len() == 0 ==> r is Ok && final(accounts)@ == old(accounts)@ && final(storage)@ == old(storage)@,
            transactions@.len() > 0 && !(admission_of(
                transactions@[0].1,
                old(accounts)@,
                self.max_gas(),
            ) is Accept) ==> matches_admission(
                r,
                admission_of(transactions@[0].1, old(accounts)@, self.max_gas()),
            ),
    {
        let accounts_backup = accounts.snapshot();
        let storage_backup = storage.snapshot();
        let mut results: Vec<ExecutionResult> = Vec::new();
        let ghost mut ledgers: Seq<Map<Address, AccountState>> = seq![accounts@];
        let ghost mut stores: Seq<Map<CellKey, Seq<u8>>> = seq![storage@];
        let mut i: usize = 0;
        while i < transactions.len()
            invariant
                0 <= i <= transactions@.len(),
                results@.len() == i,
                accounts_backup@ == old(accounts)@,
                accounts_backup.order() == old(accounts).order(),
                storage_backup@ == old(storage)@,
                is_chain(transactions@, self.max_gas(), ledgers, stores, results@, i as int),
                ledgers[0] == old(accounts)@,
                stores[0] == old(storage)@,
                ledgers[i as int] == accounts@,
                stores[i as int] == storage@,
                i > 0 ==> admission_of(transactions@[0].1, old(accounts)@, self.max_gas()) is Accept,
                i > 0 ==> results@.last().new_state_root == state_root_of(accounts@),
            decreases transactions@.len() - i,
        {
            let pair = &transactions[i];
            let ghost before_ledgers = ledgers;
            let ghost before_stores = stores;
            let ghost before_results = results@;
            match self.execute_transaction(borrowed(&pair.0), &pair.1, accounts, storage) {
                Ok(result) => {
                    proof {
                        ledgers = ledgers.push(accounts@);
                        stores = stores.push(storage@);
                    }
                    results.push(result);
                    proof {
                        assert(is_step(
                            transactions@,
                            self.max_gas(),
                            ledgers,
                            stores,
                            results@,
                            i as int,
                        ));
                        assert forall|j: int| 0 <= j < i implies #[trigger] is_step(
                            transactions@,
                            self.max_gas(),
                            ledgers,
                            stores,
                            results@,
                            j,
                        ) by {
                            assert(is_step(
                                transactions@,
                                self.max_gas(),
                                before_ledgers,
                                before_stores,
                                before_results,
                                j,
                            ));
                        }
                        if i == 0 {
                            lemma_execution_applied(
                                &*transactions@[0].0,
                                transactions@[0].1,
                                self.max_gas(),
                                ledgers[0],
                                stores[0],
                                Ok::<ExecutionResult, ContractError>(result),
                                ledgers[1],
                                stores[1],
                            );
                        }
                    }
                },
                Err(e) => {
                    proof {
                        assert(is_broken_chain(
                            transactions@,
                            self.max_gas(),
                            ledgers,
                            stores,
                            results@,
                            i as int,
                            e,
                        ));
                    }
                    *accounts = accounts_backup;
                    *storage = storage_backup;
                    let failed: ContractResult<Vec<ExecutionResult>> = Err(e);
                    proof {
                        assert(is_broken_chain(
                            transactions@,
                            self.max_gas(),
                            ledgers,
                            stores,
                            results@,
                            i as int,
                            failed->Err_0,
                        ));
                    }
                    return failed;
                },
            }
            i += 1;
        }
        proof {
            assert(is_chain(
                transactions@,
                self.max_gas(),
                ledgers,
                stores,
                results@,
                transactions@.len() as int,
            ));
            assert(ledgers.last() == accounts@);
            assert(stores.last() == storage@);
            assert(ledgers[0] == old(accounts)@);
            assert(stores[0] == old(storage)@);
            assert(exists|l: Seq<Map<Address, AccountState>>, t: Seq<Map<CellKey, Seq<u8>>>|
                {
                    &&& #[trigger] is_chain(
                        transactions@,
                        self.max_gas(),
                        l,
                        t,
                        results@,
                        transactions@.len() as int,
                    )
                    &&& l[0] == old(accounts)@
                    &&& t[0] == old(storage)@
                    &&& l.last() == accounts@
                    &&& t.last() == storage@
                });
        }
        let r = Ok(results);
        assert(r is Ok);
        assert(r->Ok_0@ == results@);
        r
    }

    /// Process a transaction of any kind.
    ///
    /// - `Execute` looks the contract up and executes the transaction; an
    ///   unknown contract id is `NotFound`.
    /// - `Deploy` loads the contract from its code under the id derived from
    ///   code and deployer, runs its deployment hook through an accessor,
    ///   settles as `settle_deploy` says, and registers the contract once the
    ///   hook has succeeded and the accessor has committed. A loader's error
    ///   is returned unchanged.
    /// - `Upgrade` is not implemented and always fails.
    pub fn process_transaction(
        &mut self,
        kind: &TransactionKind,
        accounts: &mut Ledger,
        storage: &mut ContractStorage,
    ) -> (r: ContractResult<ExecutionResult>)
        ensures
            final(self).max_gas() == old(self).max_gas(),
            forall|id: Id, code: Seq<u8>, loaded: ContractResult<Box<dyn Contract>>| #[trigger]
                final(self).loads(id, code, loaded) == old(self).loads(id, code, loaded),
            r is Err ==> final(accounts)@ == old(accounts)@ && final(storage)@ == old(storage)@ && final(self).registered() == old(self).registered(),
            kind is Upgrade ==> is_failure(r, UPGRADES_NOT_IMPLEMENTED@),
            kind matches TransactionKind::Execute(tx) ==> final(self).registered() == old(self).registered(),
            kind matches TransactionKind::Execute(tx) ==> (!old(self).registered().contains(
                tx.contract_id,
            ) ==> r == Err::<ExecutionResult, ContractError>(
                ContractError::NotFound(tx.contract_id),
            ) && final(accounts)@ == old(accounts)@),
            kind matches TransactionKind::Execute(tx) ==> (old(self).registered().contains(
                tx.contract_id,
            ) && !(admission_of(*tx, old(accounts)@, old(self).max_gas()) is Accept) ==> matches_admission(
                r,
                admission_of(*tx, old(accounts)@, old(self).max_gas()),
            ) && final(accounts)@ == old(accounts)@),
            kind matches TransactionKind::Execute(tx) ==> final(self).contracts() == old(self).contracts(),
            kind matches TransactionKind::Execute(tx) ==> (old(self).registered().contains(
                tx.contract_id,
            ) ==> is_execution(
                &*old(self).contracts()[old(self).registered().index_of(tx.contract_id)],
                *tx,
                old(self).max_gas(),
                old(accounts)@,
                old(storage)@,
                r,
                final(accounts)@,
                final(storage)@,
            )),
            kind matches TransactionKind::Execute(tx) ==> (r is Ok ==> !(admission_of(
                *tx,
                final(accounts)@,
                old(self).max_gas(),
            ) is Accept)),
            r is Ok ==> r->Ok_0.new_state_root == state_root_of(final(accounts)@),
            kind is Deploy && r is Ok ==> r->Ok_0.gas_used == 0 && r->Ok_0.output@.len() == 0,
            kind is Deploy && r is Ok ==> final(self).registered().len() > 0 && (final(self).registered() == old(self).registered() || exists|id: Id|
                final(self).registered() == old(self).registered().push(id)),
            kind matches TransactionKind::Deploy { code, init_data, deployer } ==> exists|
                loaded: ContractResult<Box<dyn Contract>>,
            |
                {
                    &&& #[trigger] old(self).loads(deployment_id(code@, *deployer), code@, loaded)
                    &&& loaded matches Err(e) ==> r == Err::<ExecutionResult, ContractError>(e)
                    &&& loaded matches Ok(c) ==> (r is Ok ==> final(self).registered()
                        == with_registered_id(old(self).registered(), c.contract_id()))
                },
            forall|id: Id|
                old(self).registered().contains(id) ==> #[trigger] final(self).registered().contains(
                    id,
                ),
    {
        match kind {
            TransactionKind::Deploy { code, init_data, deployer } => {
                let contract_id = derive_contract_id(code.as_slice(), deployer);
                let loaded = load_with(&self.loader.value, contract_id, code.as_slice());
                let ghost witness = loaded;
                assert(self.loads(deployment_id(code@, *deployer), code@, witness));
                let contract = match loaded {
                    Ok(c) => c,
                    Err(e) => {
                        assert(witness matches Err(x) && x == e);
                        return Err(e);
                    },
                };
                assert(witness matches Ok(c) && c == contract);
                let mut state = ContractState::new(take_ledger(accounts), take_storage(storage));
                let deployed = contract.on_deploy(&mut state, init_data.as_slice());
                let r = settle_deploy(&mut state, deployed);
                let (a, s) = state.into_parts();
                *accounts = a;
                *storage = s;
                if r.is_ok() {
                    let ghost before = self.registry.ids();
                    let mut slot = Some(contract);
                    self.registry.register_from(&mut slot);
                    proof {
                        let after = self.registry.ids();
                        assert forall|id: Id| before.contains(id) implies after.contains(
                            id,
                        ) by {
                            let i = choose|i: int| 0 <= i < before.len() && before[i] == id;
                            assert(after[i] == id);
                        }
                    }
                }
                r
            },
            TransactionKind::Execute(tx) => {
                match self.registry.get(&tx.contract_id) {
                    None => Err(ContractError::NotFound(tx.contract_id)),
                    Some(contract) => self.execute_transaction(contract, tx, accounts, storage),
                }
            },
            TransactionKind::Upgrade { contract_id, new_code, upgrader } => Err(
                ContractError::ExecutionFailed(String::from_str(UPGRADES_NOT_IMPLEMENTED)),
            ),
        }
    }
}

fn borrowed<C: Contract + ?Sized>(boxed: &Box<C>) -> (r: &C)
    ensures
        r == &**boxed,
{
    &**boxed
}

fn load_with<L: ContractLoader + ?Sized>(loader: &Box<L>, id: Id, code: &[u8]) -> (r:
    ContractResult<Box<dyn Contract>>)
    ensures
        loader.loads(id, code@, r),
{
    loader.load(id, code)
}

impl Default for TransactionProcessor {
    fn default() -> (r: Self)
        ensures
            r.max_gas() == DEFAULT_MAX_GAS,
            r.registered() == Seq::<Id>::empty(),
            r.loads_plainly(),
    {
        Self::new(DEFAULT_MAX_GAS)
    }
}

} // verus!
