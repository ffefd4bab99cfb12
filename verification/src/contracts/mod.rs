//! Smart contract execution framework.
//!
//! 1. **Contracts** implement the [`Contract`] trait to define their logic.
//! 2. **Transactions** propose state changes.
//! 3. **State transitions** run through a [`state::ContractState`], which
//!    journals every mutation so that a failed attempt can be undone.
//! 4. The **registry** tracks deployed contracts and routes execution.

pub mod bounty_rules;
pub mod codec;
pub mod genesis_bounty;
pub mod governance;
pub mod governance_codec;
pub mod governance_rules;
pub mod journal;
pub mod loader;
pub mod processor;
pub mod root;
pub mod state;
pub mod transaction;
pub mod wasm;

use vstd::prelude::*;
use vstd::string::*;

use self::state::ContractState;
use self::transaction::ContractTransaction;
use crate::encoding::copy_bytes;
use crate::types::amount::HclawAmount;
use crate::types::Id;

verus! {

/// Result type for contract operations
pub type ContractResult<T> = Result<T, ContractError>;

/// Whether a result is a failed execution with the given message.
pub open spec fn is_failure<T>(r: ContractResult<T>, message: Seq<char>) -> bool {
    r matches Err(ContractError::ExecutionFailed(m)) && m@ == message
}

/// Events emitted by contracts
#[derive(Debug)]
pub struct ContractEvent {
    /// Contract that emitted the event
    pub contract_id: Id,
    /// Event topic (for indexing/filtering)
    pub topic: String,
    /// Event data
    pub data: Vec<u8>,
}

/// What an event holds, as plain values.
pub struct EventView {
    /// Contract that emitted the event
    pub contract_id: Id,
    /// Event topic
    pub topic: Seq<char>,
    /// Event data
    pub data: Seq<u8>,
}

impl View for ContractEvent {
    type V = EventView;

    open spec fn view(&self) -> EventView {
        EventView { contract_id: self.contract_id, topic: self.topic@, data: self.data@ }
    }
}

impl Clone for ContractEvent {
    fn clone(&self) -> (r: Self)
        ensures
            r@ == self@,
    {
        ContractEvent {
            contract_id: self.contract_id,
            topic: self.topic.clone(),
            data: copy_bytes(self.data.as_slice()),
        }
    }
}

/// The views of a sequence of events.
pub open spec fn event_views(events: Seq<ContractEvent>) -> Seq<EventView> {
    events.map_values(|e: ContractEvent| e@)
}

/// A copy of a list of events.
pub fn copy_events(events: &[ContractEvent]) -> (r: Vec<ContractEvent>)
    ensures
        event_views(r@) == event_views(events@),
{
    let mut out: Vec<ContractEvent> = Vec::new();
    let mut i: usize = 0;
    while i < events.len()
        invariant
            0 <= i <= events@.len(),
            event_views(out@) == event_views(events@).subrange(0, i as int),
        decreases events@.len() - i,
    {
        let e = events[i].clone();
        let ghost before = event_views(out@);
        out.push(e);
        assert(event_views(out@) =~= before.push(e@));
        assert(event_views(out@) =~= event_views(events@).subrange(0, i as int + 1));
        i += 1;
    }
    assert(event_views(out@) =~= event_views(events@));
    out
}

/// Result of contract execution
#[derive(Debug)]
pub struct ExecutionResult {
    /// New state root after execution
    pub new_state_root: Id,
    /// Gas/compute units consumed
    pub gas_used: u64,
    /// Events emitted during execution
    pub events: Vec<ContractEvent>,
    /// Output data (opaque bytes)
    pub output: Vec<u8>,
}

/// What an execution result holds, as plain values.
pub struct ExecutionResultView {
    /// New state root after execution
    pub new_state_root: Id,
    /// Gas/compute units consumed
    pub gas_used: u64,
    /// Events emitted during execution
    pub events: Seq<EventView>,
    /// Output data
    pub output: Seq<u8>,
}

impl View for ExecutionResult {
    type V = ExecutionResultView;

    open spec fn view(&self) -> ExecutionResultView {
        ExecutionResultView {
            new_state_root: self.new_state_root,
            gas_used: self.gas_used,
            events: event_views(self.events@),
            output: self.output@,
        }
    }
}

impl Clone for ExecutionResult {
    fn clone(&self) -> (r: Self)
        ensures
            r@ == self@,
    {
        ExecutionResult {
            new_state_root: self.new_state_root,
            gas_used: self.gas_used,
            events: copy_events(self.events.as_slice()),
            output: copy_bytes(self.output.as_slice()),
        }
    }
}

/// Contract execution errors
#[derive(Debug)]
pub enum ContractError {
    /// Contract not found
    NotFound(Id),
    /// Transaction validation failed
    InvalidTransaction(String),
    /// Execution failed
    ExecutionFailed(String),
    /// Insufficient balance for transaction
    InsufficientBalance {
        /// Amount needed
        need: HclawAmount,
        /// Amount available
        have: HclawAmount,
    },
    /// State root mismatch
    StateRootMismatch {
        /// Expected state root
        expected: Id,
        /// Actual state root
        got: Id,
    },
    /// Contract is not upgradeable
    NotUpgradeable,
    /// Unauthorized access
    Unauthorized(String),
    /// Generic error
    Other(String),
}

impl ContractError {
    /// A human-readable description of the error.
    pub fn message(&self) -> (r: String)
        ensures
            self matches ContractError::InvalidTransaction(m) ==> r@ == "invalid transaction: "@
                + m@,
            self matches ContractError::ExecutionFailed(m) ==> r@ == "execution failed: "@ + m@,
            self matches ContractError::Unauthorized(m) ==> r@ == "unauthorized: "@ + m@,
            self matches ContractError::Other(m) ==> r@ == m@,
            self is NotUpgradeable ==> r@ == "contract is not upgradeable"@,
            self matches ContractError::NotFound(id) ==> r@ == "contract not found: "@
                + crate::encoding::hex_text(id.0@),
            self matches ContractError::StateRootMismatch { expected, got } ==> r@
                == "state root mismatch: expected "@ + crate::encoding::hex_text(expected.0@)
                + ", got "@ + crate::encoding::hex_text(got.0@),
            self matches ContractError::InsufficientBalance { need, have } ==> r@
                == "insufficient balance: need "@ + crate::encoding::decimal_chars(need.0 as nat)
                + ", have "@ + crate::encoding::decimal_chars(have.0 as nat),
    {
        match self {
            ContractError::NotFound(id) => String::from_str("contract not found: ").concat(
                id.to_hex().as_str(),
            ),
            ContractError::InvalidTransaction(m) => String::from_str(
                "invalid transaction: ",
            ).concat(m.as_str()),
            ContractError::ExecutionFailed(m) => String::from_str("execution failed: ").concat(
                m.as_str(),
            ),
            ContractError::InsufficientBalance { need, have } => String::from_str(
                "insufficient balance: need ",
            ).concat(crate::encoding::decimal_text_wide(need.0).as_str()).concat(
                ", have ",
            ).concat(crate::encoding::decimal_text_wide(have.0).as_str()),
            ContractError::StateRootMismatch { expected, got } => String::from_str(
                "state root mismatch: expected ",
            ).concat(expected.to_hex().as_str()).concat(", got ").concat(got.to_hex().as_str()),
            ContractError::NotUpgradeable => String::from_str("contract is not upgradeable"),
            ContractError::Unauthorized(m) => String::from_str("unauthorized: ").concat(m.as_str()),
            ContractError::Other(m) => m.clone(),
        }
    }
}

/// A smart contract that can be executed on-chain.
///
/// A contract holds no state of its own between calls: every durable fact
/// lives in storage cells, reached through the accessor. A contract works
/// through the accessor's operations and leaves the accessor's base alone:
/// it does not commit.
///
/// A contract may say what its execution and its verification do, in
/// `executes` and `verifies`; what the processor returns is stated over
/// these. The deployment hook has no such relation: it has a body in the
/// trait, which is proved once for every contract, and so its contract can
/// only say what holds of every contract.
pub trait Contract: Send + Sync {
    /// The contract's identifier, as a value: what `id` returns.
    spec fn contract_id(&self) -> Id;

    /// Unique contract ID
    fn id(&self) -> (r: Id)
        ensures
            r == self.contract_id(),
    ;

    /// Human-readable contract name
    fn name(&self) -> &str;

    /// Contract version
    fn version(&self) -> u32;

    /// What this contract says of an execution: of what `execute` returns
    /// for a transaction on an accessor, and of the accessor afterwards. A
    /// contract that does not say otherwise says nothing.
    open spec fn executes(
        &self,
        before: journal::Journal,
        tx: ContractTransaction,
        r: ContractResult<ExecutionResult>,
        after: journal::Journal,
    ) -> bool {
        true
    }

    /// Execute a transaction against this contract.
    ///
    /// Mutations go through `state`; on failure the caller rolls them back.
    fn execute(&self, state: &mut ContractState, tx: &ContractTransaction) -> (r: ContractResult<
        ExecutionResult,
    >)
        ensures
            final(state).base_accounts() == old(state).base_accounts(),
            final(state).base_storage() == old(state).base_storage(),
            self.executes(old(state).journal(), *tx, r, final(state).journal()),
    ;

    /// What this contract says of a verification: of what `verify` returns
    /// for a transaction and a claimed result on an accessor. A contract
    /// that does not say otherwise says nothing.
    open spec fn verifies(
        &self,
        journal: journal::Journal,
        tx: ContractTransaction,
        result: ExecutionResult,
        r: ContractResult<bool>,
    ) -> bool {
        true
    }

    /// Verify a proposed execution result: whether this contract accepts
    /// `result` as the outcome of `tx` on `state`.
    fn verify(
        &self,
        state: &ContractState,
        tx: &ContractTransaction,
        result: &ExecutionResult,
    ) -> (r: ContractResult<bool>)
        ensures
            self.verifies(state.journal(), *tx, *result, r),
    ;

    /// Check if this contract can be upgraded. Unless a contract says
    /// otherwise, it cannot.
    fn is_upgradeable(&self) -> bool {
        false
    }

    /// Hook called when contract is deployed. Unless a contract says
    /// otherwise, it does nothing.
    fn on_deploy(&self, state: &mut ContractState, init_data: &[u8]) -> (r: ContractResult<()>)
        ensures
            final(state).base_accounts() == old(state).base_accounts(),
            final(state).base_storage() == old(state).base_storage(),
    {
        Ok(())
    }
}

/// One registered contract, under the id that it gave at registration.
struct Registered<B> {
    id: Id,
    contract: B,
}

fn registered<B>(contract: B, id: Id) -> (r: Registered<B>)
    ensures
        r.id == id,
        r.contract == contract,
{
    Registered { id, contract }
}

fn unboxed<C: Contract + ?Sized>(boxed: &Box<C>) -> (r: &C)
    ensures
        r == &**boxed,
        r.contract_id() == boxed.contract_id(),
{
    &**boxed
}

fn push_back<T>(value: T, list: &mut Vec<T>)
    ensures
        final(list)@ == old(list)@.push(value),
{
    list.push(value);
}

fn put_at<T>(value: T, index: usize, list: &mut Vec<T>)
    requires
        index < old(list)@.len(),
    ensures
        final(list)@ == old(list)@.update(index as int, value),
{
    list[index] = value;
}

/// Registry of deployed contracts
pub struct ContractRegistry {
    contracts: Vec<Registered<Box<dyn Contract>>>,
}

spec fn registered_ids(contracts: Seq<Registered<Box<dyn Contract>>>) -> Seq<Id> {
    contracts.map_values(|r: Registered<Box<dyn Contract>>| r.id)
}

spec fn registered_contracts(contracts: Seq<Registered<Box<dyn Contract>>>) -> Seq<
    Box<dyn Contract>,
> {
    Seq::new(contracts.len(), |i: int| contracts[i].contract)
}

/// The contracts after one more registration: a contract whose id is in use
/// takes the place of the contract that held the id, and any other is put at
/// the end.
pub open spec fn with_registered<B>(contract: B, id: Id, ids: Seq<Id>, entries: Seq<B>) -> Seq<B> {
    if ids.contains(id) {
        entries.update(ids.index_of(id), contract)
    } else {
        entries.push(contract)
    }
}

/// The ids after one more registration: an id that is not yet in use is put
/// at the end.
pub open spec fn with_registered_id(ids: Seq<Id>, id: Id) -> Seq<Id> {
    if ids.contains(id) {
        ids
    } else {
        ids.push(id)
    }
}

/// The last registration wins, and no other is touched: after a contract
/// has been registered under an id, it is the contract found under that id;
/// the number of ids grows by one exactly where the id was not in use; and
/// under every other id the contract is found that was found before.
pub proof fn lemma_last_registration_wins<B>(contract: B, id: Id, ids: Seq<Id>, entries: Seq<B>)
    requires
        ids.no_duplicates(),
        ids.len() == entries.len(),
    ensures
        ({
            let ids_after = with_registered_id(ids, id);
            let after = with_registered(contract, id, ids, entries);
            &&& ids_after.no_duplicates()
            &&& ids_after.len() == after.len()
            &&& ids_after.contains(id)
            &&& after[ids_after.index_of(id)] == contract
            &&& ids_after.len() == if ids.contains(id) {
                ids.len()
            } else {
                ids.len() + 1
            }
            &&& forall|other: Id|
                other != id ==> (#[trigger] ids_after.contains(other) == ids.contains(other))
            &&& forall|other: Id|
                other != id && #[trigger] ids.contains(other) ==> after[ids_after.index_of(other)]
                    == entries[ids.index_of(other)]
        }),
{
    let ids_after = with_registered_id(ids, id);
    let after = with_registered(contract, id, ids, entries);
    if ids.contains(id) {
        let k = ids.index_of(id);
        assert forall|other: Id| other != id && #[trigger] ids.contains(other) implies after[ids_after.index_of(
            other,
        )] == entries[ids.index_of(other)] by {
            let j = ids.index_of(other);
            assert(j != k);
        }
    } else {
        assert(ids_after[ids.len() as int] == id);
        assert forall|i: int, j: int|
            0 <= i < ids_after.len() && 0 <= j < ids_after.len() && i != j implies ids_after[i]
            != ids_after[j] by {
            if i == ids.len() {
                assert(ids[j] == ids_after[j]);
            } else if j == ids.len() {
                assert(ids[i] == ids_after[i]);
            }
        }
        assert(ids_after.index_of(id) == ids.len() as int);
        assert forall|other: Id| other != id implies (#[trigger] ids_after.contains(other)
            == ids.contains(other)) by {
            if ids.contains(other) {
                let j = ids.index_of(other);
                assert(ids_after[j] == other);
            }
            if ids_after.contains(other) {
                let j = ids_after.index_of(other);
                assert(j < ids.len());
                assert(ids[j] == other);
            }
        }
        assert forall|other: Id| other != id && #[trigger] ids.contains(other) implies after[ids_after.index_of(
            other,
        )] == entries[ids.index_of(other)] by {
            let j = ids.index_of(other);
            assert(ids_after[j] == other);
            assert(ids_after.index_of(other) == j);
        }
    }
}

/// Where every contract gives the id that it is registered under, the
/// contracts stand at the places of their ids.
proof fn lemma_aligned(contracts: Seq<Registered<Box<dyn Contract>>>)
    requires
        forall|i: int|
            0 <= i < contracts.len() ==> (#[trigger] contracts[i]).contract.contract_id()
                == contracts[i].id,
    ensures
        registered_contracts(contracts).len() == registered_ids(contracts).len(),
        forall|i: int|
            0 <= i < contracts.len() ==> (#[trigger] registered_contracts(
                contracts,
            )[i]).contract_id() == registered_ids(contracts)[i],
{
    assert forall|i: int| 0 <= i < contracts.len() implies (#[trigger] registered_contracts(
        contracts,
    )[i]).contract_id() == registered_ids(contracts)[i] by {
        assert(contracts[i].contract.contract_id() == contracts[i].id);
    }
}

impl ContractRegistry {
    /// The ids of the registered contracts, in the order of their first
    /// registration.
    pub closed spec fn ids(&self) -> Seq<Id> {
        registered_ids(self.contracts@)
    }

    /// The registered contracts, in the order of `ids`: every contract
    /// stands at the place of its id.
    pub closed spec fn entries(&self) -> Seq<Box<dyn Contract>> {
        registered_contracts(self.contracts@)
    }

    /// Whether every id is in use once and every contract stands at the
    /// place of the id that it gives. This holds of every registry.
    pub open spec fn aligned(&self) -> bool {
        &&& self.ids().no_duplicates()
        &&& self.entries().len() == self.ids().len()
        &&& forall|i: int|
            0 <= i < self.ids().len() ==> (#[trigger] self.entries()[i]).contract_id()
                == self.ids()[i]
    }

    #[verifier::type_invariant]
    spec fn well_formed(self) -> bool {
        &&& registered_ids(self.contracts@).no_duplicates()
        &&& forall|i: int|
            0 <= i < self.contracts@.len() ==> (#[trigger] self.contracts@[i]).contract.contract_id()
                == self.contracts@[i].id
    }

    /// Create new empty registry
    pub fn new() -> (r: Self)
        ensures
            r.ids() == Seq::<Id>::empty(),
            r.entries() == Seq::<Box<dyn Contract>>::empty(),
    {
        let r = ContractRegistry { contracts: Vec::new() };
        assert(r.ids() =~= Seq::<Id>::empty());
        assert(r.entries() =~= Seq::<Box<dyn Contract>>::empty());
        r
    }

    fn find(&self, id: &Id) -> (r: Option<usize>)
        ensures
            match r {
                Some(i) => i < self.contracts@.len() && self.contracts@[i as int].id == *id,
                None => !registered_ids(self.contracts@).contains(*id),
            },
    {
        let mut i: usize = 0;
        while i < self.contracts.len()
            invariant
                0 <= i <= self.contracts@.len(),
                forall|j: int| 0 <= j < i ==> self.contracts@[j].id != *id,
            decreases self.contracts@.len() - i,
        {
            if self.contracts[i].id == *id {
                return Some(i);
            }
            i += 1;
        }
        None
    }

    /// Register the contract that a slot holds under its id, and leave the
    /// slot empty. A contract that is registered under an id already in use
    /// takes the earlier one's place. An empty slot changes nothing.
    ///
    /// This is `register` for a caller that holds the contract as a trait
    /// object and wants to know afterwards what was registered.
    pub fn register_from(&mut self, slot: &mut Option<Box<dyn Contract>>)
        ensures
            *final(slot) is None,
            final(self).aligned(),
            match *old(slot) {
                Some(contract) => {
                    &&& final(self).ids() == with_registered_id(
                        old(self).ids(),
                        contract.contract_id(),
                    )
                    &&& final(self).entries() == with_registered(
                        contract,
                        contract.contract_id(),
                        old(self).ids(),
                        old(self).entries(),
                    )
                    &&& final(self).ids().contains(contract.contract_id())
                    &&& final(self).entries()[final(self).ids().index_of(contract.contract_id())]
                        == contract
                },
                None => final(self).ids() == old(self).ids() && final(self).entries() == old(
                    self,
                ).entries(),
            },
    {
        proof {
            use_type_invariant(&*self);
        }
        proof {
            use_type_invariant(&*self);
            lemma_aligned(self.contracts@);
        }
        let mut taken = None;
        std::mem::swap(slot, &mut taken);
        let contract = match taken {
            Some(c) => c,
            None => {
                return ;
            },
        };
        let id = contract.id();
        let found = self.find(&id);
        let mut contracts = Vec::new();
        std::mem::swap(&mut self.contracts, &mut contracts);
        let ghost before = contracts@;
        let entry = registered(contract, id);
        match found {
            Some(i) => {
                put_at(entry, i, &mut contracts);
                assert(registered_ids(contracts@) =~= registered_ids(before));
                assert(registered_ids(before)[i as int] == id);
                assert(registered_ids(before).index_of(id) == i as int);
                let ghost expected = with_registered(
                    contract,
                    id,
                    registered_ids(before),
                    registered_contracts(before),
                );
                assert(registered_ids(before).contains(id));
                assert(expected.len() == before.len());
                assert(contracts@[i as int].contract == contract);
                assert(expected[i as int] == contract);
                assert forall|j: int| 0 <= j < before.len() implies registered_contracts(
                    contracts@,
                )[j] == expected[j] by {
                    if j != i as int {
                        assert(contracts@[j] == before[j]);
                    }
                }
                assert(registered_contracts(contracts@) =~= expected);
            },
            None => {
                push_back(entry, &mut contracts);
                assert(registered_ids(contracts@) =~= registered_ids(before).push(id));
                assert(registered_ids(contracts@)[before.len() as int] == id);
                let ghost expected = with_registered(
                    contract,
                    id,
                    registered_ids(before),
                    registered_contracts(before),
                );
                assert(expected.len() == before.len() + 1);
                assert(contracts@[before.len() as int].contract == contract);
                assert(expected[before.len() as int] == contract);
                assert forall|j: int| 0 <= j < before.len() + 1 implies registered_contracts(
                    contracts@,
                )[j] == expected[j] by {
                    if j < before.len() {
                        assert(contracts@[j] == before[j]);
                    }
                }
                assert(registered_contracts(contracts@) =~= expected);
                assert(registered_ids(contracts@).index_of(id) == before.len() as int);
            },
        }
        assert forall|j: int| 0 <= j < contracts@.len() implies (#[trigger] contracts@[j]).contract.contract_id()
            == contracts@[j].id by {
            if found.is_some() && j == found.unwrap() as int {
            } else if j >= before.len() {
            } else {
                assert(contracts@[j] == before[j]);
            }
        }
        assert(registered_contracts(contracts@)[registered_ids(contracts@).index_of(id)]
            == contract);
        self.contracts = contracts;
        proof {
            use_type_invariant(&*self);
            lemma_aligned(self.contracts@);
        }
    }

    /// Register a contract under its id. A contract that is registered under
    /// an id already in use takes the earlier one's place: the last
    /// registration wins.
    ///
    /// What is said here of the contract reaches a verified caller that
    /// passes a contract of a concrete type. A verified caller that holds
    /// the contract as a trait object uses `register_from`, which says the
    /// same of what the slot held.
    pub fn register(&mut self, contract: Box<dyn Contract>)
        ensures
            final(self).aligned(),
            final(self).ids() == with_registered_id(old(self).ids(), contract.contract_id()),
            final(self).entries() == with_registered(
                contract,
                contract.contract_id(),
                old(self).ids(),
                old(self).entries(),
            ),
            final(self).ids().contains(contract.contract_id()),
            final(self).entries()[final(self).ids().index_of(contract.contract_id())] == contract,
            final(self).ids().len() > 0,
            final(self).ids() == old(self).ids() || exists|id: Id|
                final(self).ids() == old(self).ids().push(id),
    {
        let mut slot = Some(contract);
        self.register_from(&mut slot);
    }

    /// Get contract by ID: the contract that was registered last under the
    /// id, if the id is in use.
    pub fn get(&self, id: &Id) -> (r: Option<&dyn Contract>)
        ensures
            self.aligned(),
            r.is_some() == self.ids().contains(*id),
            r matches Some(c) ==> c == &*self.entries()[self.ids().index_of(*id)]
                && c.contract_id() == *id,
    {
        proof {
            use_type_invariant(self);
        }
        proof {
            use_type_invariant(&*self);
            lemma_aligned(self.contracts@);
        }
        match self.find(id) {
            Some(i) => {
                assert(registered_ids(self.contracts@)[i as int] == *id);
                assert(registered_ids(self.contracts@).index_of(*id) == i as int);
                assert(self.contracts@[i as int].contract.contract_id() == self.contracts@[i as int].id);
                let contract = unboxed(&self.contracts[i].contract);
                let found = Some(contract);
                found
            },
            None => None,
        }
    }

    /// Check if contract exists
    pub fn contains(&self, id: &Id) -> (r: bool)
        ensures
            self.aligned(),
            r == self.ids().contains(*id),
    {
        proof {
            use_type_invariant(&*self);
            lemma_aligned(self.contracts@);
        }
        match self.find(id) {
            Some(i) => {
                assert(registered_ids(self.contracts@)[i as int] == *id);
                true
            },
            None => false,
        }
    }

    /// List all contract IDs
    pub fn list(&self) -> (r: Vec<Id>)
        ensures
            self.aligned(),
            r@ == self.ids(),
            r@.no_duplicates(),
    {
        proof {
            use_type_invariant(&*self);
            lemma_aligned(self.contracts@);
        }
        proof {
            use_type_invariant(self);
        }
        let mut out: Vec<Id> = Vec::new();
        let mut i: usize = 0;
        while i < self.contracts.len()
            invariant
                0 <= i <= self.contracts@.len(),
                out@ == registered_ids(self.contracts@).subrange(0, i as int),
            decreases self.contracts@.len() - i,
        {
            out.push(self.contracts[i].id);
            assert(out@ =~= registered_ids(self.contracts@).subrange(0, i as int + 1));
            i += 1;
        }
        assert(out@ =~= registered_ids(self.contracts@));
        out
    }

    /// Get number of registered contracts
    pub fn contract_count(&self) -> (r: usize)
        ensures
            self.aligned(),
            r == self.ids().len(),
    {
        proof {
            use_type_invariant(&*self);
            lemma_aligned(self.contracts@);
        }
        self.contracts.len()
    }

    /// Get contract by ID (alternative name for get)
    pub fn get_contract(&self, id: &Id) -> (r: Option<&dyn Contract>)
        ensures
            r.is_some() == self.ids().contains(*id),
            r matches Some(c) ==> c.contract_id() == *id,
    {
        self.get(id)
    }
}

impl Default for ContractRegistry {
    fn default() -> (r: Self)
        ensures
            r.ids() == Seq::<Id>::empty(),
    {
        Self::new()
    }
}

} // verus!
