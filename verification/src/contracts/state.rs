//! Contract state interface: controlled access to chain state.
//!
//! Contracts interact with the chain through a [`ContractState`], which
//! - reads and changes account balances,
//! - reads and writes contract storage,
//! - journals every mutation, so that an attempt can be committed or rolled
//!   back as a whole.
//!
//! What each operation does is stated over the [`Journal`] of the accessor.
//! The accessor also remembers the ledger and the store that its log leads
//! back to: its base. Only a commit moves the base.

use vstd::prelude::*;

use super::journal::{
    lemma_credit_leads_back, lemma_debit_leads_back, lemma_delete_leads_back,
    keeps_nonces, lemma_write_leads_back, undo, undo_all, Journal, Mutation,
};
use super::root::{ledger_state_root, state_root_of};
use super::{event_views, ContractError, ContractEvent};
use crate::encoding::copy_bytes;
use crate::state::account::{account_of, AccountState, Ledger};
use crate::state::storage::{CellKey, ContractStorage};
use crate::types::address::Address;
use crate::types::amount::HclawAmount;

verus! {

/// A state mutation that can be rolled back
enum StateMutation {
    /// Account balance credit
    Credit { address: Address, amount: HclawAmount, created: bool },
    /// Account balance debit
    Debit { address: Address, amount: HclawAmount, created: bool },
    /// Storage write
    StorageWrite { contract: Address, key: Vec<u8>, old_value: Option<Vec<u8>>, new_value: Vec<u8> },
}

impl StateMutation {
    spec fn plain(self) -> Mutation {
        match self {
            StateMutation::Credit { address, amount, created } => Mutation::Credit {
                address,
                amount: amount.0,
                created,
            },
            StateMutation::Debit { address, amount, created } => Mutation::Debit {
                address,
                amount: amount.0,
                created,
            },
            StateMutation::StorageWrite {
                contract,
                key,
                old_value,
                new_value,
            } => Mutation::StorageWrite {
                contract,
                key: key@,
                old_value: match old_value {
                    Some(v) => Some(v@),
                    None => None,
                },
                new_value: new_value@,
            },
        }
    }
}

spec fn plain_log(mutations: Seq<StateMutation>) -> Seq<Mutation> {
    mutations.map_values(|m: StateMutation| m.plain())
}

struct Inner {
    accounts: Ledger,
    storage: ContractStorage,
    mutations: Vec<StateMutation>,
    events: Vec<ContractEvent>,
    base_accounts: Ghost<Map<Address, AccountState>>,
    base_storage: Ghost<Map<CellKey, Seq<u8>>>,
}

impl Inner {
    spec fn journal(self) -> Journal {
        Journal {
            accounts: self.accounts@,
            storage: self.storage@,
            log: plain_log(self.mutations@),
            events: event_views(self.events@),
        }
    }

    spec fn wf(self) -> bool {
        &&& self.journal().leads_back_to(self.base_accounts@, self.base_storage@)
        &&& keeps_nonces(self.accounts@, self.base_accounts@)
    }

    fn open(accounts: Ledger, storage: ContractStorage) -> (r: Inner)
        ensures
            r.wf(),
            r.journal() == Journal::fresh(accounts@, storage@),
            r.base_accounts@ == accounts@,
            r.base_storage@ == storage@,
    {
        let ghost a = accounts@;
        let ghost s = storage@;
        let r = Inner {
            accounts,
            storage,
            mutations: Vec::new(),
            events: Vec::new(),
            base_accounts: Ghost(a),
            base_storage: Ghost(s),
        };
        assert(r.journal().log =~= Seq::<Mutation>::empty());
        assert(r.journal().events =~= Seq::<super::EventView>::empty());
        r
    }

    fn hollow() -> (r: Inner)
        ensures
            r.wf(),
    {
        Inner::open(Ledger::new(), ContractStorage::new())
    }

    fn log(&mut self, mutation: StateMutation)
        ensures
            final(self).accounts == old(self).accounts,
            final(self).storage == old(self).storage,
            final(self).events == old(self).events,
            final(self).base_accounts == old(self).base_accounts,
            final(self).base_storage == old(self).base_storage,
            plain_log(final(self).mutations@) == plain_log(old(self).mutations@).push(
                mutation.plain(),
            ),
    {
        let ghost before = plain_log(self.mutations@);
        self.mutations.push(mutation);
        assert(plain_log(self.mutations@) =~= before.push(mutation.plain()));
    }

    fn account(&self, address: &Address) -> (r: AccountState)
        ensures
            r == account_of(self.accounts@, *address),
    {
        match self.accounts.get(address) {
            Some(a) => *a,
            None => AccountState::default(),
        }
    }

    fn credit(&mut self, address: Address, amount: HclawAmount)
        requires
            old(self).wf(),
        ensures
            final(self).wf(),
            final(self).journal() == old(self).journal().credit(address, amount.0),
            final(self).base_accounts == old(self).base_accounts,
            final(self).base_storage == old(self).base_storage,
    {
        proof {
            lemma_credit_leads_back(
                self.journal(),
                address,
                amount.0,
                self.base_accounts@,
                self.base_storage@,
            );
        }
        let created = !self.accounts.contains_key(&address);
        let mut account = self.account(&address);
        let before = account.balance;
        account.credit(amount);
        let risen = HclawAmount(account.balance.0 - before.0);
        self.accounts.insert(address, account);
        self.log(StateMutation::Credit { address, amount: risen, created });
    }

    fn debit(&mut self, address: Address, amount: HclawAmount) -> (r: Result<(), ContractError>)
        requires
            old(self).wf(),
        ensures
            final(self).wf(),
            final(self).base_accounts == old(self).base_accounts,
            final(self).base_storage == old(self).base_storage,
            old(self).journal().can_debit(address, amount.0) ==> r.is_ok() && final(self).journal()
                == old(self).journal().debit(address, amount.0),
            !old(self).journal().can_debit(address, amount.0) ==> final(self).journal() == old(
                self,
            ).journal() && r == Err::<(), ContractError>(
                ContractError::InsufficientBalance {
                    need: amount,
                    have: HclawAmount(old(self).journal().available(address)),
                },
            ),
    {
        let mut account = self.account(&address);
        let have = account.available_balance();
        if have.0 < amount.0 {
            return Err(ContractError::InsufficientBalance { need: amount, have });
        }
        proof {
            lemma_debit_leads_back(
                self.journal(),
                address,
                amount.0,
                self.base_accounts@,
                self.base_storage@,
            );
        }
        let created = !self.accounts.contains_key(&address);
        account.balance = HclawAmount(account.balance.0 - amount.0);
        self.accounts.insert(address, account);
        self.log(StateMutation::Debit { address, amount, created });
        Ok(())
    }

    fn storage_write(&mut self, contract: Address, key: Vec<u8>, value: Vec<u8>)
        requires
            old(self).wf(),
        ensures
            final(self).wf(),
            final(self).journal() == old(self).journal().storage_write(contract, key@, value@),
            final(self).base_accounts == old(self).base_accounts,
            final(self).base_storage == old(self).base_storage,
    {
        proof {
            lemma_write_leads_back(
                self.journal(),
                contract,
                key@,
                value@,
                self.base_accounts@,
                self.base_storage@,
            );
        }
        let old_value = self.storage.get(&contract, key.as_slice());
        let key_copy = copy_bytes(key.as_slice());
        let value_copy = copy_bytes(value.as_slice());
        self.storage.insert(contract, key_copy, value_copy);
        self.log(StateMutation::StorageWrite { contract, key, old_value, new_value: value });
    }

    fn storage_delete(&mut self, contract: Address, key: Vec<u8>)
        requires
            old(self).wf(),
        ensures
            final(self).wf(),
            final(self).journal() == old(self).journal().storage_delete(contract, key@),
            final(self).base_accounts == old(self).base_accounts,
            final(self).base_storage == old(self).base_storage,
    {
        proof {
            lemma_delete_leads_back(
                self.journal(),
                contract,
                key@,
                self.base_accounts@,
                self.base_storage@,
            );
        }
        let removed = self.storage.remove(&contract, key.as_slice());
        match removed {
            Some(old) => {
                self.log(
                    StateMutation::StorageWrite {
                        contract,
                        key,
                        old_value: Some(old),
                        new_value: Vec::new(),
                    },
                );
            },
            None => {
                assert(self.storage@ =~= old(self).storage@);
            },
        }
    }

    fn emit(&mut self, event: ContractEvent)
        requires
            old(self).wf(),
        ensures
            final(self).wf(),
            final(self).journal() == old(self).journal().emit(event@),
            final(self).base_accounts == old(self).base_accounts,
            final(self).base_storage == old(self).base_storage,
    {
        let ghost before = event_views(self.events@);
        self.events.push(event);
        assert(event_views(self.events@) =~= before.push(event@));
    }

    fn commit(&mut self)
        ensures
            final(self).wf(),
            final(self).journal() == old(self).journal().commit(),
            final(self).base_accounts@ == old(self).accounts@,
            final(self).base_storage@ == old(self).storage@,
    {
        self.mutations.clear();
        self.base_accounts = Ghost(self.accounts@);
        self.base_storage = Ghost(self.storage@);
        assert(plain_log(self.mutations@) =~= Seq::<Mutation>::empty());
    }

    fn undo_one(&mut self, mutation: StateMutation)
        ensures
            (final(self).accounts@, final(self).storage@) == undo(
                old(self).accounts@,
                old(self).storage@,
                mutation.plain(),
            ),
            final(self).mutations == old(self).mutations,
            final(self).events == old(self).events,
            final(self).base_accounts == old(self).base_accounts,
            final(self).base_storage == old(self).base_storage,
    {
        match mutation {
            StateMutation::Credit { address, amount, created } => {
                if created {
                    let _ = self.accounts.remove(&address);
                } else {
                    let mut account = self.account(&address);
                    account.balance = account.balance.saturating_sub(amount);
                    self.accounts.insert(address, account);
                }
            },
            StateMutation::Debit { address, amount, created } => {
                if created {
                    let _ = self.accounts.remove(&address);
                } else {
                    let mut account = self.account(&address);
                    account.balance = account.balance.saturating_add(amount);
                    self.accounts.insert(address, account);
                }
            },
            StateMutation::StorageWrite { contract, key, old_value, new_value } => {
                match old_value {
                    Some(old) => {
                        self.storage.insert(contract, key, old);
                    },
                    None => {
                        let _ = self.storage.remove(&contract, key.as_slice());
                    },
                }
            },
        }
    }

    fn rollback(&mut self)
        requires
            old(self).wf(),
        ensures
            final(self).wf(),
            final(self).journal() == old(self).journal().rollback(),
            final(self).base_accounts == old(self).base_accounts,
            final(self).base_storage == old(self).base_storage,
            final(self).accounts@ == old(self).base_accounts@,
            final(self).storage@ == old(self).base_storage@,
    {
        let ghost target = undo_all(self.accounts@, self.storage@, plain_log(self.mutations@));
        while self.mutations.len() > 0
            invariant
                undo_all(self.accounts@, self.storage@, plain_log(self.mutations@)) == target,
                self.base_accounts == old(self).base_accounts,
                self.base_storage == old(self).base_storage,
            decreases self.mutations@.len(),
        {
            let ghost log = plain_log(self.mutations@);
            let last = self.mutations.pop().unwrap();
            assert(plain_log(self.mutations@) =~= log.drop_last());
            assert(last.plain() == log.last());
            self.undo_one(last);
        }
        self.events.clear();
        assert(plain_log(self.mutations@) =~= Seq::<Mutation>::empty());
        assert(event_views(self.events@) =~= Seq::<super::EventView>::empty());
    }
}

/// State interface for contract execution.
///
/// It holds the ledger and the store for the length of one attempt and hands
/// them back through [`ContractState::into_parts`].
pub struct ContractState {
    inner: Inner,
}

impl ContractState {
    /// The state of the accessor: ledger, store, log and events.
    pub closed spec fn journal(&self) -> Journal {
        self.inner.journal()
    }

    /// The ledger that rolling back leads to, record for record.
    pub closed spec fn base_accounts(&self) -> Map<Address, AccountState> {
        self.inner.base_accounts@
    }

    /// The store that rolling back leads to.
    pub closed spec fn base_storage(&self) -> Map<CellKey, Seq<u8>> {
        self.inner.base_storage@
    }

    #[verifier::type_invariant]
    spec fn consistent(self) -> bool {
        self.inner.wf()
    }

    /// Open an accessor over a ledger and a store.
    pub fn new(accounts: Ledger, storage: ContractStorage) -> (r: Self)
        ensures
            r.journal() == Journal::fresh(accounts@, storage@),
            r.base_accounts() == accounts@,
            r.base_storage() == storage@,
    {
        ContractState { inner: Inner::open(accounts, storage) }
    }

    /// Close the accessor and hand the ledger and the store back as they
    /// stand. The log always leads back from them to the base.
    pub fn into_parts(self) -> (r: (Ledger, ContractStorage))
        ensures
            r.0@ == self.journal().accounts,
            r.1@ == self.journal().storage,
            self.journal().leads_back_to(self.base_accounts(), self.base_storage()),
    {
        proof {
            use_type_invariant(&self);
        }
        (self.inner.accounts, self.inner.storage)
    }

    /// Get account balance
    pub fn balance(&self, address: &Address) -> (r: HclawAmount)
        ensures
            r.0 == self.journal().balance(*address),
    {
        self.inner.account(address).balance
    }

    /// Get available balance (not staked)
    pub fn available_balance(&self, address: &Address) -> (r: HclawAmount)
        ensures
            r.0 == self.journal().available(*address),
    {
        self.inner.account(address).available_balance()
    }

    /// The record of an account; an address without an entry reads as an
    /// untouched account.
    pub fn account(&self, address: &Address) -> (r: AccountState)
        ensures
            r == account_of(self.journal().accounts, *address),
    {
        self.inner.account(address)
    }

    /// Credit an account. Always succeeds, and journals the credit.
    pub fn credit(&mut self, address: Address, amount: HclawAmount)
        ensures
            final(self).journal() == old(self).journal().credit(address, amount.0),
            final(self).base_accounts() == old(self).base_accounts(),
            final(self).base_storage() == old(self).base_storage(),
    {
        proof {
            use_type_invariant(&*self);
        }
        let mut inner = Inner::hollow();
        std::mem::swap(&mut self.inner, &mut inner);
        inner.credit(address, amount);
        self.inner = inner;
    }

    /// Debit an account.
    ///
    /// Fails with `InsufficientBalance` and changes nothing where the
    /// available balance is short; otherwise lowers the balance and journals
    /// the debit.
    pub fn debit(&mut self, address: Address, amount: HclawAmount) -> (r: Result<
        (),
        ContractError,
    >)
        ensures
            final(self).base_accounts() == old(self).base_accounts(),
            final(self).base_storage() == old(self).base_storage(),
            old(self).journal().can_debit(address, amount.0) ==> r.is_ok() && final(self).journal()
                == old(self).journal().debit(address, amount.0),
            !old(self).journal().can_debit(address, amount.0) ==> final(self).journal() == old(
                self,
            ).journal() && r == Err::<(), ContractError>(
                ContractError::InsufficientBalance {
                    need: amount,
                    have: HclawAmount(old(self).journal().available(address)),
                },
            ),
    {
        proof {
            use_type_invariant(&*self);
        }
        let mut inner = Inner::hollow();
        std::mem::swap(&mut self.inner, &mut inner);
        let r = inner.debit(address, amount);
        self.inner = inner;
        r
    }

    /// Transfer tokens between accounts: a debit, then a credit. Where the
    /// debit fails, nothing is credited and nothing changes.
    pub fn transfer(&mut self, from: Address, to: Address, amount: HclawAmount) -> (r: Result<
        (),
        ContractError,
    >)
        ensures
            final(self).base_accounts() == old(self).base_accounts(),
            final(self).base_storage() == old(self).base_storage(),
            old(self).journal().can_debit(from, amount.0) ==> r.is_ok() && final(self).journal()
                == old(self).journal().transfer(from, to, amount.0),
            !old(self).journal().can_debit(from, amount.0) ==> final(self).journal() == old(
                self,
            ).journal() && r == Err::<(), ContractError>(
                ContractError::InsufficientBalance {
                    need: amount,
                    have: HclawAmount(old(self).journal().available(from)),
                },
            ),
    {
        match self.debit(from, amount) {
            Ok(()) => {
                self.credit(to, amount);
                Ok(())
            },
            Err(e) => Err(e),
        }
    }

    /// Read from contract storage
    pub fn storage_read(&self, contract: &Address, key: &[u8]) -> (r: Option<Vec<u8>>)
        ensures
            match r {
                Some(value) => self.journal().read(*contract, key@) == Some(value@),
                None => self.journal().read(*contract, key@).is_none(),
            },
    {
        self.inner.storage.get(contract, key)
    }

    /// Write to contract storage, journalling the value that was there.
    pub fn storage_write(&mut self, contract: Address, key: Vec<u8>, value: Vec<u8>)
        ensures
            final(self).journal() == old(self).journal().storage_write(contract, key@, value@),
            final(self).base_accounts() == old(self).base_accounts(),
            final(self).base_storage() == old(self).base_storage(),
    {
        proof {
            use_type_invariant(&*self);
        }
        let mut inner = Inner::hollow();
        std::mem::swap(&mut self.inner, &mut inner);
        inner.storage_write(contract, key, value);
        self.inner = inner;
    }

    /// Delete from contract storage, journalling the value that was there.
    pub fn storage_delete(&mut self, contract: Address, key: Vec<u8>)
        ensures
            final(self).journal() == old(self).journal().storage_delete(contract, key@),
            final(self).base_accounts() == old(self).base_accounts(),
            final(self).base_storage() == old(self).base_storage(),
    {
        proof {
            use_type_invariant(&*self);
        }
        let mut inner = Inner::hollow();
        std::mem::swap(&mut self.inner, &mut inner);
        inner.storage_delete(contract, key);
        self.inner = inner;
    }

    /// Emit an event. Ledger, store and log are untouched.
    pub fn emit_event(&mut self, event: ContractEvent)
        ensures
            final(self).journal() == old(self).journal().emit(event@),
            final(self).base_accounts() == old(self).base_accounts(),
            final(self).base_storage() == old(self).base_storage(),
    {
        proof {
            use_type_invariant(&*self);
        }
        let mut inner = Inner::hollow();
        std::mem::swap(&mut self.inner, &mut inner);
        inner.emit(event);
        self.inner = inner;
    }

    /// Get all emitted events
    pub fn events(&self) -> (r: &[ContractEvent])
        ensures
            event_views(r@) == self.journal().events,
    {
        self.inner.events.as_slice()
    }

    /// Commit all pending mutations.
    ///
    /// The mutations were applied as they were made; a commit clears the log,
    /// so that they can no longer be rolled back, and makes the ledger and
    /// the store as they stand the new base.
    pub fn commit(&mut self)
        ensures
            final(self).journal() == old(self).journal().commit(),
            final(self).base_accounts() == old(self).journal().accounts,
            final(self).base_storage() == old(self).journal().storage,
    {
        let mut inner = Inner::hollow();
        std::mem::swap(&mut self.inner, &mut inner);
        inner.commit();
        self.inner = inner;
    }

    /// Rollback all pending mutations.
    ///
    /// Replays the log in reverse and clears the events. Afterwards the
    /// ledger and the store are exactly the base.
    pub fn rollback(&mut self)
        ensures
            final(self).journal() == old(self).journal().rollback(),
            final(self).base_accounts() == old(self).base_accounts(),
            final(self).base_storage() == old(self).base_storage(),
            final(self).journal().accounts == old(self).base_accounts(),
            final(self).journal().storage == old(self).base_storage(),
    {
        proof {
            use_type_invariant(&*self);
        }
        let mut inner = Inner::hollow();
        std::mem::swap(&mut self.inner, &mut inner);
        inner.rollback();
        self.inner = inner;
    }

    /// Compute the state root: the Merkle root over the sorted leaf digests
    /// of all accounts. It depends on the ledger's contents alone.
    pub fn compute_state_root(&self) -> (root: crate::crypto::hash::Hash)
        ensures
            root == state_root_of(self.journal().accounts),
            keeps_nonces(self.journal().accounts, self.base_accounts()),
    {
        proof {
            use_type_invariant(self);
        }
        ledger_state_root(&self.inner.accounts)
    }
}

} // verus!
