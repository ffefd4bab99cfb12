//! The mathematical model of the state accessor.
//!
//! A [`Journal`] is the ledger and the store as they stand, together with the
//! log of mutations that led there and the events emitted so far. Every
//! operation of the accessor is a function on journals, and rolling back is
//! replaying the log in reverse.

use vstd::prelude::*;

use super::EventView;
use crate::state::account::{account_of, available_of, AccountState};
use crate::state::storage::CellKey;
use crate::types::address::Address;
use crate::types::amount::HclawAmount;

verus! {

/// One journalled mutation.
pub enum Mutation {
    /// The balance of `address` rose by `amount`
    Credit {
        /// Account address
        address: Address,
        /// Amount by which the balance rose
        amount: u128,
        /// Whether the account had no entry in the ledger before
        created: bool,
    },
    /// The balance of `address` fell by `amount`
    Debit {
        /// Account address
        address: Address,
        /// Amount by which the balance fell
        amount: u128,
        /// Whether the account had no entry in the ledger before
        created: bool,
    },
    /// A storage cell was written or deleted
    StorageWrite {
        /// Contract address
        contract: Address,
        /// Storage key
        key: Seq<u8>,
        /// Value before the write, if there was one
        old_value: Option<Seq<u8>>,
        /// Value after the write
        new_value: Seq<u8>,
    },
}

/// One operation that a contract may ask of the accessor.
pub enum Operation {
    /// Credit an account
    Credit {
        /// Account address
        address: Address,
        /// Amount to add
        amount: u128,
    },
    /// Debit an account; refused, with no effect, where funds are short
    Debit {
        /// Account address
        address: Address,
        /// Amount to take
        amount: u128,
    },
    /// Debit one account and credit another; refused, with no effect, where
    /// funds are short
    Transfer {
        /// Paying account
        from: Address,
        /// Receiving account
        to: Address,
        /// Amount to move
        amount: u128,
    },
    /// Write a storage cell
    Write {
        /// Contract address
        contract: Address,
        /// Storage key
        key: Seq<u8>,
        /// New value
        value: Seq<u8>,
    },
    /// Delete a storage cell
    Delete {
        /// Contract address
        contract: Address,
        /// Storage key
        key: Seq<u8>,
    },
    /// Emit an event
    Emit {
        /// The event
        event: EventView,
    },
}

/// `a + b`, capped at the largest 128-bit value.
pub open spec fn sat_add(a: u128, b: u128) -> u128 {
    if a + b > u128::MAX {
        u128::MAX
    } else {
        (a + b) as u128
    }
}

/// `a - b`, floored at zero.
pub open spec fn sat_sub(a: u128, b: u128) -> u128 {
    if a < b {
        0
    } else {
        (a - b) as u128
    }
}

/// Whether a ledger keeps the accounts of another with their nonces: every
/// account of `base` is in `accounts`, with the nonce that it has in `base`.
/// An accessor keeps the accounts of its base in this way, for credits and
/// debits change balances only.
pub open spec fn keeps_nonces(
    accounts: Map<Address, AccountState>,
    base: Map<Address, AccountState>,
) -> bool {
    forall|a: Address| #[trigger]
        base.dom().contains(a) ==> accounts.dom().contains(a) && accounts[a].nonce == base[a].nonce
}

/// An account record with another balance.
pub open spec fn with_balance(account: AccountState, balance: u128) -> AccountState {
    AccountState { balance: HclawAmount(balance), ..account }
}

/// The ledger and the store with one mutation undone: a credit is taken
/// back, a debit is given back, an account that the mutation created is
/// removed again, and a storage cell gets its earlier value back or, where
/// it had none, is removed.
pub open spec fn undo(
    accounts: Map<Address, AccountState>,
    storage: Map<CellKey, Seq<u8>>,
    mutation: Mutation,
) -> (Map<Address, AccountState>, Map<CellKey, Seq<u8>>) {
    match mutation {
        Mutation::Credit { address, amount, created } => {
            let account = account_of(accounts, address);
            if created {
                (accounts.remove(address), storage)
            } else {
                (
                    accounts.insert(
                        address,
                        with_balance(account, sat_sub(account.balance.0, amount)),
                    ),
                    storage,
                )
            }
        },
        Mutation::Debit { address, amount, created } => {
            let account = account_of(accounts, address);
            if created {
                (accounts.remove(address), storage)
            } else {
                (
                    accounts.insert(
                        address,
                        with_balance(account, sat_add(account.balance.0, amount)),
                    ),
                    storage,
                )
            }
        },
        Mutation::StorageWrite { contract, key, old_value, new_value } => match old_value {
            Some(old) => (accounts, storage.insert((contract, key), old)),
            None => (accounts, storage.remove((contract, key))),
        },
    }
}

/// The ledger and the store with a whole log undone, last mutation first.
pub open spec fn undo_all(
    accounts: Map<Address, AccountState>,
    storage: Map<CellKey, Seq<u8>>,
    log: Seq<Mutation>,
) -> (Map<Address, AccountState>, Map<CellKey, Seq<u8>>)
    decreases log.len(),
{
    if log.len() == 0 {
        (accounts, storage)
    } else {
        let (a, s) = undo(accounts, storage, log.last());
        undo_all(a, s, log.drop_last())
    }
}

/// The state of an accessor.
pub struct Journal {
    /// The ledger as it stands
    pub accounts: Map<Address, AccountState>,
    /// The store as it stands
    pub storage: Map<CellKey, Seq<u8>>,
    /// The mutations made since the accessor was opened or last committed
    pub log: Seq<Mutation>,
    /// The events emitted so far
    pub events: Seq<EventView>,
}

impl Journal {
    /// A freshly opened accessor over a ledger and a store.
    pub open spec fn fresh(
        accounts: Map<Address, AccountState>,
        storage: Map<CellKey, Seq<u8>>,
    ) -> Journal {
        Journal { accounts, storage, log: Seq::empty(), events: Seq::empty() }
    }

    /// The balance of an address.
    pub open spec fn balance(self, address: Address) -> u128 {
        account_of(self.accounts, address).balance.0
    }

    /// The unstaked balance of an address.
    pub open spec fn available(self, address: Address) -> u128 {
        available_of(self.accounts, address)
    }

    /// After a credit: the balance rises, stopping at the largest
    /// representable amount, and the log records by how much it rose and
    /// whether the account is new.
    pub open spec fn credit(self, address: Address, amount: u128) -> Journal {
        let account = account_of(self.accounts, address);
        let balance = sat_add(account.balance.0, amount);
        Journal {
            accounts: self.accounts.insert(address, with_balance(account, balance)),
            log: self.log.push(
                Mutation::Credit {
                    address,
                    amount: (balance - account.balance.0) as u128,
                    created: !self.accounts.dom().contains(address),
                },
            ),
            ..self
        }
    }

    /// Whether a debit is covered by the available balance.
    pub open spec fn can_debit(self, address: Address, amount: u128) -> bool {
        self.available(address) >= amount
    }

    /// After a debit that is covered.
    pub open spec fn debit(self, address: Address, amount: u128) -> Journal {
        let account = account_of(self.accounts, address);
        Journal {
            accounts: self.accounts.insert(
                address,
                with_balance(account, (account.balance.0 - amount) as u128),
            ),
            log: self.log.push(
                Mutation::Debit {
                    address,
                    amount,
                    created: !self.accounts.dom().contains(address),
                },
            ),
            ..self
        }
    }

    /// After a transfer that is covered: a debit, then a credit.
    pub open spec fn transfer(self, from: Address, to: Address, amount: u128) -> Journal {
        self.debit(from, amount).credit(to, amount)
    }

    /// The value of a storage cell, if it has one.
    pub open spec fn read(self, contract: Address, key: Seq<u8>) -> Option<Seq<u8>> {
        if self.storage.dom().contains((contract, key)) {
            Some(self.storage[(contract, key)])
        } else {
            None
        }
    }

    /// After a storage write: the log keeps the value that was there.
    pub open spec fn storage_write(self, contract: Address, key: Seq<u8>, value: Seq<u8>) -> Journal {
        Journal {
            storage: self.storage.insert((contract, key), value),
            log: self.log.push(
                Mutation::StorageWrite {
                    contract,
                    key,
                    old_value: self.read(contract, key),
                    new_value: value,
                },
            ),
            ..self
        }
    }

    /// After a storage delete: a cell that exists is removed and the log
    /// keeps its value; a cell that does not exist leaves no trace.
    pub open spec fn storage_delete(self, contract: Address, key: Seq<u8>) -> Journal {
        if self.storage.dom().contains((contract, key)) {
            Journal {
                storage: self.storage.remove((contract, key)),
                log: self.log.push(
                    Mutation::StorageWrite {
                        contract,
                        key,
                        old_value: Some(self.storage[(contract, key)]),
                        new_value: Seq::empty(),
                    },
                ),
                ..self
            }
        } else {
            self
        }
    }

    /// After an event is emitted: ledger, store and log are untouched.
    pub open spec fn emit(self, event: EventView) -> Journal {
        Journal { events: self.events.push(event), ..self }
    }

    /// After a commit: the log is cleared, nothing else changes.
    pub open spec fn commit(self) -> Journal {
        Journal { log: Seq::empty(), ..self }
    }

    /// After a rollback: the log is undone in reverse, and log and events
    /// are cleared.
    pub open spec fn rollback(self) -> Journal {
        let (accounts, storage) = undo_all(self.accounts, self.storage, self.log);
        Journal { accounts, storage, log: Seq::empty(), events: Seq::empty() }
    }

    /// After one operation. A debit or transfer that is not covered has no
    /// effect.
    pub open spec fn apply(self, operation: Operation) -> Journal {
        match operation {
            Operation::Credit { address, amount } => self.credit(address, amount),
            Operation::Debit { address, amount } => if self.can_debit(address, amount) {
                self.debit(address, amount)
            } else {
                self
            },
            Operation::Transfer { from, to, amount } => if self.can_debit(from, amount) {
                self.transfer(from, to, amount)
            } else {
                self
            },
            Operation::Write { contract, key, value } => self.storage_write(contract, key, value),
            Operation::Delete { contract, key } => self.storage_delete(contract, key),
            Operation::Emit { event } => self.emit(event),
        }
    }

    /// After a sequence of operations, first to last.
    pub open spec fn apply_all(self, operations: Seq<Operation>) -> Journal
        decreases operations.len(),
    {
        if operations.len() == 0 {
            self
        } else {
            self.apply_all(operations.drop_last()).apply(operations.last())
        }
    }

    /// Whether undoing the log leads back to a given ledger and store.
    pub open spec fn leads_back_to(
        self,
        accounts: Map<Address, AccountState>,
        storage: Map<CellKey, Seq<u8>>,
    ) -> bool {
        undo_all(self.accounts, self.storage, self.log) == (accounts, storage)
    }
}

/// A journal that leads back to a base still does so after one more logged
/// step, provided that undoing the step gives the earlier ledger and the
/// earlier store.
proof fn lemma_step_leads_back(
    before: Journal,
    after: Journal,
    mutation: Mutation,
    accounts: Map<Address, AccountState>,
    storage: Map<CellKey, Seq<u8>>,
)
    requires
        before.leads_back_to(accounts, storage),
        after.log == before.log.push(mutation),
        undo(after.accounts, after.storage, mutation) == (before.accounts, before.storage),
    ensures
        after.leads_back_to(accounts, storage),
{
    assert(after.log.last() == mutation);
    assert(after.log.drop_last() =~= before.log);
}

/// A credit keeps the way back.
pub proof fn lemma_credit_leads_back(
    journal: Journal,
    address: Address,
    amount: u128,
    accounts: Map<Address, AccountState>,
    storage: Map<CellKey, Seq<u8>>,
)
    requires
        journal.leads_back_to(accounts, storage),
    ensures
        journal.credit(address, amount).leads_back_to(accounts, storage),
{
    let after = journal.credit(address, amount);
    let m = after.log.last();
    assert(undo(after.accounts, after.storage, m).0 =~= journal.accounts);
    lemma_step_leads_back(journal, after, m, accounts, storage);
}

/// A covered debit keeps the way back.
pub proof fn lemma_debit_leads_back(
    journal: Journal,
    address: Address,
    amount: u128,
    accounts: Map<Address, AccountState>,
    storage: Map<CellKey, Seq<u8>>,
)
    requires
        journal.leads_back_to(accounts, storage),
        journal.can_debit(address, amount),
    ensures
        journal.debit(address, amount).leads_back_to(accounts, storage),
{
    let after = journal.debit(address, amount);
    let m = after.log.last();
    assert(undo(after.accounts, after.storage, m).0 =~= journal.accounts);
    lemma_step_leads_back(journal, after, m, accounts, storage);
}

/// A storage write keeps the way back.
pub proof fn lemma_write_leads_back(
    journal: Journal,
    contract: Address,
    key: Seq<u8>,
    value: Seq<u8>,
    accounts: Map<Address, AccountState>,
    storage: Map<CellKey, Seq<u8>>,
)
    requires
        journal.leads_back_to(accounts, storage),
    ensures
        journal.storage_write(contract, key, value).leads_back_to(accounts, storage),
{
    let after = journal.storage_write(contract, key, value);
    let m = after.log.last();
    assert(undo(after.accounts, after.storage, m).1 =~= journal.storage);
    lemma_step_leads_back(journal, after, m, accounts, storage);
}

/// A storage delete keeps the way back.
pub proof fn lemma_delete_leads_back(
    journal: Journal,
    contract: Address,
    key: Seq<u8>,
    accounts: Map<Address, AccountState>,
    storage: Map<CellKey, Seq<u8>>,
)
    requires
        journal.leads_back_to(accounts, storage),
    ensures
        journal.storage_delete(contract, key).leads_back_to(accounts, storage),
{
    if journal.storage.dom().contains((contract, key)) {
        let after = journal.storage_delete(contract, key);
        let m = after.log.last();
        assert(undo(after.accounts, after.storage, m).1 =~= journal.storage);
        lemma_step_leads_back(journal, after, m, accounts, storage);
    }
}

/// Any one operation keeps the way back.
pub proof fn lemma_apply_leads_back(
    journal: Journal,
    operation: Operation,
    accounts: Map<Address, AccountState>,
    storage: Map<CellKey, Seq<u8>>,
)
    requires
        journal.leads_back_to(accounts, storage),
    ensures
        journal.apply(operation).leads_back_to(accounts, storage),
{
    match operation {
        Operation::Credit { address, amount } => {
            lemma_credit_leads_back(journal, address, amount, accounts, storage);
        },
        Operation::Debit { address, amount } => {
            if journal.can_debit(address, amount) {
                lemma_debit_leads_back(journal, address, amount, accounts, storage);
            }
        },
        Operation::Transfer { from, to, amount } => {
            if journal.can_debit(from, amount) {
                lemma_debit_leads_back(journal, from, amount, accounts, storage);
                lemma_credit_leads_back(journal.debit(from, amount), to, amount, accounts, storage);
            }
        },
        Operation::Write { contract, key, value } => {
            lemma_write_leads_back(journal, contract, key, value, accounts, storage);
        },
        Operation::Delete { contract, key } => {
            lemma_delete_leads_back(journal, contract, key, accounts, storage);
        },
        Operation::Emit { event } => {},
    }
}

/// Any sequence of operations keeps the way back.
pub proof fn lemma_apply_all_leads_back(
    journal: Journal,
    operations: Seq<Operation>,
    accounts: Map<Address, AccountState>,
    storage: Map<CellKey, Seq<u8>>,
)
    requires
        journal.leads_back_to(accounts, storage),
    ensures
        journal.apply_all(operations).leads_back_to(accounts, storage),
    decreases operations.len(),
{
    if operations.len() > 0 {
        lemma_apply_all_leads_back(journal, operations.drop_last(), accounts, storage);
        lemma_apply_leads_back(
            journal.apply_all(operations.drop_last()),
            operations.last(),
            accounts,
            storage,
        );
    }
}

/// Rollback is a true inverse: after any sequence of credits, debits,
/// transfers, storage writes, storage deletes and events on a freshly opened
/// accessor, rolling back restores the ledger and the store exactly as they
/// were, and clears the log and the events.
pub proof fn lemma_rollback_is_inverse(
    accounts: Map<Address, AccountState>,
    storage: Map<CellKey, Seq<u8>>,
    operations: Seq<Operation>,
)
    ensures
        Journal::fresh(accounts, storage).apply_all(operations).rollback() == Journal::fresh(
            accounts,
            storage,
        ),
{
    let start = Journal::fresh(accounts, storage);
    assert(start.leads_back_to(accounts, storage));
    lemma_apply_all_leads_back(start, operations, accounts, storage);
}

/// Atomicity: after any sequence of operations on a freshly opened accessor,
/// a commit keeps every mutation and a rollback keeps none. There is no way
/// to keep some.
pub proof fn lemma_all_or_nothing(
    accounts: Map<Address, AccountState>,
    storage: Map<CellKey, Seq<u8>>,
    operations: Seq<Operation>,
)
    ensures
        ({
            let reached = Journal::fresh(accounts, storage).apply_all(operations);
            &&& reached.commit().accounts == reached.accounts
            &&& reached.commit().storage == reached.storage
            &&& reached.commit().log.len() == 0
            &&& reached.rollback().accounts == accounts
            &&& reached.rollback().storage == storage
            &&& reached.rollback().log.len() == 0
        }),
{
    lemma_rollback_is_inverse(accounts, storage, operations);
}

/// After a rollback the accessor is as good as freshly opened over what it
/// rolled back to: the log is empty, so a second rollback changes neither
/// ledger nor store.
pub proof fn lemma_rollback_twice(journal: Journal)
    ensures
        journal.rollback().rollback() == journal.rollback(),
{
}

} // verus!
