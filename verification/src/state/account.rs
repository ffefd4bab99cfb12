//! Account records and the ledger that holds them.

use vstd::prelude::*;
use vstd::string::*;

use crate::types::address::Address;
use crate::types::address_map::AddressMap;
use crate::types::amount::HclawAmount;
use crate::types::block::GenesisAlloc;

verus! {

/// Balance, stake and nonce of one account.
#[derive(Clone, Copy, Debug, PartialEq, Eq, Structural)]
pub struct AccountState {
    /// Total balance, staked tokens included
    pub balance: HclawAmount,
    /// The part of the balance that is staked and cannot be spent
    pub staked: HclawAmount,
    /// Number of the last transaction that this account sent
    pub nonce: u64,
}

/// Errors of account operations
#[derive(Clone, Copy, Debug, PartialEq, Eq, Structural)]
pub enum StateError {
    /// The available balance does not cover the amount
    InsufficientBalance {
        /// Amount needed
        need: HclawAmount,
        /// Amount available
        have: HclawAmount,
    },
}

impl StateError {
    /// A human-readable description of the error.
    pub fn message(&self) -> (r: String)
        ensures
            r@ == "insufficient balance"@,
    {
        String::from_str("insufficient balance")
    }
}

/// The account ledger: a map from address to account record.
pub type Ledger = AddressMap<AccountState>;

/// The record of an account that has never been touched.
pub open spec fn default_account() -> AccountState {
    AccountState { balance: HclawAmount(0), staked: HclawAmount(0), nonce: 0 }
}

/// The record that a ledger holds for an address: an address without an
/// entry reads as an untouched account.
pub open spec fn account_of(ledger: Map<Address, AccountState>, address: Address) -> AccountState {
    if ledger.dom().contains(address) {
        ledger[address]
    } else {
        default_account()
    }
}

/// The balance that a ledger holds for an address, in raw units.
pub open spec fn balance_of(ledger: Map<Address, AccountState>, address: Address) -> u128 {
    account_of(ledger, address).balance.0
}

/// The part of a balance that is not staked, in raw units.
pub open spec fn available_of(ledger: Map<Address, AccountState>, address: Address) -> u128 {
    account_of(ledger, address).spec_available()
}

impl Default for AccountState {
    fn default() -> (r: Self)
        ensures
            r == default_account(),
    {
        AccountState { balance: HclawAmount(0), staked: HclawAmount(0), nonce: 0 }
    }
}

impl AccountState {
    /// The spendable part of the balance, in raw units.
    pub open spec fn spec_available(&self) -> u128 {
        if self.balance.0 >= self.staked.0 {
            (self.balance.0 - self.staked.0) as u128
        } else {
            0
        }
    }

    /// A fresh account with a balance, no stake and nonce zero.
    pub fn new(balance: HclawAmount) -> (r: Self)
        ensures
            r == (AccountState { balance, staked: HclawAmount(0), nonce: 0 }),
    {
        AccountState { balance, staked: HclawAmount(0), nonce: 0 }
    }

    /// The spendable part of the balance: balance minus stake.
    pub fn available_balance(&self) -> (r: HclawAmount)
        ensures
            r.0 == self.spec_available(),
    {
        self.balance.saturating_sub(self.staked)
    }

    /// Adds to the balance, which stops at the largest representable amount.
    pub fn credit(&mut self, amount: HclawAmount)
        ensures
            final(self).staked == old(self).staked,
            final(self).nonce == old(self).nonce,
            final(self).balance.0 == if old(self).balance.0 + amount.0 > u128::MAX {
                u128::MAX
            } else {
                (old(self).balance.0 + amount.0) as u128
            },
    {
        self.balance = self.balance.saturating_add(amount);
    }

    /// Takes from the balance, or fails and changes nothing where the
    /// available balance is short.
    pub fn debit(&mut self, amount: HclawAmount) -> (r: Result<(), StateError>)
        ensures
            old(self).spec_available() >= amount.0 ==> r.is_ok() && *final(self) == (AccountState {
                balance: HclawAmount((old(self).balance.0 - amount.0) as u128),
                ..*old(self)
            }),
            old(self).spec_available() < amount.0 ==> *final(self) == *old(self) && r == Err::<
                (),
                StateError,
            >(
                StateError::InsufficientBalance {
                    need: amount,
                    have: HclawAmount(old(self).spec_available()),
                },
            ),
    {
        let have = self.available_balance();
        if have.0 < amount.0 {
            return Err(StateError::InsufficientBalance { need: amount, have });
        }
        self.balance = HclawAmount(self.balance.0 - amount.0);
        Ok(())
    }
}

/// A ledger after an address has been credited an amount: the balance
/// grows, up to the largest representable amount, and an address without an
/// entry gets one.
pub open spec fn credited(
    ledger: Map<Address, AccountState>,
    address: Address,
    amount: u128,
) -> Map<Address, AccountState> {
    let account = account_of(ledger, address);
    ledger.insert(
        address,
        AccountState {
            balance: HclawAmount(
                if account.balance.0 + amount > u128::MAX {
                    u128::MAX
                } else {
                    (account.balance.0 + amount) as u128
                },
            ),
            ..account
        },
    )
}

/// A ledger after the first `upto` of some allocations have been credited,
/// in order.
pub open spec fn allocated(
    ledger: Map<Address, AccountState>,
    alloc: Seq<GenesisAlloc>,
    upto: int,
) -> Map<Address, AccountState>
    decreases upto,
{
    if upto <= 0 {
        ledger
    } else {
        credited(
            allocated(ledger, alloc, upto - 1),
            alloc[upto - 1].address,
            alloc[upto - 1].amount.0,
        )
    }
}

/// Credit the initial allocations of a chain to a ledger, in order.
pub fn apply_allocations(ledger: &mut Ledger, alloc: &[GenesisAlloc])
    ensures
        final(ledger)@ == allocated(old(ledger)@, alloc@, alloc@.len() as int),
{
    let mut i: usize = 0;
    while i < alloc.len()
        invariant
            0 <= i <= alloc@.len(),
            ledger@ == allocated(old(ledger)@, alloc@, i as int),
        decreases alloc@.len() - i,
    {
        let mut account = match ledger.get(&alloc[i].address) {
            Some(a) => *a,
            None => AccountState::new(HclawAmount::zero()),
        };
        account.credit(alloc[i].amount);
        ledger.insert(alloc[i].address, account);
        i += 1;
    }
}

} // verus!
