//! Chain state that the contract engine borrows: the account ledger and the
//! contract key-value store.

pub mod account;
pub mod storage;

pub use self::account::{AccountState, Ledger, StateError};
pub use self::storage::ContractStorage;
