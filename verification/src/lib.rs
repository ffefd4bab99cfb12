//! # HardClaw
//!
//! A proof-of-verification protocol core. The heart of the crate is the
//! contract state-transition engine under [`contracts`]: a state accessor that
//! journals every mutation so that it can be undone, and a transaction
//! processor that validates, executes and reconciles contract calls against an
//! independently recomputed state root.
//!
//! Every executable function in this crate carries a contract that is proved
//! of its body. The calls into other crates (hashing, signatures, key
//! encapsulation, mnemonics, hexadecimal text) stand behind small wrappers
//! whose contracts are taken on trust; each says so in its doc comment.

pub mod api;
pub mod contracts;
pub mod crypto;
pub mod encoding;
pub mod genesis;
pub mod state;
pub mod tokenomics;
pub mod types;
pub mod verification;
pub mod wallet;

use vstd::prelude::*;

verus! {

/// Schelling redundancy (jobs sent to N solvers for subjective tasks)
pub const SCHELLING_REDUNDANCY: usize = 5;

/// Consensus threshold in percent (66% = 2/3 majority)
pub const CONSENSUS_THRESHOLD_PERCENT: u64 = 66;

/// Percentage of a fee that goes to the solver
pub const SOLVER_SHARE: u8 = 95;

/// Percentage of a fee that goes to the verifier
pub const VERIFIER_SHARE: u8 = 4;

/// Percentage of a fee that is burned
pub const BURN_SHARE: u8 = 1;

} // verus!
