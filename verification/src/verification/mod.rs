//! Verifier bookkeeping.

pub mod accuracy;
pub mod runtime;
