//! Runtimes in which verifiers execute solutions.

pub mod capabilities;
