//! Token economics.

pub mod distribution;

pub use self::distribution::{FeeDistribution, FeeDistributor};
