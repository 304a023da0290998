//! One-line Stellar Asset Contract test doubles.
pub mod sac;

pub use sac::TestToken;
