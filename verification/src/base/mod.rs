//! The foundation every other module builds on: the error type, integer
//! rendering for failure messages, and the test environment.
pub mod error;
pub mod render;

pub use error::TestkitError;
pub mod env;

pub use env::TestEnv;
