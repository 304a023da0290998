//! The decision logic behind authorization matrices: proving that every
//! privileged entry point rejects the callers it should.
pub mod grid;
