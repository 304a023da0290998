//! Testing infrastructure for Soroban contracts: generators for money math,
//! conservation checks, ledger-time control, event and authorization
//! assertions, token doubles, and the decision logic of a small CLI.
pub mod base;
pub mod money;
pub mod ledger;
pub mod ttl;
pub mod tokens;
pub mod cli;
pub mod auth;
pub mod events;
