//! Storage-entry TTL inspection and expiry simulation.
pub mod expiry;

pub use expiry::StorageKind;
