//! Assert on contract events without hand-decoding `Val` topics.
pub mod assertions;
pub mod capture;

pub use capture::{CapturedEvent, EventLog};
