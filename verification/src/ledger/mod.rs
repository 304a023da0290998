//! Ledger time control: advancing, warping, and the arithmetic that keeps
//! `timestamp` and `sequence` moving together.
pub mod clock;

pub use clock::LEDGER_CLOSE_TIME_SECS;
