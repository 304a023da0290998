//! The decision logic of the `soroban-testkit` command-line tool: its
//! argument types, the coverage invocation, and the resource-limit search.
pub mod args;
pub mod coverage;

pub use args::{Cli, CliError, Commands, CompletionArgs, CoverageArgs, Format, LimitsArgs, ProbeArgs, ShellType};
pub mod limits;
pub mod contract_spec;
