//! The command-line surface: subcommands and their arguments, as plain
//! values that the CLI's argument parser fills in.
use vstd::prelude::*;

verus! {

/// A command failure with an actionable, user-facing message.
#[derive(Debug)]
pub struct CliError(pub String);

/// Shell type for completion generation.
#[derive(Debug, Clone, Copy, PartialEq, Eq, Structural)]
pub enum ShellType {
    /// Bash shell
    Bash,
    /// Zsh shell
    Zsh,
    /// Fish shell
    Fish,
}

/// Arguments for `soroban-testkit completion`.
#[derive(Debug, Clone, Copy, PartialEq, Eq, Structural)]
pub struct CompletionArgs {
    /// The shell to generate completions for.
    pub shell: ShellType,
}

/// Output format for `soroban-testkit coverage`.
#[derive(Debug, Clone, Copy, PartialEq, Eq, Structural)]
pub enum Format {
    /// Per-file coverage stats printed to the terminal.
    Text,
    /// An `lcov.info` file, for IDE integrations.
    Lcov,
    /// A browsable HTML report.
    Html,
}

/// Arguments for `soroban-testkit coverage`. The line-coverage threshold is
/// kept as the text it renders to on the command line.
#[derive(Debug)]
pub struct CoverageArgs {
    /// Output format.
    pub format: Format,
    /// Fail if line coverage is below this percentage, as rendered text.
    pub fail_under: Option<String>,
    /// Open the HTML report after generating it (implies HTML output).
    pub open: bool,
}

/// Arguments for `soroban-testkit limits`.
#[derive(Debug)]
pub struct LimitsArgs {
    /// Path to the compiled contract `.wasm` file.
    pub contract: String,
    /// The contract function to ramp.
    pub function: String,
    /// The parameter to increase on each attempt.
    pub ramp: String,
}

/// Arguments of the hidden single-probe subcommand: one ramp value, run in
/// its own process.
#[derive(Debug)]
pub struct ProbeArgs {
    /// Path to the compiled contract `.wasm` file.
    pub contract: String,
    /// The contract function to invoke.
    pub function: String,
    /// The parameter that carries the ramp value.
    pub ramp: String,
    /// The ramp value to try.
    pub value: u32,
}

/// The subcommands of the CLI.
#[derive(Debug)]
pub enum Commands {
    /// Run test coverage for the contract crate.
    Coverage(CoverageArgs),
    /// Empirically discover a contract function's resource ceiling.
    Limits(LimitsArgs),
    /// Generate shell completions for this CLI.
    Completion(CompletionArgs),
    /// Runs a single limits probe in its own process.
    LimitsProbe(ProbeArgs),
}

/// The parsed command line.
#[derive(Debug)]
pub struct Cli {
    /// The subcommand to run.
    pub command: Commands,
}

} // verus!
