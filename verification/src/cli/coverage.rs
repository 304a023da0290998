//! The `coverage` subcommand: which `cargo llvm-cov` invocation a set of
//! options maps to.
use vstd::prelude::*;

use crate::cli::args::{CoverageArgs, Format};

verus! {

/// The text of each argument, in order.
pub open spec fn texts(args: Seq<String>) -> Seq<Seq<char>> {
    args.map_values(|a: String| a@)
}

/// The arguments given to `cargo` for a coverage run: `llvm-cov test`, the
/// output-format flags, `--html --open` (or just `--open` when the format is
/// already HTML) when the report should be opened, and the line-coverage
/// threshold when one is set.
pub open spec fn coverage_arg_texts(format: Format, open: bool, fail_under: Option<Seq<char>>) -> Seq<
    Seq<char>,
> {
    let base = seq!["llvm-cov"@, "test"@];
    let with_format = match format {
        Format::Text => base,
        Format::Lcov => base + seq!["--lcov"@, "--output-path"@, "lcov.info"@],
        Format::Html => base + seq!["--html"@],
    };
    let with_open = if open {
        match format {
            Format::Html => with_format.push("--open"@),
            _ => with_format + seq!["--html"@, "--open"@],
        }
    } else {
        with_format
    };
    match fail_under {
        Some(pct) => with_open + seq!["--fail-under-lines"@, pct],
        None => with_open,
    }
}

fn push_text(args: &mut Vec<String>, s: &str)
    ensures
        texts(final(args)@) == texts(old(args)@).push(s@),
{
    args.push(String::from_str(s));
    assert(texts(args@) =~= texts(old(args)@).push(s@));
}

/// The arguments to pass to `cargo` for `soroban-testkit coverage`.
pub fn coverage_command_args(args: &CoverageArgs) -> (r: Vec<String>)
    ensures
        texts(r@) == coverage_arg_texts(
            args.format,
            args.open,
            match args.fail_under {
                Some(p) => Some(p@),
                None => None,
            },
        ),
{
    let mut out: Vec<String> = Vec::new();
    assert(texts(out@) =~= Seq::<Seq<char>>::empty());
    push_text(&mut out, "llvm-cov");
    push_text(&mut out, "test");
    match args.format {
        Format::Text => {},
        Format::Lcov => {
            push_text(&mut out, "--lcov");
            push_text(&mut out, "--output-path");
            push_text(&mut out, "lcov.info");
        },
        Format::Html => {
            push_text(&mut out, "--html");
        },
    }
    if args.open {
        match args.format {
            Format::Html => {},
            _ => {
                push_text(&mut out, "--html");
            },
        }
        push_text(&mut out, "--open");
    }
    match &args.fail_under {
        Some(pct) => {
            push_text(&mut out, "--fail-under-lines");
            push_text(&mut out, pct.as_str());
        },
        None => {},
    }
    assert(texts(out@) =~= coverage_arg_texts(
        args.format,
        args.open,
        match args.fail_under {
            Some(p) => Some(p@),
            None => None,
        },
    ));
    out
}

} // verus!
